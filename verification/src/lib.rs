//! The verified core of a vector store on libSQL.
//!
//! libSQL keeps vectors in `FLOAT32(N)` columns, indexes them with `libsql_vector_idx`, and
//! searches them with the `vector_top_k` / `vector_distance_*` SQL functions. This crate
//! decides what to ask of such a database, and what its replies mean: the schema of a
//! [`LibsqlVectorStore`], the statements that insert documents with their embeddings, the
//! query of a search on a [`LibsqlVectorIndex`], the [`LibsqlSearchFilter`]s that narrow it,
//! and the JSON that stored columns are read back as. Document tables are declared by
//! implementing [`LibsqlVectorStoreTable`].
//!
//! The crate holds no connection and no embedding model. [`insert::AddRows`] and
//! [`search::Search`] are driven by whoever does: each says what to do next, and takes the
//! reply.
//!
//! Floats cross its border as bit patterns: doubles as `u64`, single-precision floats as
//! `u32`.

pub mod candidates;
pub mod column;
pub mod column_laws;
pub mod column_value;
pub mod conjunct;
pub mod embedding;
pub mod error;
pub mod filter;
pub mod filter_laws;
pub mod insert;
pub mod insert_laws;
pub mod json;
pub mod meaning;
pub mod metric;
pub mod nesting;
pub mod placeholder;
pub mod query;
pub mod round_trip;
pub mod row;
pub mod schema;
pub mod search;
pub mod search_laws;
pub mod statement_laws;
pub mod store;
pub mod store_laws;
pub mod table;
pub mod text;
pub mod value;

pub use crate::column::Column;
pub use crate::column_value::ColumnValue;
pub use crate::filter::LibsqlSearchFilter;
pub use crate::metric::LibsqlDistanceMetric;
pub use crate::store::{LibsqlVectorIndex, LibsqlVectorStore};
pub use crate::table::LibsqlVectorStoreTable;
