//! The vector store and its index, without the connection that they work on.

use core::marker::PhantomData;

use vstd::prelude::*;
use vstd::string::*;

use crate::column::{column_views, has_id_column, ColumnView};
use crate::embedding::Embedding;
use crate::error::LibsqlMissingIdColumn;
use crate::insert::{
    add_rows_start, document_views, in_progress, AddRows, DocumentRow, StoreAction,
};
use crate::metric::LibsqlDistanceMetric;
use crate::query::SearchRequest;
use crate::schema::{schema_batch, schema_sql};
use crate::search::{search_of, search_start, under_way, Search, SearchAction};
use crate::table::{are_rows_of, document_rows, is_declared, is_named, LibsqlVectorStoreTable};

verus! {

/// A vector store for a document table `T`.
///
/// Create with [`LibsqlVectorStore::new`] (cosine similarity) or
/// [`LibsqlVectorStore::with_distance_metric`], then call
/// [`LibsqlVectorStore::index`] to obtain a searchable [`LibsqlVectorIndex`].
pub struct LibsqlVectorStore<T: LibsqlVectorStoreTable> {
    distance_metric: LibsqlDistanceMetric,
    table: PhantomData<T>,
}

impl<T: LibsqlVectorStoreTable> View for LibsqlVectorStore<T> {
    type V = LibsqlDistanceMetric;

    closed spec fn view(&self) -> LibsqlDistanceMetric {
        self.distance_metric
    }
}

impl<T: LibsqlVectorStoreTable> Clone for LibsqlVectorStore<T> {
    fn clone(&self) -> (copy: Self)
        ensures
            copy@ == self@,
    {
        LibsqlVectorStore { distance_metric: self.distance_metric, table: PhantomData }
    }
}

/// Whether `created` is what creating a store gives: the store with the statements that
/// create its tables, or an error where the table has no column named `id`.
pub open spec fn creates<T: LibsqlVectorStoreTable>(
    table_name: Seq<char>,
    columns: Seq<ColumnView>,
    dims: nat,
    distance_metric: LibsqlDistanceMetric,
    created: Result<(LibsqlVectorStore<T>, String), LibsqlMissingIdColumn>,
) -> bool {
    match created {
        Ok((store, schema)) => {
            &&& has_id_column(columns)
            &&& store@ == distance_metric
            &&& schema@ == schema_sql(table_name, columns, dims)
        },
        Err(error) => {
            &&& !has_id_column(columns)
            &&& error.table_name@ == table_name
        },
    }
}

impl<T: LibsqlVectorStoreTable> LibsqlVectorStore<T> {
    /// Creates a store using cosine similarity, for embeddings of `dims` components. Its
    /// tables exist once the returned statements have been run.
    pub fn new(dims: usize) -> (created: Result<(Self, String), LibsqlMissingIdColumn>)
        ensures
            exists|table_name: Seq<char>, columns: Seq<ColumnView>|
                #![trigger is_named::<T>(table_name), is_declared::<T>(columns)]
                is_named::<T>(table_name) && is_declared::<T>(columns) && creates::<T>(
                    table_name,
                    columns,
                    dims as nat,
                    LibsqlDistanceMetric::Cosine,
                    created,
                ),
    {
        Self::with_distance_metric(dims, LibsqlDistanceMetric::default())
    }

    /// Creates a store with the requested distance metric, for embeddings of `dims`
    /// components. Its tables exist once the returned statements have been run.
    ///
    /// The store manages its own schema: the user-declared document table plus a
    /// `<table>_embeddings` table (typed `FLOAT32(N)` vector column with a
    /// `libsql_vector_idx` index) and a `<table>_embedding_map` table linking
    /// each embedding row back to its document rowid. All three are created
    /// with `IF NOT EXISTS`, so running the statements is idempotent against an
    /// existing store.
    pub fn with_distance_metric(dims: usize, distance_metric: LibsqlDistanceMetric) -> (created:
        Result<(Self, String), LibsqlMissingIdColumn>)
        ensures
            exists|table_name: Seq<char>, columns: Seq<ColumnView>|
                #![trigger is_named::<T>(table_name), is_declared::<T>(columns)]
                is_named::<T>(table_name) && is_declared::<T>(columns) && creates::<T>(
                    table_name,
                    columns,
                    dims as nat,
                    distance_metric,
                    created,
                ),
    {
        let table_name = T::name();
        let schema = T::schema();
        assert(is_named::<T>(table_name@));
        assert(is_declared::<T>(column_views(schema@)));
        match schema_batch(table_name, &schema, dims) {
            Ok(sql) => Ok((LibsqlVectorStore { distance_metric, table: PhantomData }, sql)),
            Err(error) => Err(error),
        }
    }

    pub fn index(self) -> (index: LibsqlVectorIndex<T>)
        ensures
            index@ == self@,
    {
        LibsqlVectorIndex::new(self)
    }

    /// Inserts documents with their precomputed embeddings, replacing any
    /// previous embeddings for documents that share the same `id`.
    pub fn add_rows(&self, documents: Vec<(T, Vec<Embedding>)>) -> (started: (AddRows, StoreAction))
        ensures
            exists|table_name: Seq<char>, rows: Seq<DocumentRow>|
                #![trigger is_named::<T>(table_name), document_views(rows)]
                is_named::<T>(table_name) && are_rows_of(rows, documents@) && (
                    started.0@,
                    started.1@,
                ) == add_rows_start(table_name, document_views(rows)),
            in_progress(started.0@),
    {
        let table_name = T::name();
        assert(is_named::<T>(table_name@));
        AddRows::start(table_name, document_rows(documents))
    }

    pub fn distance_metric(&self) -> (metric: LibsqlDistanceMetric)
        ensures
            metric == self@,
    {
        self.distance_metric
    }
}

/// A searchable index, built from a [`LibsqlVectorStore`] via
/// [`LibsqlVectorStore::index`].
pub struct LibsqlVectorIndex<T: LibsqlVectorStoreTable> {
    store: LibsqlVectorStore<T>,
}

impl<T: LibsqlVectorStoreTable> View for LibsqlVectorIndex<T> {
    type V = LibsqlDistanceMetric;

    closed spec fn view(&self) -> LibsqlDistanceMetric {
        self.store@
    }
}

impl<T: LibsqlVectorStoreTable> LibsqlVectorIndex<T> {
    pub fn new(store: LibsqlVectorStore<T>) -> (index: Self)
        ensures
            index@ == store@,
    {
        LibsqlVectorIndex { store }
    }

    /// Searches for the documents nearest to the query text.
    pub fn top_n(&self, request: SearchRequest) -> (started: (Search, SearchAction))
        ensures
            exists|table_name: Seq<char>, columns: Seq<ColumnView>|
                #![trigger is_named::<T>(table_name), is_declared::<T>(columns)]
                is_named::<T>(table_name) && is_declared::<T>(columns) && (started.0@, started.1@)
                    == search_start(search_of(table_name, self@, columns, true, request)),
            under_way(started.0@),
    {
        let table_name = T::name();
        let schema = T::schema();
        assert(is_named::<T>(table_name@));
        assert(is_declared::<T>(column_views(schema@)));
        Search::start(table_name, self.store.distance_metric(), schema, true, request)
    }

    /// Searches for the ids of the documents nearest to the query text.
    pub fn top_n_ids(&self, request: SearchRequest) -> (started: (Search, SearchAction))
        ensures
            exists|table_name: Seq<char>, columns: Seq<ColumnView>|
                #![trigger is_named::<T>(table_name), is_declared::<T>(columns)]
                is_named::<T>(table_name) && is_declared::<T>(columns) && (started.0@, started.1@)
                    == search_start(search_of(table_name, self@, columns, false, request)),
            under_way(started.0@),
    {
        let table_name = T::name();
        let schema = T::schema();
        assert(is_named::<T>(table_name@));
        assert(is_declared::<T>(column_views(schema@)));
        Search::start(table_name, self.store.distance_metric(), schema, false, request)
    }
}

} // verus!
