//! Document types, and the rows that are stored of them.

use vstd::prelude::*;
use vstd::string::*;

use crate::column::{column_views, Column, ColumnView};
use crate::column_value::ColumnValue;
use crate::embedding::Embedding;
use crate::insert::DocumentRow;
use crate::value::LibsqlValue;

verus! {

/// A document type that can be persisted in a vector store.
///
/// Implementations declare the backing document table (`name` + `schema`) and
/// how an instance maps to column values. The vector store itself owns the
/// companion `<table>_embeddings` and `<table>_embedding_map` tables used for
/// similarity search, so the schema only describes the user-facing document
/// columns (one of which must be named `id`).
pub trait LibsqlVectorStoreTable: Send + Sync + Clone {
    fn name() -> &'static str;

    fn schema() -> Vec<Column>;

    fn id(&self) -> String;

    fn column_values(&self) -> Vec<(&'static str, Box<dyn ColumnValue>)>;
}

/// Whether the document type may give its table this name.
pub open spec fn is_named<T: LibsqlVectorStoreTable>(table_name: Seq<char>) -> bool {
    exists|name: &'static str| #[trigger] call_ensures(T::name, (), name) && name@ == table_name
}

/// Whether the document type may declare these columns.
pub open spec fn is_declared<T: LibsqlVectorStoreTable>(columns: Seq<ColumnView>) -> bool {
    exists|schema: Vec<Column>| #[trigger]
        call_ensures(T::schema, (), schema) && column_views(schema@) == columns
}

/// Whether each column stands with a value that the column's value may be stored as.
pub open spec fn stores(
    values: Seq<(&'static str, Box<dyn ColumnValue>)>,
    stored: Seq<(&'static str, LibsqlValue)>,
) -> bool {
    &&& stored.len() == values.len()
    &&& forall|i: int|
        0 <= i < values.len() ==> (#[trigger] stored[i]).0@ == values[i].0@
            && values[i].1.stored_as(stored[i].1@)
}

/// Converts the values of a document's columns.
pub fn stored_values(values: &Vec<(&'static str, Box<dyn ColumnValue>)>) -> (stored: Vec<
    (&'static str, LibsqlValue),
>)
    ensures
        stores(values@, stored@),
{
    let mut stored: Vec<(&'static str, LibsqlValue)> = Vec::new();
    let mut i: usize = 0;
    while i < values.len()
        invariant
            i <= values.len(),
            stored.len() == i,
            forall|k: int|
                0 <= k < i ==> (#[trigger] stored@[k]).0@ == values@[k].0@
                    && values@[k].1.stored_as(stored@[k].1@),
        decreases values.len() - i,
    {
        stored.push((values[i].0, values[i].1.to_libsql_value()));
        i += 1;
    }
    stored
}

/// Whether the row is one of the document and its embeddings.
pub open spec fn is_row_of<T: LibsqlVectorStoreTable>(
    row: DocumentRow,
    document: T,
    embeddings: Vec<Embedding>,
) -> bool {
    &&& call_ensures(T::id, (&document,), row.id)
    &&& exists|values: Vec<(&'static str, Box<dyn ColumnValue>)>| #[trigger]
        call_ensures(T::column_values, (&document,), values) && stores(values@, row.values@)
    &&& row.embeddings == embeddings
}

/// The row of a document with its embeddings.
pub fn document_row<T: LibsqlVectorStoreTable>(document: &T, embeddings: Vec<Embedding>) -> (row:
    DocumentRow)
    ensures
        is_row_of(row, *document, embeddings),
{
    let values = document.column_values();
    let stored = stored_values(&values);
    DocumentRow { id: document.id(), values: stored, embeddings }
}

/// Whether the rows are those of the documents, in their order.
pub open spec fn are_rows_of<T: LibsqlVectorStoreTable>(
    rows: Seq<DocumentRow>,
    documents: Seq<(T, Vec<Embedding>)>,
) -> bool {
    &&& rows.len() == documents.len()
    &&& forall|i: int|
        0 <= i < rows.len() ==> is_row_of(#[trigger] rows[i], documents[i].0, documents[i].1)
}

/// The rows of documents with their embeddings.
pub fn document_rows<T: LibsqlVectorStoreTable>(documents: Vec<(T, Vec<Embedding>)>) -> (rows: Vec<
    DocumentRow,
>)
    ensures
        are_rows_of(rows@, documents@),
{
    let mut rows: Vec<DocumentRow> = Vec::new();
    let ghost all = documents@;
    for pair in it: documents
        invariant
            it.seq() == all,
            rows@.len() == it.index(),
            forall|i: int|
                0 <= i < rows@.len() ==> is_row_of(#[trigger] rows@[i], all[i].0, all[i].1),
    {
        let (document, embeddings) = pair;
        rows.push(document_row(&document, embeddings));
    }
    rows
}

} // verus!
