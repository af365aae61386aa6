//! What a store and its index hand on of what they are given.

use vstd::prelude::*;
use vstd::string::*;

use crate::column::{column_views, has_id_column, Column, ColumnView};
use crate::column_value::{ColumnValue, Double};
use crate::embedding::Embedding;
use crate::error::LibsqlMissingIdColumn;
use crate::insert::{
    add_rows_start, add_rows_step, document_views, AddRows, DocumentRow, StoreAction, StoreEvent,
};
use crate::metric::LibsqlDistanceMetric;
use crate::query::SearchRequest;
use crate::schema::schema_sql;
use crate::search::{Search, SearchAction, SearchActionView};
use crate::store::{creates, LibsqlVectorIndex, LibsqlVectorStore};
use crate::table::{
    are_rows_of, is_declared, is_named, is_row_of, stored_values, stores, LibsqlVectorStoreTable,
};
use crate::value::LibsqlValue;

verus! {

/// A store keeps the metric that it was created with, cosine where none was given, and so do a
/// copy of it, its index, and every search of the index.
pub proof fn law_the_metric_is_kept<T: LibsqlVectorStoreTable>(
    dims: usize,
    metric: LibsqlDistanceMetric,
    plain: Result<(LibsqlVectorStore<T>, String), LibsqlMissingIdColumn>,
    created: Result<(LibsqlVectorStore<T>, String), LibsqlMissingIdColumn>,
    copy: LibsqlVectorStore<T>,
    plain_metric: LibsqlDistanceMetric,
    kept: LibsqlDistanceMetric,
    index: LibsqlVectorIndex<T>,
    request: SearchRequest,
    documents: (Search, SearchAction),
    ids: (Search, SearchAction),
)
    requires
        call_ensures(LibsqlVectorStore::<T>::new, (dims,), plain),
        call_ensures(LibsqlVectorStore::<T>::with_distance_metric, (dims, metric), created),
        plain is Ok,
        created is Ok,
        call_ensures(LibsqlVectorStore::<T>::distance_metric, (&plain->Ok_0.0,), plain_metric),
        call_ensures(LibsqlVectorStore::<T>::clone, (&created->Ok_0.0,), copy),
        call_ensures(LibsqlVectorStore::<T>::distance_metric, (&copy,), kept),
        call_ensures(LibsqlVectorStore::<T>::index, (copy,), index),
        call_ensures(LibsqlVectorIndex::<T>::top_n, (&index, request), documents),
        call_ensures(LibsqlVectorIndex::<T>::top_n_ids, (&index, request), ids),
    ensures
        plain_metric is Cosine,
        kept == metric,
        documents.0@.metric == metric,
        ids.0@.metric == metric,
{
}

/// A search of an index asks for what was requested: in the table of the document type, by the
/// text, the number of documents, the threshold and the filter of the request. Where documents
/// are searched for, it wants documents, and else ids alone.
pub proof fn law_an_index_searches_as_requested<T: LibsqlVectorStoreTable>(
    index: LibsqlVectorIndex<T>,
    request: SearchRequest,
    documents: (Search, SearchAction),
    ids: (Search, SearchAction),
)
    requires
        call_ensures(LibsqlVectorIndex::<T>::top_n, (&index, request), documents),
        call_ensures(LibsqlVectorIndex::<T>::top_n_ids, (&index, request), ids),
    ensures
        documents.0@.wants_documents,
        !ids.0@.wants_documents,
        forall|search: Search|
            #![trigger search@]
            search == documents.0 || search == ids.0 ==> (exists|name: &'static str| #[trigger]
                call_ensures(T::name, (), name) && search@.table_name == name@) && (exists|
                schema: Vec<Column>,
            | #[trigger]
                call_ensures(T::schema, (), schema) && search@.columns == column_views(schema@)),
        forall|search: Search|
            #![trigger search@]
            search == documents.0 || search == ids.0 ==> search@.query == request.query@
                && search@.samples == request.samples && search@.threshold == request.threshold
                && match request.filter {
                Some(filter) => search@.filter == Some(filter.expr),
                None => search@.filter is None,
            },
        request.samples == 0 <==> documents.1 is Finish,
        request.samples == 0 <==> ids.1 is Finish,
        request.samples > 0 ==> ids.1@ == SearchActionView::Embed(request.query@),
        documents.1 is Embed ==> documents.1@ == SearchActionView::Embed(request.query@),
{
}

/// Every document is added, with all of its embeddings and in the order given: the insertion
/// holds, document by document, the id that the document has, a value for each of its columns,
/// and the components of its embeddings.
pub proof fn law_every_document_is_added<T: LibsqlVectorStoreTable>(
    store: LibsqlVectorStore<T>,
    documents: Vec<(T, Vec<Embedding>)>,
    started: (AddRows, StoreAction),
)
    requires
        call_ensures(LibsqlVectorStore::<T>::add_rows, (&store, documents), started),
    ensures
        exists|name: &'static str| #[trigger]
            call_ensures(T::name, (), name) && started.0@.table_name == name@,
        started.0@.document == 0,
        started.0@.documents.len() == documents@.len(),
        forall|i: int|
            0 <= i < documents@.len() ==> ({
                let added = #[trigger] started.0@.documents[i];
                &&& exists|id: String| #[trigger]
                    call_ensures(T::id, (&documents@[i].0,), id) && added.id == id@
                &&& exists|values: Vec<(&'static str, Box<dyn ColumnValue>)>| #[trigger]
                    call_ensures(T::column_values, (&documents@[i].0,), values)
                        && added.values.len() == values@.len() && forall|k: int|
                        0 <= k < values@.len() ==> (#[trigger] added.values[k]).0 == values@[k].0@
                            && values@[k].1.stored_as(added.values[k].1)
                &&& added.embeddings.len() == documents@[i].1@.len()
                &&& forall|k: int|
                    0 <= k < documents@[i].1@.len() ==> #[trigger] added.embeddings[k]
                        == documents@[i].1@[k].vec@
            }),
        documents@.len() == 0 ==> started.1 is Finish,
        documents@.len() > 0 ==> started.1 is Begin,
{
    let (table_name, rows) = choose|table_name: Seq<char>, rows: Seq<DocumentRow>|
        #![trigger is_named::<T>(table_name), document_views(rows)]
        is_named::<T>(table_name) && are_rows_of(rows, documents@) && (started.0@, started.1@)
            == add_rows_start(table_name, document_views(rows));
    assert forall|i: int| 0 <= i < documents@.len() implies ({
        let added = #[trigger] started.0@.documents[i];
        &&& exists|id: String| #[trigger]
            call_ensures(T::id, (&documents@[i].0,), id) && added.id == id@
        &&& exists|values: Vec<(&'static str, Box<dyn ColumnValue>)>| #[trigger]
            call_ensures(T::column_values, (&documents@[i].0,), values) && added.values.len()
                == values@.len() && forall|k: int|
                0 <= k < values@.len() ==> (#[trigger] added.values[k]).0 == values@[k].0@
                    && values@[k].1.stored_as(added.values[k].1)
        &&& added.embeddings.len() == documents@[i].1@.len()
        &&& forall|k: int|
            0 <= k < documents@[i].1@.len() ==> #[trigger] added.embeddings[k]
                == documents@[i].1@[k].vec@
    }) by {
        let row = rows[i];
        let added = started.0@.documents[i];
        assert(added == row@);
        assert(is_row_of(row, documents@[i].0, documents@[i].1));
        let values = choose|values: Vec<(&'static str, Box<dyn ColumnValue>)>| #[trigger]
            call_ensures(T::column_values, (&documents@[i].0,), values) && stores(
                values@,
                row.values@,
            );
        assert forall|k: int| 0 <= k < values@.len() implies (#[trigger] added.values[k]).0
            == values@[k].0@ && values@[k].1.stored_as(added.values[k].1) by {
            assert(added.values[k] == (row.values@[k].0@, row.values@[k].1@));
        }
        assert(call_ensures(T::id, (&documents@[i].0,), row.id));
    }
}

/// An insertion goes by the steps that its laws speak of.
pub proof fn law_adding_goes_by_its_steps(rows: &mut AddRows, event: StoreEvent, action: StoreAction)
    requires
        call_ensures(AddRows::next, (rows, event), action),
    ensures
        (final(rows)@, action@) == add_rows_step(old(rows)@, event),
{
}

/// Each value of a document stands behind the name of its column, converted, and none is left
/// out.
pub proof fn law_every_value_is_converted(
    values: Vec<(&'static str, Box<dyn ColumnValue>)>,
    stored: Vec<(&'static str, LibsqlValue)>,
)
    requires
        call_ensures(stored_values, (&values,), stored),
    ensures
        stored@.len() == values@.len(),
        forall|i: int|
            0 <= i < values@.len() ==> (#[trigger] stored@[i]).0@ == values@[i].0@
                && values@[i].1.stored_as(stored@[i].1@),
{
}

/// The types that values name for their columns are these, whatever the value, and what they are
/// converted to is the value itself.
pub proof fn law_values_name_their_type(
    text: String,
    long: i64,
    short: i32,
    double: Double,
    flag: bool,
    json: serde_json::Value,
    named: &'static str,
    stored: LibsqlValue,
)
    ensures
        call_ensures(<String as ColumnValue>::column_type, (&text,), named) ==> named@ == "TEXT"@,
        call_ensures(<i64 as ColumnValue>::column_type, (&long,), named) ==> named@ == "INTEGER"@,
        call_ensures(<i32 as ColumnValue>::column_type, (&short,), named) ==> named@ == "INTEGER"@,
        call_ensures(<Double as ColumnValue>::column_type, (&double,), named) ==> named@
            == "FLOAT"@,
        call_ensures(<bool as ColumnValue>::column_type, (&flag,), named) ==> named@ == "BOOLEAN"@,
        call_ensures(<serde_json::Value as ColumnValue>::column_type, (&json,), named) ==> named@
            == "JSON"@,
        call_ensures(<String as ColumnValue>::to_libsql_value, (&text,), stored) ==> (
        stored matches LibsqlValue::Text(kept) && kept@ == text@),
        call_ensures(<i64 as ColumnValue>::to_libsql_value, (&long,), stored) ==> stored
            == LibsqlValue::Integer(long),
        call_ensures(<i32 as ColumnValue>::to_libsql_value, (&short,), stored) ==> stored
            == LibsqlValue::Integer(short as i64),
        call_ensures(<Double as ColumnValue>::to_libsql_value, (&double,), stored) ==> stored
            == LibsqlValue::Real(double.bits),
        call_ensures(<bool as ColumnValue>::to_libsql_value, (&flag,), stored) ==> stored
            == LibsqlValue::Integer(
            if flag {
                1
            } else {
                0
            },
        ),
{
}

/// A store is created just where a column of its document type is named `id`, with the statements
/// that create the tables of that type for vectors of the dimension asked for, whichever way it
/// is created. Else the error names the table.
pub proof fn law_a_store_is_made_for_its_table<T: LibsqlVectorStoreTable>(
    dims: usize,
    metric: LibsqlDistanceMetric,
    plain: Result<(LibsqlVectorStore<T>, String), LibsqlMissingIdColumn>,
    created: Result<(LibsqlVectorStore<T>, String), LibsqlMissingIdColumn>,
)
    requires
        call_ensures(LibsqlVectorStore::<T>::new, (dims,), plain),
        call_ensures(LibsqlVectorStore::<T>::with_distance_metric, (dims, metric), created),
    ensures
        is_made_for(dims, plain),
        is_made_for(dims, created),
{
    lemma_made_for(dims, LibsqlDistanceMetric::Cosine, plain);
    lemma_made_for(dims, metric, created);
}

/// Whether what creating a store gives belongs to the name and the columns that the document
/// type may give, and says whether one of these is named `id`.
pub open spec fn is_made_for<T: LibsqlVectorStoreTable>(
    dims: usize,
    created: Result<(LibsqlVectorStore<T>, String), LibsqlMissingIdColumn>,
) -> bool {
    exists|name: &'static str, schema: Vec<Column>|
        {
            &&& #[trigger] call_ensures(T::name, (), name)
            &&& #[trigger] call_ensures(T::schema, (), schema)
            &&& created is Ok <==> exists|i: int|
                0 <= i < schema@.len() && (#[trigger] schema@[i])@.name == "id"@
            &&& created matches Ok((_, sql)) ==> sql@ == schema_sql(
                name@,
                column_views(schema@),
                dims as nat,
            )
            &&& created matches Err(error) ==> error.table_name@ == name@
        }
}

proof fn lemma_made_for<T: LibsqlVectorStoreTable>(
    dims: usize,
    metric: LibsqlDistanceMetric,
    created: Result<(LibsqlVectorStore<T>, String), LibsqlMissingIdColumn>,
)
    requires
        exists|table_name: Seq<char>, columns: Seq<ColumnView>|
            #![trigger is_named::<T>(table_name), is_declared::<T>(columns)]
            is_named::<T>(table_name) && is_declared::<T>(columns) && creates::<T>(
                table_name,
                columns,
                dims as nat,
                metric,
                created,
            ),
    ensures
        is_made_for(dims, created),
{
    let (table_name, columns) = choose|table_name: Seq<char>, columns: Seq<ColumnView>|
        #![trigger is_named::<T>(table_name), is_declared::<T>(columns)]
        is_named::<T>(table_name) && is_declared::<T>(columns) && creates::<T>(
            table_name,
            columns,
            dims as nat,
            metric,
            created,
        );
    let name = choose|name: &'static str| #[trigger]
        call_ensures(T::name, (), name) && name@ == table_name;
    let schema = choose|schema: Vec<Column>| #[trigger]
        call_ensures(T::schema, (), schema) && column_views(schema@) == columns;
    assert forall|i: int| 0 <= i < schema@.len() implies columns[i] == (#[trigger] schema@[i])@ by {}
    if has_id_column(columns) {
        let i = choose|i: int| 0 <= i < columns.len() && (#[trigger] columns[i]).name == "id"@;
        assert(schema@[i]@.name == "id"@);
    }
    assert(call_ensures(T::name, (), name) && call_ensures(T::schema, (), schema));
}

} // verus!
