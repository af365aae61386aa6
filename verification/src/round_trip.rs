//! What a search delivers of the values that were stored.

use vstd::prelude::*;

use crate::column::{affinity, declares_json, ColumnAffinity, ColumnView};
use crate::column_value::{
    law_bool_reads_back, law_double_reads_back, law_integer_reads_back, law_json_reads_back,
    law_text_reads_back, stored_bool, stores_json, ColumnValue, Double,
};
use crate::error::StoreErrorView;
use crate::insert::{
    add_rows_step, awaits, in_progress, ActionView, AddRowsView, DocumentRow, StatementView,
    StoreEvent,
};
use crate::insert_laws::law_storing_binds_every_value;
use crate::json::{
    is_integer_number, is_real_number, json_text, json_view, survives, JsonView, MAX_JSON_DEPTH,
};
use crate::row::{holds_columns, is_last_of_name};
use crate::table::stores;
use crate::value::{is_finite, SqlView};

verus! {

/// Whether `view` is what a column of this declaration gives back of a stored value: text,
/// numbers and booleans as they were, and JSON as the value that was written.
pub open spec fn gives_back(column: ColumnView, stored: SqlView, view: JsonView) -> bool {
    let json = declares_json(column.col_type);
    let boolean = !json && affinity(column.col_type) == ColumnAffinity::Boolean;
    &&& stored matches SqlView::Text(text) ==> !json && !boolean ==> view == JsonView::String(text)
    &&& stored matches SqlView::Integer(i) ==> !boolean ==> (view matches JsonView::Number(number)
        && is_integer_number(number, i as int))
    &&& stored matches SqlView::Real(bits) ==> is_finite(bits) && !boolean ==> (
    view matches JsonView::Number(number) && is_real_number(number, bits))
    &&& stored is Null ==> view is Null
    &&& boolean ==> forall|value: bool|
        stored == #[trigger] stored_bool(value) ==> view == JsonView::Bool(value)
    &&& json ==> forall|value: serde_json::Value|
        #![trigger stores_json(value, stored)]
        stores_json(value, stored) && survives(value, MAX_JSON_DEPTH as nat) ==> view == json_view(
            value,
        )
}

/// A document that a search delivers gives back, under the name of each of its columns, what
/// was stored in that column. The values are those of the row that the database returned.
pub proof fn law_document_gives_back_its_columns(
    columns: Seq<ColumnView>,
    values: Seq<SqlView>,
    entries: Map<Seq<char>, serde_json::Value>,
    at: int,
)
    requires
        holds_columns(columns, values, entries),
        0 <= at < columns.len(),
        forall|k: int| at < k < columns.len() ==> (#[trigger] columns[k]).name != columns[at].name,
    ensures
        entries.contains_key(columns[at].name),
        gives_back(columns[at], values[at], json_view(entries[columns[at].name])),
{
    assert(is_last_of_name(columns, at));
    let column = columns[at];
    let stored = values[at];
    let view = json_view(entries[column.name]);
    let result = Ok::<JsonView, StoreErrorView>(view);
    let json = declares_json(column.col_type);
    let boolean = !json && affinity(column.col_type) == ColumnAffinity::Boolean;
    if let SqlView::Text(text) = stored {
        if !json && !boolean {
            law_text_reads_back(text, at as nat, column, result);
        }
    }
    if let SqlView::Integer(i) = stored {
        if !boolean {
            law_integer_reads_back(i, at as nat, column, result);
        }
    }
    if let SqlView::Real(bits) = stored {
        if is_finite(bits) && !boolean {
            law_double_reads_back(Double { bits }, at as nat, column, result);
        }
    }
    if boolean {
        assert forall|value: bool| stored == #[trigger] stored_bool(value) implies view
            == JsonView::Bool(value) by {
            law_bool_reads_back(value, at as nat, column, result);
        }
    }
    if json {
        assert forall|value: serde_json::Value|
            #![trigger stores_json(value, stored)]
            stores_json(value, stored) && survives(value, MAX_JSON_DEPTH as nat) implies view
            == json_view(value) by {
            law_json_reads_back(value, stored, at as nat, column, result);
        }
    }
}

/// Values of the built-in types are stored whole: text by its characters, numbers as they are,
/// booleans as 0 and 1, and JSON by its text.
pub proof fn law_values_are_stored_whole(
    text: String,
    long: i64,
    short: i32,
    double: Double,
    flag: bool,
    json: serde_json::Value,
    stored: SqlView,
)
    ensures
        text.stored_as(stored) <==> stored == SqlView::Text(text@),
        long.stored_as(stored) <==> stored == SqlView::Integer(long),
        short.stored_as(stored) <==> stored == SqlView::Integer(short as i64),
        double.stored_as(stored) <==> stored == SqlView::Real(double.bits),
        flag.stored_as(stored) <==> stored == SqlView::Integer(
            if flag {
                1
            } else {
                0
            },
        ),
        json.stored_as(stored) ==> stored == SqlView::Text(json_text(json)),
{
}

/// What is inserted is what a search delivers: the value of a document's column goes into the
/// statement that stores the document as it was converted, and a search that gets it back from
/// the database under that column delivers it as it was. `i` is the position of the value among
/// those of the document, `at` that of its column in the schema.
pub proof fn law_inserted_values_are_delivered(
    values: Seq<(&'static str, Box<dyn ColumnValue>)>,
    row: DocumentRow,
    state: AddRowsView,
    event: StoreEvent,
    statement: StatementView,
    i: int,
    columns: Seq<ColumnView>,
    found: Seq<SqlView>,
    entries: Map<Seq<char>, serde_json::Value>,
    at: int,
)
    requires
        stores(values, row.values@),
        in_progress(state),
        awaits(state.phase, event),
        state.documents[state.document as int] == row@,
        add_rows_step(state, event).1 == ActionView::InsertDocument(statement),
        0 <= i < values.len(),
        0 <= at < columns.len(),
        columns[at].name == values[i].0@,
        forall|k: int| at < k < columns.len() ==> (#[trigger] columns[k]).name != columns[at].name,
        found[at] == statement.params[i],
        holds_columns(columns, found, entries),
    ensures
        values[i].1.stored_as(found[at]),
        entries.contains_key(values[i].0@),
        gives_back(columns[at], found[at], json_view(entries[values[i].0@])),
{
    law_storing_binds_every_value(state, event);
    law_document_gives_back_its_columns(columns, found, entries, at);
    assert(row@.values[i].1 == row.values@[i].1@);
}

} // verus!
