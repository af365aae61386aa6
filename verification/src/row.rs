//! Rows of a search result: the document's id and its columns as a JSON object.

use vstd::prelude::*;
use vstd::string::*;

use crate::column::{column_value_to_json, column_views, reads_column, Column, ColumnView};
use crate::error::{ColumnErrorView, LibsqlColumnValueError, StoreError, StoreErrorView};
use crate::json::{empty_object, insert_entry, json_view, object_entries, JsonView};
use crate::text::{signed_decimal, signed_decimal_text};
use crate::value::{real_text, real_to_text, sql_views, LibsqlValue, SqlView};

verus! {

/// The error for an id that is no text and no number.
pub open spec fn id_error(row_index: int, id_column: ColumnView) -> StoreErrorView {
    StoreErrorView::ColumnValue(
        ColumnErrorView {
            column_name: id_column.name,
            column_type: "TEXT or INTEGER"@,
            message: "id cannot be NULL or BLOB"@,
            index: if row_index < 0 {
                0
            } else {
                row_index as nat
            },
        },
    )
}

/// What a stored id reads as.
pub open spec fn id_text(row_index: int, id_column: ColumnView, value: SqlView) -> Result<
    Seq<char>,
    StoreErrorView,
> {
    match value {
        SqlView::Integer(i) => Ok(signed_decimal(i as int)),
        SqlView::Real(bits) => Ok(real_text(bits)),
        SqlView::Text(text) => Ok(text),
        SqlView::Null => Err(id_error(row_index, id_column)),
        SqlView::Blob(_) => Err(id_error(row_index, id_column)),
    }
}

/// A result with a text, by its view.
pub open spec fn text_result(result: Result<String, StoreError>) -> Result<
    Seq<char>,
    StoreErrorView,
> {
    match result {
        Ok(text) => Ok(text@),
        Err(error) => Err(error@),
    }
}

/// Reads the document id from a value of a result row.
///
/// `row_index` is the position of the id column in the result set; `id_column` is
/// the schema declaration of the id column, used for error reporting.
pub fn id_to_string(row_index: i32, id_column: &Column, value: &LibsqlValue) -> (id: Result<
    String,
    StoreError,
>)
    ensures
        text_result(id) == id_text(row_index as int, id_column@, value@),
{
    match value {
        LibsqlValue::Integer(i) => Ok(signed_decimal_text(*i)),
        LibsqlValue::Real(bits) => Ok(real_to_text(*bits)),
        LibsqlValue::Text(text) => Ok(text.clone()),
        LibsqlValue::Null | LibsqlValue::Blob(_) => {
            let index: usize = if row_index < 0 {
                0
            } else {
                row_index as usize
            };
            Err(
                StoreError::ColumnValue(
                    LibsqlColumnValueError {
                        column_name: id_column.name(),
                        column_type: "TEXT or INTEGER",
                        message: "id cannot be NULL or BLOB".to_owned(),
                        index,
                    },
                ),
            )
        },
    }
}

/// Whether the value at position `at` can be read according to its column.
pub open spec fn readable(columns: Seq<ColumnView>, values: Seq<SqlView>, at: int) -> bool {
    exists|view: JsonView|
        #[trigger] reads_column(
            at as nat,
            columns[at],
            values[at],
            Ok::<JsonView, StoreErrorView>(view),
        )
}

/// Whether no column after position `at` has the name of the column there.
pub open spec fn is_last_of_name(columns: Seq<ColumnView>, at: int) -> bool {
    forall|k: int| at < k < columns.len() ==> (#[trigger] columns[k]).name != columns[at].name
}

/// Whether the entries of an object are what the columns of a row are read as: one entry
/// for each column name, and, of columns that share a name, the last one's value.
pub open spec fn holds_columns(
    columns: Seq<ColumnView>,
    values: Seq<SqlView>,
    entries: Map<Seq<char>, serde_json::Value>,
) -> bool {
    &&& forall|at: int| 0 <= at < columns.len() ==> #[trigger] readable(columns, values, at)
    &&& forall|at: int|
        0 <= at < columns.len() ==> entries.contains_key((#[trigger] columns[at]).name)
    &&& forall|key: Seq<char>| #[trigger]
        entries.contains_key(key) ==> exists|at: int|
            0 <= at < columns.len() && (#[trigger] columns[at]).name == key
    &&& forall|at: int|
        0 <= at < columns.len() && #[trigger] is_last_of_name(columns, at) ==> reads_column(
            at as nat,
            columns[at],
            values[at],
            Ok::<JsonView, StoreErrorView>(json_view(entries[columns[at].name])),
        )
}

/// Whether the row cannot be read because of the value at position `at`, the first
/// one that cannot.
pub open spec fn fails_at(
    columns: Seq<ColumnView>,
    values: Seq<SqlView>,
    error: StoreErrorView,
    at: int,
) -> bool {
    &&& 0 <= at < columns.len()
    &&& forall|k: int| 0 <= k < at ==> #[trigger] readable(columns, values, k)
    &&& reads_column(at as nat, columns[at], values[at], Err::<JsonView, StoreErrorView>(error))
}

proof fn lemma_next_column(
    columns: Seq<ColumnView>,
    values: Seq<SqlView>,
    entries: Map<Seq<char>, serde_json::Value>,
    at: int,
    value: serde_json::Value,
)
    requires
        0 <= at < columns.len(),
        holds_columns(columns.take(at), values, entries),
        reads_column(
            at as nat,
            columns[at],
            values[at],
            Ok::<JsonView, StoreErrorView>(json_view(value)),
        ),
    ensures
        holds_columns(columns.take(at + 1), values, entries.insert(columns[at].name, value)),
{
    let before = columns.take(at);
    let after = columns.take(at + 1);
    let inserted = entries.insert(columns[at].name, value);
    assert forall|k: int| 0 <= k < after.len() implies #[trigger] readable(after, values, k) by {
        if k < at {
            assert(readable(before, values, k));
            assert(before[k] == after[k]);
        } else {
            assert(after[k] == columns[at]);
        }
    }
    assert forall|k: int| 0 <= k < after.len() implies inserted.contains_key(
        (#[trigger] after[k]).name,
    ) by {
        if k < at {
            assert(before[k] == after[k]);
        }
    }
    assert forall|key: Seq<char>| #[trigger] inserted.contains_key(key) implies exists|k: int|
        0 <= k < after.len() && (#[trigger] after[k]).name == key by {
        if key == columns[at].name {
            assert(after[at].name == key);
        } else {
            assert(entries.contains_key(key));
            let k = choose|k: int| 0 <= k < before.len() && (#[trigger] before[k]).name == key;
            assert(after[k].name == key);
        }
    }
    assert forall|k: int|
        0 <= k < after.len() && #[trigger] is_last_of_name(after, k) implies reads_column(
        k as nat,
        after[k],
        values[k],
        Ok::<JsonView, StoreErrorView>(json_view(inserted[after[k].name])),
    ) by {
        if k < at {
            assert(before[k] == after[k]);
            assert(after[at].name != after[k].name);
            assert(is_last_of_name(before, k)) by {
                assert forall|j: int| k < j < before.len() implies (#[trigger] before[j]).name
                    != before[k].name by {
                    assert(after[j] == before[j]);
                }
            }
        } else {
            assert(after[k] == columns[at]);
        }
    }
}

/// The columns of a result row as a JSON object.
pub fn row_document(columns: &Vec<Column>, values: &Vec<LibsqlValue>) -> (document: Result<
    serde_json::Map<String, serde_json::Value>,
    StoreError,
>)
    requires
        columns.len() <= values.len(),
    ensures
        match document {
            Ok(object) => holds_columns(
                column_views(columns@),
                sql_views(values@),
                object_entries(object),
            ),
            Err(error) => exists|at: int|
                fails_at(column_views(columns@), sql_views(values@), error@, at),
        },
{
    let ghost schema = column_views(columns@);
    let ghost stored = sql_views(values@);
    let mut object = empty_object();
    let mut i: usize = 0;
    while i < columns.len()
        invariant
            i <= columns.len(),
            columns.len() <= values.len(),
            schema == column_views(columns@),
            stored == sql_views(values@),
            holds_columns(schema.take(i as int), stored, object_entries(object)),
        decreases columns.len() - i,
    {
        match column_value_to_json(i, &columns[i], values[i].clone()) {
            Ok(layer) => {
                let ghost entries = object_entries(object);
                let value = layer.into_serde();
                insert_entry(&mut object, columns[i].name().to_owned(), value);
                proof {
                    assert(schema[i as int] == columns@[i as int]@);
                    assert(stored[i as int] == values@[i as int]@);
                    lemma_next_column(schema, stored, entries, i as int, value);
                }
            },
            Err(error) => {
                proof {
                    assert(schema[i as int] == columns@[i as int]@);
                    assert(stored[i as int] == values@[i as int]@);
                    assert forall|k: int| 0 <= k < i implies #[trigger] readable(
                        schema,
                        stored,
                        k,
                    ) by {
                        assert(readable(schema.take(i as int), stored, k));
                        assert(schema.take(i as int)[k] == schema[k]);
                    }
                    assert(fails_at(schema, stored, error@, i as int));
                }
                return Err(error);
            },
        }
        i += 1;
    }
    assert(schema.take(i as int) =~= schema);
    Ok(object)
}

} // verus!
