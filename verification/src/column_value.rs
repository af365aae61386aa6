//! Values that can be stored in document columns, and what is read back of them.

use vstd::prelude::*;
use vstd::string::*;

use crate::column::{
    affinity, declares_json, json_word_at, reads_column, ColumnAffinity, ColumnView,
};
use crate::error::StoreErrorView;
use crate::json::{
    is_integer_number, is_real_number, json_text, json_to_text, json_view, reads_back, survives,
    JsonView, MAX_JSON_DEPTH,
};
use crate::text::{ascii_upper, ascii_upper_char, contains_text, is_white_space, occurs_at};
use crate::value::{is_finite, LibsqlValue, SqlView};

verus! {

/// Value that can be stored in a libSQL vector store document column.
///
/// Use `serde_json::Value` for columns declared as `JSON`.
pub trait ColumnValue: Send + Sync {
    /// Whether the value may be stored as `stored`. A type that says nothing of it may be
    /// stored as anything.
    open spec fn stored_as(&self, stored: SqlView) -> bool {
        true
    }

    /// Converts this value to a typed libSQL value.
    fn to_libsql_value(&self) -> (stored: LibsqlValue)
        ensures
            self.stored_as(stored@),
    ;

    /// Returns the SQL type name for this value.
    fn column_type(&self) -> &'static str;
}

impl ColumnValue for String {
    open spec fn stored_as(&self, stored: SqlView) -> bool {
        stored == SqlView::Text(self@)
    }

    fn to_libsql_value(&self) -> (stored: LibsqlValue) {
        LibsqlValue::Text(self.clone())
    }

    fn column_type(&self) -> (name: &'static str)
        ensures
            name@ == "TEXT"@,
    {
        "TEXT"
    }
}

impl ColumnValue for i64 {
    open spec fn stored_as(&self, stored: SqlView) -> bool {
        stored == SqlView::Integer(*self)
    }

    fn to_libsql_value(&self) -> (stored: LibsqlValue) {
        LibsqlValue::Integer(*self)
    }

    fn column_type(&self) -> (name: &'static str)
        ensures
            name@ == "INTEGER"@,
    {
        "INTEGER"
    }
}

impl ColumnValue for i32 {
    open spec fn stored_as(&self, stored: SqlView) -> bool {
        stored == SqlView::Integer(*self as i64)
    }

    fn to_libsql_value(&self) -> (stored: LibsqlValue) {
        LibsqlValue::Integer(*self as i64)
    }

    fn column_type(&self) -> (name: &'static str)
        ensures
            name@ == "INTEGER"@,
    {
        "INTEGER"
    }
}

/// A double, held by its bit pattern.
#[derive(Clone, Copy, Debug, PartialEq, Eq, Structural)]
pub struct Double {
    pub bits: u64,
}

impl ColumnValue for Double {
    open spec fn stored_as(&self, stored: SqlView) -> bool {
        stored == SqlView::Real(self.bits)
    }

    fn to_libsql_value(&self) -> (stored: LibsqlValue) {
        LibsqlValue::Real(self.bits)
    }

    fn column_type(&self) -> (name: &'static str)
        ensures
            name@ == "FLOAT"@,
    {
        "FLOAT"
    }
}

/// How a boolean is stored.
pub open spec fn stored_bool(value: bool) -> SqlView {
    SqlView::Integer(
        if value {
            1
        } else {
            0
        },
    )
}

impl ColumnValue for bool {
    open spec fn stored_as(&self, stored: SqlView) -> bool {
        stored == stored_bool(*self)
    }

    fn to_libsql_value(&self) -> (stored: LibsqlValue) {
        LibsqlValue::Integer(
            if *self {
                1
            } else {
                0
            },
        )
    }

    fn column_type(&self) -> (name: &'static str)
        ensures
            name@ == "BOOLEAN"@,
    {
        "BOOLEAN"
    }
}

/// Whether a JSON value is stored as `stored`: as its text, from which it is read back
/// where it survives being written.
pub open spec fn stores_json(value: serde_json::Value, stored: SqlView) -> bool {
    &&& stored == SqlView::Text(json_text(value))
    &&& survives(value, MAX_JSON_DEPTH as nat) ==> reads_back(json_text(value), value)
}

impl ColumnValue for serde_json::Value {
    open spec fn stored_as(&self, stored: SqlView) -> bool {
        stores_json(*self, stored)
    }

    fn to_libsql_value(&self) -> (stored: LibsqlValue) {
        LibsqlValue::Text(json_to_text(self))
    }

    fn column_type(&self) -> (name: &'static str)
        ensures
            name@ == "JSON"@,
    {
        "JSON"
    }
}

/// Where a pattern stands in a text, its characters do.
proof fn lemma_occurs(text: Seq<char>, pattern: Seq<char>, at: int)
    requires
        occurs_at(text, pattern, at),
    ensures
        forall|j: int| 0 <= j < pattern.len() ==> text[at + j] == #[trigger] pattern[j],
{
    assert forall|j: int| 0 <= j < pattern.len() implies text[at + j] == #[trigger] pattern[j] by {
        assert(text.subrange(at, at + pattern.len())[j] == text[at + j]);
    }
}

/// A pattern whose first character is missing from the text is missing too.
proof fn lemma_lacks(text: Seq<char>, pattern: Seq<char>)
    requires
        pattern.len() > 0,
        !text.contains(pattern[0]),
    ensures
        !contains_text(text, pattern),
{
    if contains_text(text, pattern) {
        let at = choose|at: int| occurs_at(text, pattern, at);
        lemma_occurs(text, pattern, at);
        assert(text[at + 0] == pattern[0]);
    }
}

/// A type that starts with another letter than `J` holds no JSON.
proof fn lemma_not_json(column_type: Seq<char>)
    requires
        column_type.len() > 0,
        !is_white_space(column_type[0]),
        ascii_upper_char(column_type[0]) != 'J',
    ensures
        !declares_json(column_type),
{
    reveal_strlit("JSON");
    if declares_json(column_type) {
        let at = choose|at: int| json_word_at(column_type, at);
        if at > 0 {
            assert(column_type.take(at)[0] == column_type[0]);
        } else {
            assert(ascii_upper(column_type.subrange(0, 4))[0] == ascii_upper_char(column_type[0]));
        }
    }
}

proof fn lemma_text_type()
    ensures
        affinity("TEXT"@) == ColumnAffinity::Text,
        !declares_json("TEXT"@),
{
    reveal_strlit("TEXT");
    reveal_strlit("INT");
    assert(ascii_upper("TEXT"@) =~= "TEXT"@);
    assert(occurs_at("TEXT"@, "TEXT"@, 0)) by {
        assert("TEXT"@.subrange(0, 4) =~= "TEXT"@);
    }
    lemma_lacks("TEXT"@, "INT"@);
    lemma_not_json("TEXT"@);
}

proof fn lemma_integer_type()
    ensures
        affinity("INTEGER"@) == ColumnAffinity::Integer,
        !declares_json("INTEGER"@),
{
    reveal_strlit("INTEGER");
    reveal_strlit("INT");
    assert(ascii_upper("INTEGER"@) =~= "INTEGER"@);
    assert(occurs_at("INTEGER"@, "INT"@, 0)) by {
        assert("INTEGER"@.subrange(0, 3) =~= "INT"@);
    }
    lemma_not_json("INTEGER"@);
}

proof fn lemma_float_type()
    ensures
        affinity("FLOAT"@) == ColumnAffinity::Float,
        !declares_json("FLOAT"@),
{
    reveal_strlit("FLOAT");
    reveal_strlit("TEXT");
    reveal_strlit("INT");
    reveal_strlit("CHAR");
    reveal_strlit("CLOB");
    reveal_strlit("BLOB");
    reveal_strlit("FLOA");
    assert(ascii_upper("FLOAT"@) =~= "FLOAT"@);
    assert(occurs_at("FLOAT"@, "FLOA"@, 0)) by {
        assert("FLOAT"@.subrange(0, 4) =~= "FLOA"@);
    }
    lemma_lacks("FLOAT"@, "INT"@);
    lemma_lacks("FLOAT"@, "CHAR"@);
    lemma_lacks("FLOAT"@, "CLOB"@);
    lemma_lacks("FLOAT"@, "BLOB"@);
    if contains_text("FLOAT"@, "TEXT"@) {
        let at = choose|at: int| occurs_at("FLOAT"@, "TEXT"@, at);
        lemma_occurs("FLOAT"@, "TEXT"@, at);
        assert("FLOAT"@[at + 0] == "TEXT"@[0]);
        assert(at == 0 || at == 1);
    }
    assert(!is_white_space("FLOAT"@[0]));
    lemma_not_json("FLOAT"@);
}

proof fn lemma_boolean_type()
    ensures
        affinity("BOOLEAN"@) == ColumnAffinity::Boolean,
        !declares_json("BOOLEAN"@),
{
    reveal_strlit("BOOLEAN");
    reveal_strlit("TEXT");
    reveal_strlit("INT");
    reveal_strlit("CHAR");
    reveal_strlit("CLOB");
    reveal_strlit("BLOB");
    reveal_strlit("REAL");
    reveal_strlit("FLOA");
    reveal_strlit("DOUB");
    reveal_strlit("BOOL");
    assert(ascii_upper("BOOLEAN"@) =~= "BOOLEAN"@);
    assert(occurs_at("BOOLEAN"@, "BOOL"@, 0)) by {
        assert("BOOLEAN"@.subrange(0, 4) =~= "BOOL"@);
    }
    lemma_lacks("BOOLEAN"@, "INT"@);
    lemma_lacks("BOOLEAN"@, "CHAR"@);
    lemma_lacks("BOOLEAN"@, "CLOB"@);
    lemma_lacks("BOOLEAN"@, "TEXT"@);
    lemma_lacks("BOOLEAN"@, "REAL"@);
    lemma_lacks("BOOLEAN"@, "FLOA"@);
    lemma_lacks("BOOLEAN"@, "DOUB"@);
    if contains_text("BOOLEAN"@, "BLOB"@) {
        let at = choose|at: int| occurs_at("BOOLEAN"@, "BLOB"@, at);
        lemma_occurs("BOOLEAN"@, "BLOB"@, at);
        assert("BOOLEAN"@[at + 0] == "BLOB"@[0]);
        assert("BOOLEAN"@[at + 1] == "BLOB"@[1]);
        assert(at == 0 || at == 1 || at == 2 || at == 3);
    }
    assert(!is_white_space("BOOLEAN"@[0]));
    lemma_not_json("BOOLEAN"@);
}

/// A column declared with the type that a value names for itself has the affinity of
/// that value, and holds JSON just where the value is JSON.
pub proof fn law_types_name_their_columns()
    ensures
        affinity("TEXT"@) == ColumnAffinity::Text,
        affinity("INTEGER"@) == ColumnAffinity::Integer,
        affinity("FLOAT"@) == ColumnAffinity::Float,
        affinity("BOOLEAN"@) == ColumnAffinity::Boolean,
        !declares_json("TEXT"@),
        !declares_json("INTEGER"@),
        !declares_json("FLOAT"@),
        !declares_json("BOOLEAN"@),
        declares_json("JSON"@),
{
    lemma_text_type();
    lemma_integer_type();
    lemma_float_type();
    lemma_boolean_type();
    reveal_strlit("JSON");
    assert(json_word_at("JSON"@, 0)) by {
        assert("JSON"@.subrange(0, 4) =~= "JSON"@);
        assert(ascii_upper("JSON"@) =~= "JSON"@);
    }
}

/// Text in a column that neither holds JSON nor booleans is read back as it was, also
/// where it looks like JSON.
pub proof fn law_text_reads_back(
    value: Seq<char>,
    index: nat,
    column: ColumnView,
    result: Result<JsonView, StoreErrorView>,
)
    requires
        !declares_json(column.col_type),
        affinity(column.col_type) != ColumnAffinity::Boolean,
        reads_column(index, column, SqlView::Text(value), result),
    ensures
        result == Ok::<JsonView, StoreErrorView>(JsonView::String(value)),
{
}

/// An integer in a column that does not hold booleans is read back as it was.
pub proof fn law_integer_reads_back(
    value: i64,
    index: nat,
    column: ColumnView,
    result: Result<JsonView, StoreErrorView>,
)
    requires
        declares_json(column.col_type) || affinity(column.col_type) != ColumnAffinity::Boolean,
        reads_column(index, column, SqlView::Integer(value), result),
    ensures
        result matches Ok(JsonView::Number(number)) && is_integer_number(number, value as int),
{
}

/// A finite double in a column that does not hold booleans is read back as it was.
pub proof fn law_double_reads_back(
    value: Double,
    index: nat,
    column: ColumnView,
    result: Result<JsonView, StoreErrorView>,
)
    requires
        is_finite(value.bits),
        declares_json(column.col_type) || affinity(column.col_type) != ColumnAffinity::Boolean,
        reads_column(index, column, SqlView::Real(value.bits), result),
    ensures
        result matches Ok(JsonView::Number(number)) && is_real_number(number, value.bits),
{
}

/// A boolean in a column that holds booleans is read back as it was.
pub proof fn law_bool_reads_back(
    value: bool,
    index: nat,
    column: ColumnView,
    result: Result<JsonView, StoreErrorView>,
)
    requires
        !declares_json(column.col_type),
        affinity(column.col_type) == ColumnAffinity::Boolean,
        reads_column(index, column, stored_bool(value), result),
    ensures
        result == Ok::<JsonView, StoreErrorView>(JsonView::Bool(value)),
{
}

/// A JSON value in a column that holds JSON is read back as it was, where it nests no
/// deeper than the parser goes and its numbers survive being written and read.
pub proof fn law_json_reads_back(
    value: serde_json::Value,
    stored: SqlView,
    index: nat,
    column: ColumnView,
    result: Result<JsonView, StoreErrorView>,
)
    requires
        survives(value, MAX_JSON_DEPTH as nat),
        declares_json(column.col_type),
        stores_json(value, stored),
        reads_column(index, column, stored, result),
    ensures
        result == Ok::<JsonView, StoreErrorView>(json_view(value)),
{
}

} // verus!
