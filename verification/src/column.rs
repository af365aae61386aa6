//! Document-table columns, and how a stored column value is read back as JSON.

use vstd::prelude::*;
use vstd::string::*;
use vstd::utf8::{decode_utf8, encode_utf8_decode_utf8, valid_utf8};

use crate::error::{ColumnErrorView, LibsqlColumnValueError, StoreError, StoreErrorView};
use crate::json::{
    bytes_to_value, is_byte_array, is_integer_number, is_real_number,
    json_error_text, json_error_to_text, json_view, number_from_i64, number_from_real,
    parse_json, parsed_json, JsonValue, JsonView,
};
use crate::text::{
    ascii_upper, ascii_upper_char, blank, chars_of, contains_text, has_text, is_blank,
    is_white_space, same_text, text_from_utf8, upper_chars,
    utf8_error, utf8_error_text, utf8_error_to_text, white_space,
};
use crate::value::{is_finite, LibsqlValue, SqlView};

verus! {

/// A document-table column declaration.
#[derive(Debug)]
pub struct Column {
    name: &'static str,
    col_type: &'static str,
}

/// What a [`Column`] stands for.
#[verifier::ext_equal]
pub struct ColumnView {
    pub name: Seq<char>,
    pub col_type: Seq<char>,
}

impl View for Column {
    type V = ColumnView;

    closed spec fn view(&self) -> ColumnView {
        ColumnView { name: self.name@, col_type: self.col_type@ }
    }
}

impl Column {
    pub fn new(name: &'static str, col_type: &'static str) -> (column: Self)
        ensures
            column@.name == name@,
            column@.col_type == col_type@,
    {
        Self { name, col_type }
    }

    pub fn name(&self) -> (name: &'static str)
        ensures
            name@ == self@.name,
    {
        self.name
    }

    pub fn col_type(&self) -> (col_type: &'static str)
        ensures
            col_type@ == self@.col_type,
    {
        self.col_type
    }
}

impl Clone for Column {
    fn clone(&self) -> (copy: Self)
        ensures
            copy@ == self@,
    {
        Column { name: self.name, col_type: self.col_type }
    }
}

/// The views of `columns`, in their order.
pub open spec fn column_views(columns: Seq<Column>) -> Seq<ColumnView> {
    columns.map_values(|c: Column| c@)
}

/// Whether `at` is the position of the first column named `id`.
pub open spec fn is_id_position(columns: Seq<ColumnView>, at: int) -> bool {
    &&& 0 <= at < columns.len()
    &&& columns[at].name == "id"@
    &&& forall|i: int| 0 <= i < at ==> (#[trigger] columns[i]).name != "id"@
}

/// Whether some column is named `id`.
pub open spec fn has_id_column(columns: Seq<ColumnView>) -> bool {
    exists|i: int| 0 <= i < columns.len() && (#[trigger] columns[i]).name == "id"@
}

/// The position of the first column named `id`.
pub fn id_position(columns: &Vec<Column>) -> (position: Option<usize>)
    ensures
        position is Some <==> has_id_column(column_views(columns@)),
        position matches Some(at) ==> is_id_position(column_views(columns@), at as int),
{
    let ghost views = column_views(columns@);
    let mut i: usize = 0;
    while i < columns.len()
        invariant
            i <= columns.len(),
            views == column_views(columns@),
            forall|j: int| 0 <= j < i ==> (#[trigger] views[j]).name != "id"@,
        decreases columns.len() - i,
    {
        if same_text(columns[i].name(), "id") {
            assert(views[i as int].name == "id"@);
            return Some(i);
        }
        i += 1;
    }
    None
}

/// The type affinity of a declared column type.
#[derive(Clone, Copy, Debug, PartialEq, Eq, Structural)]
pub enum ColumnAffinity {
    Text,
    Integer,
    Float,
    Boolean,
    Numeric,
    Blob,
}

/// The affinity that a declared type gives a column: the first of these whose
/// words the type holds, in any mix of upper and lower case.
pub open spec fn affinity(column_type: Seq<char>) -> ColumnAffinity {
    let upper = ascii_upper(column_type);
    if contains_text(upper, "INT"@) {
        ColumnAffinity::Integer
    } else if contains_text(upper, "CHAR"@) || contains_text(upper, "CLOB"@) || contains_text(
        upper,
        "TEXT"@,
    ) {
        ColumnAffinity::Text
    } else if contains_text(upper, "BLOB"@) || is_blank(column_type) {
        ColumnAffinity::Blob
    } else if contains_text(upper, "REAL"@) || contains_text(upper, "FLOA"@) || contains_text(
        upper,
        "DOUB"@,
    ) {
        ColumnAffinity::Float
    } else if contains_text(upper, "BOOL"@) {
        ColumnAffinity::Boolean
    } else {
        ColumnAffinity::Numeric
    }
}

proof fn lemma_upper_keeps_blank(text: Seq<char>)
    ensures
        is_blank(ascii_upper(text)) == is_blank(text),
{
    assert forall|c: char| is_white_space(#[trigger] ascii_upper_char(c)) == is_white_space(c) by {}
    assert forall|i: int| 0 <= i < text.len() implies is_white_space(
        #[trigger] ascii_upper(text)[i],
    ) == is_white_space(text[i]) by {}
    if is_blank(ascii_upper(text)) {
        assert forall|i: int| 0 <= i < text.len() implies is_white_space(#[trigger] text[i]) by {
            assert(is_white_space(ascii_upper(text)[i]));
        }
    }
}

impl ColumnAffinity {
    pub fn from_column_type(column_type: &str) -> (found: Self)
        ensures
            found == affinity(column_type@),
    {
        let upper = upper_chars(column_type);
        proof {
            lemma_upper_keeps_blank(column_type@);
        }
        if has_text(&upper, "INT") {
            Self::Integer
        } else if has_text(&upper, "CHAR") || has_text(&upper, "CLOB") || has_text(&upper, "TEXT") {
            Self::Text
        } else if has_text(&upper, "BLOB") || blank(&upper) {
            Self::Blob
        } else if has_text(&upper, "REAL") || has_text(&upper, "FLOA") || has_text(&upper, "DOUB") {
            Self::Float
        } else if has_text(&upper, "BOOL") {
            Self::Boolean
        } else {
            Self::Numeric
        }
    }
}

/// Whether the word at position `at` is the first word of the declared type and
/// reads `JSON`, in any mix of upper and lower case.
pub open spec fn json_word_at(column_type: Seq<char>, at: int) -> bool {
    &&& 0 <= at
    &&& at + 4 <= column_type.len()
    &&& is_blank(column_type.take(at))
    &&& ascii_upper(column_type.subrange(at, at + 4)) == "JSON"@
    &&& at + 4 < column_type.len() ==> is_white_space(column_type[at + 4])
}

/// Whether the first word of the declared type is `JSON`.
pub open spec fn declares_json(column_type: Seq<char>) -> bool {
    exists|at: int| json_word_at(column_type, at)
}

/// Whether a column of the declared type holds JSON text.
pub fn column_declares_json(column_type: &str) -> (declares: bool)
    ensures
        declares == declares_json(column_type@),
{
    let ghost text = column_type@;
    let chars = chars_of(column_type);
    let upper = upper_chars(column_type);
    proof {
        reveal_strlit("JSON");
    }
    let mut at: usize = 0;
    while at < chars.len() && white_space(chars[at])
        invariant
            at <= chars.len(),
            chars@ == text,
            forall|i: int| 0 <= i < at ==> is_white_space(#[trigger] text[i]),
        decreases chars.len() - at,
    {
        at += 1;
    }
    assert(is_blank(text.take(at as int)));
    proof {
        // No other position qualifies: before `at` stands white space, after it
        // what precedes is not all white space.
        assert forall|k: int| json_word_at(text, k) implies k == at by {
            assert(ascii_upper(text.subrange(k, k + 4))[0] == 'J');
            if k < at {
                assert(is_white_space(text[k]));
                assert(text.subrange(k, k + 4)[0] == text[k]);
            } else if k > at {
                assert(!is_white_space(text[at as int]));
                assert(text.take(k)[at as int] == text[at as int]);
            }
        }
    }
    if chars.len() - at < 4 {
        return false;
    }
    let spelled = upper[at] == 'J' && upper[at + 1] == 'S' && upper[at + 2] == 'O' && upper[at + 3]
        == 'N';
    let ended = chars.len() - at == 4 || white_space(chars[at + 4]);
    proof {
        let word = ascii_upper(text.subrange(at as int, at + 4));
        assert(forall|i: int| 0 <= i < 4 ==> word[i] == upper@[at + i]);
        if spelled {
            assert(word =~= "JSON"@);
        } else {
            if word == "JSON"@ {
                assert(word[0] == 'J' && word[1] == 'S' && word[2] == 'O' && word[3] == 'N');
            }
        }
        assert(json_word_at(text, at as int) == (spelled && ended));
    }
    spelled && ended
}

/// What a conversion of a column value gives, by its view.
pub open spec fn json_result(result: Result<JsonValue, StoreError>) -> Result<
    JsonView,
    StoreErrorView,
> {
    match result {
        Ok(value) => Ok(value@),
        Err(error) => Err(error@),
    }
}

/// The error for a value of `column`, at position `index`, that cannot be read.
pub open spec fn column_error(index: nat, column: ColumnView, message: Seq<char>) -> StoreErrorView {
    StoreErrorView::ColumnValue(
        ColumnErrorView {
            column_name: column.name,
            column_type: column.col_type,
            message,
            index,
        },
    )
}

/// Whether `result` is what the JSON text of a column is read as: the value that
/// the text parses to, or the parser's error.
pub open spec fn reads_json_text(
    index: nat,
    column: ColumnView,
    text: Seq<char>,
    result: Result<JsonView, StoreErrorView>,
) -> bool {
    match parsed_json(text) {
        Ok(value) => result == Ok::<JsonView, StoreErrorView>(json_view(value)),
        Err(error) => result == Err::<JsonView, StoreErrorView>(
            column_error(index, column, "invalid JSON text: "@ + json_error_text(error)),
        ),
    }
}

/// Whether `result` is what a stored double is read as: its JSON number, or an
/// error where it is not finite.
pub open spec fn reads_real(
    index: nat,
    column: ColumnView,
    bits: u64,
    result: Result<JsonView, StoreErrorView>,
) -> bool {
    if is_finite(bits) {
        result matches Ok(JsonView::Number(number)) && is_real_number(number, bits)
    } else {
        result == Err::<JsonView, StoreErrorView>(
            column_error(index, column, "non-finite float value"@),
        )
    }
}

/// Whether `result` is what the stored value of a column that holds JSON is read
/// as. Text and UTF-8 bytes are parsed; a number stands for itself.
pub open spec fn reads_json_column(
    index: nat,
    column: ColumnView,
    value: SqlView,
    result: Result<JsonView, StoreErrorView>,
) -> bool {
    match value {
        SqlView::Null => result == Ok::<JsonView, StoreErrorView>(JsonView::Null),
        SqlView::Text(text) => reads_json_text(index, column, text, result),
        SqlView::Blob(bytes) => if valid_utf8(bytes) {
            reads_json_text(index, column, decode_utf8(bytes), result)
        } else {
            result == Err::<JsonView, StoreErrorView>(
                column_error(
                    index,
                    column,
                    "invalid UTF-8 JSON text: "@ + utf8_error_text(utf8_error(bytes)),
                ),
            )
        },
        SqlView::Integer(i) => result matches Ok(JsonView::Number(number)) && is_integer_number(
            number,
            i as int,
        ),
        SqlView::Real(bits) => reads_real(index, column, bits, result),
    }
}

/// Whether `result` is what the stored value of a column that holds no JSON is
/// read as. A boolean column holds 0 or 1; any other value stands for itself.
pub open spec fn reads_plain_column(
    index: nat,
    column: ColumnView,
    value: SqlView,
    result: Result<JsonView, StoreErrorView>,
) -> bool {
    match (affinity(column.col_type), value) {
        (_, SqlView::Null) => result == Ok::<JsonView, StoreErrorView>(JsonView::Null),
        (ColumnAffinity::Boolean, SqlView::Integer(0)) => result == Ok::<JsonView, StoreErrorView>(
            JsonView::Bool(false),
        ),
        (ColumnAffinity::Boolean, SqlView::Integer(1)) => result == Ok::<JsonView, StoreErrorView>(
            JsonView::Bool(true),
        ),
        (ColumnAffinity::Boolean, _) => result == Err::<JsonView, StoreErrorView>(
            column_error(index, column, "stored libSQL boolean value must be 0 or 1"@),
        ),
        (_, SqlView::Text(text)) => result == Ok::<JsonView, StoreErrorView>(
            JsonView::String(text),
        ),
        (_, SqlView::Integer(i)) => result matches Ok(JsonView::Number(number))
            && is_integer_number(number, i as int),
        (_, SqlView::Real(bits)) => reads_real(index, column, bits, result),
        (_, SqlView::Blob(bytes)) => result matches Ok(view) && is_byte_array(view, bytes),
    }
}

/// Whether `result` is what a stored value of the column is read as.
pub open spec fn reads_column(
    index: nat,
    column: ColumnView,
    value: SqlView,
    result: Result<JsonView, StoreErrorView>,
) -> bool {
    if declares_json(column.col_type) {
        reads_json_column(index, column, value, result)
    } else {
        reads_plain_column(index, column, value, result)
    }
}

/// An error for a value of `column`, at position `index`.
fn value_error(index: usize, column: &Column, message: String) -> (error: StoreError)
    ensures
        error@ == column_error(index as nat, column@, message@),
{
    StoreError::ColumnValue(
        LibsqlColumnValueError {
            column_name: column.name(),
            column_type: column.col_type(),
            message,
            index,
        },
    )
}

/// Decodes a stored libSQL value into JSON according to the declared column type.
pub fn column_value_to_json(index: usize, column: &Column, value: LibsqlValue) -> (result: Result<
    JsonValue,
    StoreError,
>)
    ensures
        reads_column(index as nat, column@, value@, json_result(result)),
{
    if column_declares_json(column.col_type()) {
        return match value {
            LibsqlValue::Null => Ok(JsonValue::Null),
            LibsqlValue::Text(text) => decode_json_text(index, column, text.as_str()),
            LibsqlValue::Blob(bytes) => match text_from_utf8(&bytes) {
                Ok(text) => {
                    proof {
                        encode_utf8_decode_utf8(text@);
                    }
                    decode_json_text(index, column, text)
                },
                Err(error) => {
                    let mut message = "invalid UTF-8 JSON text: ".to_owned();
                    message.append(utf8_error_to_text(&error).as_str());
                    Err(value_error(index, column, message))
                },
            },
            LibsqlValue::Integer(i) => Ok(JsonValue::Number(number_from_i64(i))),
            LibsqlValue::Real(bits) => number_value(index, column, bits),
        };
    }
    let found = ColumnAffinity::from_column_type(column.col_type());
    match (found, value) {
        (_, LibsqlValue::Null) => Ok(JsonValue::Null),
        (ColumnAffinity::Boolean, LibsqlValue::Integer(0)) => Ok(JsonValue::Bool(false)),
        (ColumnAffinity::Boolean, LibsqlValue::Integer(1)) => Ok(JsonValue::Bool(true)),
        (ColumnAffinity::Boolean, _) => Err(
            value_error(
                index,
                column,
                "stored libSQL boolean value must be 0 or 1".to_owned(),
            ),
        ),
        (_, LibsqlValue::Text(text)) => Ok(JsonValue::String(text)),
        (_, LibsqlValue::Integer(i)) => Ok(JsonValue::Number(number_from_i64(i))),
        (_, LibsqlValue::Real(bits)) => number_value(index, column, bits),
        (_, LibsqlValue::Blob(bytes)) => match bytes_to_value(bytes) {
            Ok(array) => Ok(JsonValue::from_serde(array)),
            Err(error) => Err(StoreError::Json(error)),
        },
    }
}

/// The JSON number of a stored double.
pub fn number_value(index: usize, column: &Column, bits: u64) -> (result: Result<
    JsonValue,
    StoreError,
>)
    ensures
        reads_real(index as nat, column@, bits, json_result(result)),
{
    match number_from_real(bits) {
        Some(number) => Ok(JsonValue::Number(number)),
        None => Err(value_error(index, column, "non-finite float value".to_owned())),
    }
}

/// The JSON value that a column's text parses to.
pub fn decode_json_text(index: usize, column: &Column, text: &str) -> (result: Result<
    JsonValue,
    StoreError,
>)
    ensures
        reads_json_text(index as nat, column@, text@, json_result(result)),
{
    let outcome = match parse_json(text) {
        Ok(value) => Ok(JsonValue::from_serde(value)),
        Err(error) => Err(json_error_to_text(&error)),
    };
    json_text_value(index, column, outcome)
}

/// The JSON value of a column whose text a parser has gone through: the value that
/// it found, or an error with what it complained of.
pub fn json_text_value(
    index: usize,
    column: &Column,
    outcome: Result<JsonValue, String>,
) -> (result: Result<JsonValue, StoreError>)
    ensures
        match outcome {
            Ok(value) => result == Ok::<JsonValue, StoreError>(value),
            Err(complaint) => json_result(result) == Err::<JsonView, StoreErrorView>(
                column_error(index as nat, column@, "invalid JSON text: "@ + complaint@),
            ),
        },
{
    match outcome {
        Ok(value) => Ok(value),
        Err(complaint) => {
            let mut message = "invalid JSON text: ".to_owned();
            message.append(complaint.as_str());
            Err(value_error(index, column, message))
        },
    }
}

} // verus!
