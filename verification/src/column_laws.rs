//! What declared column types mean, whatever stands around their words.

use vstd::prelude::*;
use vstd::string::*;
use vstd::utf8::{
    decode_utf8, encode_utf8, encode_utf8_decode_utf8, encode_utf8_valid_utf8, valid_utf8,
};

use crate::column::{
    affinity, column_declares_json, column_value_to_json, column_views, declares_json, id_position,
    json_result, json_word_at, reads_column, Column, ColumnAffinity, ColumnView,
};
use crate::error::{StoreError, StoreErrorView};
use crate::json::{
    json_error_text, json_view, number_i64, number_real, number_u64, parsed_json, JsonValue,
    JsonView,
};
use crate::text::{
    ascii_upper, ascii_upper_char, contains_text, is_blank, is_white_space, occurs_at, utf8_error,
    utf8_error_text,
};
use crate::value::{is_finite, LibsqlValue, SqlView};

verus! {

/// Whether the text spells the word at position `at`, each letter in upper or lower case. The
/// word itself is in upper case.
pub open spec fn spelled_at(text: Seq<char>, word: Seq<char>, at: int) -> bool {
    &&& 0 <= at
    &&& at + word.len() <= text.len()
    &&& forall|j: int|
        0 <= j < word.len() ==> text[at + j] == #[trigger] word[j] || text[at + j] as u32
            == word[j] as u32 + 32
}

/// Whether the text spells the word anywhere, also within a longer word.
pub open spec fn spells(text: Seq<char>, word: Seq<char>) -> bool {
    exists|at: int| spelled_at(text, word, at)
}

/// Whether the word is made of the letters `A` to `Z`.
pub open spec fn is_upper_word(word: Seq<char>) -> bool {
    forall|j: int| 0 <= j < word.len() ==> 'A' <= #[trigger] word[j] <= 'Z'
}

proof fn lemma_spelled(text: Seq<char>, word: Seq<char>, at: int)
    requires
        is_upper_word(word),
    ensures
        spelled_at(text, word, at) == occurs_at(ascii_upper(text), word, at),
{
    let upper = ascii_upper(text);
    assert(upper.len() == text.len());
    if 0 <= at && at + word.len() <= text.len() {
        let part = upper.subrange(at, at + word.len());
        assert forall|j: int| 0 <= j < word.len() implies (part[j] == #[trigger] word[j]) == (
        text[at + j] == word[j] || text[at + j] as u32 == word[j] as u32 + 32) by {
            assert(part[j] == ascii_upper_char(text[at + j]));
            assert('A' <= word[j] <= 'Z');
        }
        if spelled_at(text, word, at) {
            assert(part =~= word);
        }
        if part == word {
            assert forall|j: int| 0 <= j < word.len() implies text[at + j] == #[trigger] word[j]
                || text[at + j] as u32 == word[j] as u32 + 32 by {
                assert(part[j] == word[j]);
            }
        }
    }
}

proof fn lemma_spells(text: Seq<char>, word: Seq<char>)
    requires
        is_upper_word(word),
    ensures
        spells(text, word) == contains_text(ascii_upper(text), word),
{
    assert forall|at: int| spelled_at(text, word, at) == occurs_at(ascii_upper(text), word, at) by {
        lemma_spelled(text, word, at);
    }
    if spells(text, word) {
        let at = choose|at: int| spelled_at(text, word, at);
        assert(occurs_at(ascii_upper(text), word, at));
    }
    if contains_text(ascii_upper(text), word) {
        let at = choose|at: int| occurs_at(ascii_upper(text), word, at);
        assert(spelled_at(text, word, at));
    }
}

proof fn lemma_words()
    ensures
        is_upper_word("INT"@) && "INT"@.len() == 3,
        is_upper_word("CHAR"@) && "CHAR"@.len() == 4,
        is_upper_word("CLOB"@) && "CLOB"@.len() == 4,
        is_upper_word("TEXT"@) && "TEXT"@.len() == 4,
        is_upper_word("BLOB"@) && "BLOB"@.len() == 4,
        is_upper_word("REAL"@) && "REAL"@.len() == 4,
        is_upper_word("FLOA"@) && "FLOA"@.len() == 4,
        is_upper_word("DOUB"@) && "DOUB"@.len() == 4,
        is_upper_word("BOOL"@) && "BOOL"@.len() == 4,
{
    reveal_strlit("INT");
    reveal_strlit("CHAR");
    reveal_strlit("CLOB");
    reveal_strlit("TEXT");
    reveal_strlit("BLOB");
    reveal_strlit("REAL");
    reveal_strlit("FLOA");
    reveal_strlit("DOUB");
    reveal_strlit("BOOL");
}

/// Whether the type names text, and no integer.
pub open spec fn names_text(column_type: Seq<char>) -> bool {
    spells(column_type, "CHAR"@) || spells(column_type, "CLOB"@) || spells(column_type, "TEXT"@)
}

/// Whether the type names floats.
pub open spec fn names_floats(column_type: Seq<char>) -> bool {
    spells(column_type, "REAL"@) || spells(column_type, "FLOA"@) || spells(column_type, "DOUB"@)
}

/// Whether the type spells a word that gives a column another affinity than a boolean one.
pub open spec fn names_another(column_type: Seq<char>) -> bool {
    spells(column_type, "INT"@) || names_text(column_type) || spells(column_type, "BLOB"@)
        || names_floats(column_type)
}

/// The affinity of a column goes by the words that its type spells, in any case and whatever
/// stands around them: integers before text, text before bytes, bytes before floats, floats
/// before booleans. A type of nothing but white space is one of bytes.
pub proof fn law_affinity_goes_by_words(column_type: &str, found: ColumnAffinity)
    requires
        call_ensures(ColumnAffinity::from_column_type, (column_type,), found),
    ensures
        found == ColumnAffinity::Integer <==> spells(column_type@, "INT"@),
        found == ColumnAffinity::Text <==> !spells(column_type@, "INT"@) && names_text(
            column_type@,
        ),
        found == ColumnAffinity::Blob <==> !spells(column_type@, "INT"@) && !names_text(
            column_type@,
        ) && (spells(column_type@, "BLOB"@) || is_blank(column_type@)),
        found == ColumnAffinity::Float <==> !spells(column_type@, "INT"@) && !names_text(
            column_type@,
        ) && !spells(column_type@, "BLOB"@) && names_floats(column_type@),
        found == ColumnAffinity::Boolean <==> !names_another(column_type@) && spells(
            column_type@,
            "BOOL"@,
        ),
{
    lemma_affinity(column_type@);
}

proof fn lemma_affinity(column_type: Seq<char>)
    ensures
        affinity(column_type) == ColumnAffinity::Integer <==> spells(column_type, "INT"@),
        affinity(column_type) == ColumnAffinity::Text <==> !spells(column_type, "INT"@)
            && names_text(column_type),
        affinity(column_type) == ColumnAffinity::Blob <==> !spells(column_type, "INT"@)
            && !names_text(column_type) && (spells(column_type, "BLOB"@) || is_blank(column_type)),
        affinity(column_type) == ColumnAffinity::Float <==> !spells(column_type, "INT"@)
            && !names_text(column_type) && !spells(column_type, "BLOB"@) && names_floats(
            column_type,
        ),
        affinity(column_type) == ColumnAffinity::Boolean <==> !names_another(column_type)
            && spells(column_type, "BOOL"@),
{
    lemma_words();
    lemma_spells(column_type, "INT"@);
    lemma_spells(column_type, "CHAR"@);
    lemma_spells(column_type, "CLOB"@);
    lemma_spells(column_type, "TEXT"@);
    lemma_spells(column_type, "BLOB"@);
    lemma_spells(column_type, "REAL"@);
    lemma_spells(column_type, "FLOA"@);
    lemma_spells(column_type, "DOUB"@);
    lemma_spells(column_type, "BOOL"@);
    lemma_blank_spells_nothing(column_type, "REAL"@);
    lemma_blank_spells_nothing(column_type, "FLOA"@);
    lemma_blank_spells_nothing(column_type, "DOUB"@);
    lemma_blank_spells_nothing(column_type, "BOOL"@);
}

proof fn lemma_blank_spells_nothing(text: Seq<char>, word: Seq<char>)
    requires
        is_upper_word(word),
        word.len() > 0,
    ensures
        is_blank(text) ==> !spells(text, word),
{
    if is_blank(text) && spells(text, word) {
        let at = choose|at: int| spelled_at(text, word, at);
        assert('A' <= word[0] <= 'Z');
        assert(text[at + 0] == word[0] || text[at + 0] as u32 == word[0] as u32 + 32);
        assert(is_white_space(text[at]));
    }
}

/// Whether the text can follow a type without changing it: it starts with a blank and spells
/// none of the words that give a column its affinity.
pub open spec fn is_constraint(text: Seq<char>) -> bool {
    &&& text.len() > 0
    &&& text[0] == ' '
    &&& !names_another(text)
    &&& !spells(text, "BOOL"@)
}

proof fn lemma_spells_either(a: Seq<char>, b: Seq<char>, word: Seq<char>)
    requires
        is_upper_word(word),
        word.len() > 0,
        b.len() > 0,
        b[0] == ' ',
        !spells(b, word),
    ensures
        spells(a + b, word) == spells(a, word),
{
    let whole = a + b;
    if spells(a, word) {
        let at = choose|at: int| spelled_at(a, word, at);
        assert(spelled_at(whole, word, at)) by {
            assert forall|j: int| 0 <= j < word.len() implies whole[at + j] == #[trigger] word[j]
                || whole[at + j] as u32 == word[j] as u32 + 32 by {
                assert(whole[at + j] == a[at + j]);
            }
        }
    }
    if spells(whole, word) {
        let at = choose|at: int| spelled_at(whole, word, at);
        if at + word.len() <= a.len() {
            assert(spelled_at(a, word, at)) by {
                assert forall|j: int| 0 <= j < word.len() implies a[at + j] == #[trigger] word[j]
                    || a[at + j] as u32 == word[j] as u32 + 32 by {
                    assert(whole[at + j] == a[at + j]);
                }
            }
        } else if at >= a.len() {
            let from = at - a.len();
            assert(spelled_at(b, word, from)) by {
                assert forall|j: int| 0 <= j < word.len() implies b[from + j] == #[trigger] word[j]
                    || b[from + j] as u32 == word[j] as u32 + 32 by {
                    assert(whole[at + j] == b[from + j]);
                }
            }
        } else {
            let j = a.len() - at;
            assert(whole[at + j] == ' ');
            assert('A' <= word[j] <= 'Z');
        }
    }
}

/// A constraint that follows a type, such as `NOT NULL` or `PRIMARY KEY`, changes nothing of
/// the affinity, nor of whether the column holds JSON.
pub proof fn law_constraints_keep_the_type(column_type: Seq<char>, constraint: Seq<char>)
    requires
        !is_blank(column_type),
        is_constraint(constraint),
    ensures
        affinity(column_type + constraint) == affinity(column_type),
        declares_json(column_type + constraint) == declares_json(column_type),
{
    lemma_words();
    let whole = column_type + constraint;
    lemma_affinity(whole);
    lemma_affinity(column_type);
    lemma_spells_either(column_type, constraint, "INT"@);
    lemma_spells_either(column_type, constraint, "CHAR"@);
    lemma_spells_either(column_type, constraint, "CLOB"@);
    lemma_spells_either(column_type, constraint, "TEXT"@);
    lemma_spells_either(column_type, constraint, "BLOB"@);
    lemma_spells_either(column_type, constraint, "REAL"@);
    lemma_spells_either(column_type, constraint, "FLOA"@);
    lemma_spells_either(column_type, constraint, "DOUB"@);
    lemma_spells_either(column_type, constraint, "BOOL"@);
    let seen = choose|i: int| 0 <= i < column_type.len() && !is_white_space(#[trigger] column_type[i]);
    assert(whole[seen] == column_type[seen]);
    assert(!is_blank(whole));
    reveal_strlit("JSON");
    assert forall|at: int| json_word_at(whole, at) implies json_word_at(column_type, at) by {
        let word = ascii_upper(whole.subrange(at, at + 4));
        assert(word[0] == 'J' && word[1] == 'S' && word[2] == 'O' && word[3] == 'N');
        assert(word[0] == ascii_upper_char(whole[at]) && word[1] == ascii_upper_char(whole[at + 1])
            && word[2] == ascii_upper_char(whole[at + 2]) && word[3] == ascii_upper_char(
            whole[at + 3],
        ));
        assert(whole[column_type.len() as int] == ' ');
        if seen < at {
            assert(whole.take(at)[seen] == whole[seen]);
        }
        assert(at + 4 <= column_type.len());
        assert(whole.subrange(at, at + 4) =~= column_type.subrange(at, at + 4));
        assert(whole.take(at) =~= column_type.take(at));
        if at + 4 < column_type.len() {
            assert(whole[at + 4] == column_type[at + 4]);
        }
    }
    assert forall|at: int| json_word_at(column_type, at) implies json_word_at(whole, at) by {
        assert(whole.subrange(at, at + 4) =~= column_type.subrange(at, at + 4));
        assert(whole.take(at) =~= column_type.take(at));
    }
    if declares_json(whole) {
        let at = choose|at: int| json_word_at(whole, at);
        assert(json_word_at(column_type, at));
    }
    if declares_json(column_type) {
        let at = choose|at: int| json_word_at(column_type, at);
        assert(json_word_at(whole, at));
    }
}

/// What a column gives for a stored value does not change where a constraint follows its type:
/// whatever the one reads, the other reads too.
pub proof fn law_constraints_keep_the_reading(
    index: nat,
    name: Seq<char>,
    column_type: Seq<char>,
    constraint: Seq<char>,
    value: SqlView,
    view: JsonView,
)
    requires
        !is_blank(column_type),
        is_constraint(constraint),
    ensures
        reads_column(
            index,
            ColumnView { name, col_type: column_type },
            value,
            Ok::<JsonView, StoreErrorView>(view),
        ) <==> reads_column(
            index,
            ColumnView { name, col_type: column_type + constraint },
            value,
            Ok::<JsonView, StoreErrorView>(view),
        ),
{
    law_constraints_keep_the_type(column_type, constraint);
}

/// A column whose type spells `BOOL` and no word of another affinity, and whose first word is
/// not `JSON`, reads 1 as true and 0 as false, and refuses every other value but null.
pub proof fn law_boolean_columns_read_booleans(
    index: usize,
    column: Column,
    value: LibsqlValue,
    result: Result<JsonValue, StoreError>,
)
    requires
        spells(column@.col_type, "BOOL"@),
        !names_another(column@.col_type),
        !declares_json(column@.col_type),
        call_ensures(column_value_to_json, (index, &column, value), result),
    ensures
        match value {
            LibsqlValue::Integer(1) => result == Ok::<JsonValue, StoreError>(JsonValue::Bool(true)),
            LibsqlValue::Integer(0) => result == Ok::<JsonValue, StoreError>(
                JsonValue::Bool(false),
            ),
            LibsqlValue::Null => result == Ok::<JsonValue, StoreError>(JsonValue::Null),
            _ => result is Err,
        },
{
    lemma_affinity(column@.col_type);
    assert(reads_column(index as nat, column@, value@, json_result(result)));
}

/// A column holds JSON where the first word of its type is `JSON` in any case, and nowhere
/// else: `blanks` stand before that word, and white space or nothing behind it.
pub proof fn law_json_is_the_first_word(
    blanks: Seq<char>,
    word: Seq<char>,
    behind: Seq<char>,
    column_type: &str,
    declares: bool,
)
    requires
        is_blank(blanks),
        word.len() > 0,
        forall|i: int| 0 <= i < word.len() ==> !is_white_space(#[trigger] word[i]),
        behind.len() > 0 ==> is_white_space(behind[0]),
        column_type@ == blanks + word + behind,
        call_ensures(column_declares_json, (column_type,), declares),
    ensures
        declares <==> word.len() == 4 && spelled_at(word, "JSON"@, 0),
{
    let text = column_type@;
    let at = blanks.len() as int;
    reveal_strlit("JSON");
    assert(text[at] == word[0]);
    assert forall|k: int| json_word_at(text, k) implies k == at && word.len() == 4 && spelled_at(
        word,
        "JSON"@,
        0,
    ) by {
        let found = ascii_upper(text.subrange(k, k + 4));
        assert(found[0] == 'J' && found[1] == 'S' && found[2] == 'O' && found[3] == 'N');
        assert(found[0] == ascii_upper_char(text[k]) && found[1] == ascii_upper_char(text[k + 1])
            && found[2] == ascii_upper_char(text[k + 2]) && found[3] == ascii_upper_char(
            text[k + 3],
        ));
        if k < at {
            assert(text[k] == blanks[k]);
        } else if k > at {
            assert(text.take(k)[at] == text[at]);
            assert(!is_white_space(word[0]));
        }
        if word.len() < 4 {
            assert(text[at + word.len()] == behind[0]);
            assert(is_white_space(behind[0]));
        } else if word.len() > 4 {
            assert(text[at + 4] == word[4]);
        }
        assert(text[at + 1] == word[1] && text[at + 2] == word[2] && text[at + 3] == word[3]);
    }
    if word.len() == 4 && spelled_at(word, "JSON"@, 0) {
        let found = ascii_upper(text.subrange(at, at + 4));
        assert forall|j: int| 0 <= j < 4 implies found[j] == "JSON"@[j] by {
            assert(text[at + j] == word[j]);
            assert(word[0 + j] == "JSON"@[j] || word[0 + j] as u32 == "JSON"@[j] as u32 + 32);
        }
        assert(found =~= "JSON"@);
        assert(text.take(at) =~= blanks);
        if at + 4 < text.len() {
            assert(text[at + 4] == behind[0]);
        }
        assert(json_word_at(text, at));
    }
}

/// Whether a column refuses a stored value: one that holds JSON refuses text and bytes that are
/// no JSON, a boolean one everything but 0, 1 and null, and every other one only doubles that
/// are not finite.
pub open spec fn refuses(column: ColumnView, value: SqlView) -> bool {
    if declares_json(column.col_type) {
        match value {
            SqlView::Text(text) => parsed_json(text) is Err,
            SqlView::Blob(bytes) => !valid_utf8(bytes) || parsed_json(decode_utf8(bytes)) is Err,
            SqlView::Real(bits) => !is_finite(bits),
            _ => false,
        }
    } else if affinity(column.col_type) == ColumnAffinity::Boolean {
        !(value is Null) && value != SqlView::Integer(0) && value != SqlView::Integer(1)
    } else {
        value matches SqlView::Real(bits) && !is_finite(bits)
    }
}

/// A value is read with an error just where the column refuses it.
pub proof fn lemma_refused(
    index: nat,
    column: ColumnView,
    value: SqlView,
    result: Result<JsonView, StoreErrorView>,
)
    requires
        reads_column(index, column, value, result),
    ensures
        result is Err <==> refuses(column, value),
{
}

/// Every value is read that its column does not refuse, and the error for one that it refuses
/// names the column with its type, and the position.
pub proof fn law_values_are_read_or_refused(
    index: usize,
    column: Column,
    value: LibsqlValue,
    result: Result<JsonValue, StoreError>,
)
    requires
        call_ensures(column_value_to_json, (index, &column, value), result),
    ensures
        result is Err <==> refuses(column@, value@),
        result matches Err(error) ==> (error@ matches StoreErrorView::ColumnValue(named)
            && named.column_name == column@.name && named.column_type == column@.col_type
            && named.index == index),
{
    assert(reads_column(index as nat, column@, value@, json_result(result)));
    lemma_refused(index as nat, column@, value@, json_result(result));
}

/// A column that holds neither JSON nor booleans gives back what is stored: text by its
/// characters, also where it looks like JSON, numbers as they are, bytes as the array of their
/// numbers, and null.
pub proof fn law_plain_columns_give_back_what_is_stored(
    index: usize,
    column: Column,
    value: LibsqlValue,
    declares: bool,
    result: Result<JsonValue, StoreError>,
    column_type: &'static str,
    found: ColumnAffinity,
)
    requires
        call_ensures(Column::col_type, (&column,), column_type),
        call_ensures(column_declares_json, (column_type,), declares),
        call_ensures(ColumnAffinity::from_column_type, (column_type,), found),
        call_ensures(column_value_to_json, (index, &column, value), result),
        !declares,
        !(found is Boolean),
    ensures
        match value {
            LibsqlValue::Null => result matches Ok(JsonValue::Null),
            LibsqlValue::Text(text) => result matches Ok(JsonValue::String(read)) && read@ == text@,
            LibsqlValue::Integer(i) => result matches Ok(JsonValue::Number(number)) && number_i64(
                number,
            ) == Some(i),
            LibsqlValue::Real(bits) => if is_finite(bits) {
                result matches Ok(JsonValue::Number(number)) && number_real(number) == Some(bits)
            } else {
                result is Err
            },
            LibsqlValue::Blob(bytes) => result matches Ok(JsonValue::Array(items)) && items@.len()
                == bytes@.len() && forall|i: int|
                0 <= i < bytes@.len() ==> (json_view(#[trigger] items@[i]) matches JsonView::Number(
                    number,
                ) && number_u64(number) == Some(bytes@[i] as u64)),
        },
{
    assert(reads_column(index as nat, column@, value@, json_result(result)));
    if let Ok(read) = result {
        assert(json_result(result) == Ok::<JsonView, StoreErrorView>(read@));
    }
}

/// A column that holds JSON gives what its text parses to, and bytes are read as the text that
/// they are in UTF-8; numbers and null stand for themselves.
pub proof fn law_json_columns_give_what_was_parsed(
    index: usize,
    column: Column,
    text: String,
    bytes: Vec<u8>,
    i: i64,
    column_type: &'static str,
    of_text: Result<JsonValue, StoreError>,
    of_bytes: Result<JsonValue, StoreError>,
    of_integer: Result<JsonValue, StoreError>,
    of_null: Result<JsonValue, StoreError>,
)
    requires
        call_ensures(Column::col_type, (&column,), column_type),
        call_ensures(column_declares_json, (column_type,), true),
        bytes@ == encode_utf8(text@),
        call_ensures(column_value_to_json, (index, &column, LibsqlValue::Text(text)), of_text),
        call_ensures(column_value_to_json, (index, &column, LibsqlValue::Blob(bytes)), of_bytes),
        call_ensures(column_value_to_json, (index, &column, LibsqlValue::Integer(i)), of_integer),
        call_ensures(column_value_to_json, (index, &column, LibsqlValue::Null), of_null),
    ensures
        match parsed_json(text@) {
            Ok(value) => of_text matches Ok(read) && read@ == json_view(value),
            Err(_) => of_text is Err,
        },
        json_result(of_bytes) == json_result(of_text),
        of_integer matches Ok(JsonValue::Number(number)) && number_i64(number) == Some(i),
        of_null matches Ok(JsonValue::Null),
{
    encode_utf8_valid_utf8(text@);
    encode_utf8_decode_utf8(text@);
    assert(reads_column(index as nat, column@, LibsqlValue::Text(text)@, json_result(of_text)));
    assert(reads_column(index as nat, column@, LibsqlValue::Blob(bytes)@, json_result(of_bytes)));
    assert(reads_column(index as nat, column@, LibsqlValue::Integer(i)@, json_result(of_integer)));
    assert(reads_column(index as nat, column@, LibsqlValue::Null@, json_result(of_null)));
}

/// A column keeps the name and the type that it was declared with, and so does a copy of it.
pub proof fn law_columns_keep_their_declaration(
    name: &'static str,
    col_type: &'static str,
    column: Column,
    copy: Column,
    named: &'static str,
    typed: &'static str,
)
    requires
        call_ensures(Column::new, (name, col_type), column),
        call_ensures(Column::clone, (&column,), copy),
        call_ensures(Column::name, (&copy,), named),
        call_ensures(Column::col_type, (&copy,), typed),
    ensures
        named@ == name@,
        typed@ == col_type@,
{
}

/// The position of the id is that of the first column of this very name.
pub proof fn law_the_first_id_column_counts(columns: Vec<Column>, position: Option<usize>)
    requires
        call_ensures(id_position, (&columns,), position),
    ensures
        position matches Some(at) ==> at < columns@.len() && columns@[at as int]@.name == "id"@
            && forall|i: int| 0 <= i < at ==> (#[trigger] columns@[i])@.name != "id"@,
        position is None ==> forall|i: int|
            0 <= i < columns@.len() ==> (#[trigger] columns@[i])@.name != "id"@,
{
    let views = column_views(columns@);
    assert forall|i: int| 0 <= i < columns@.len() implies #[trigger] columns@[i]@ == views[i] by {}
}

/// What is wrong with a refused value is said in full: the complaint of the parser, or of the
/// decoder, or the rule that the value breaks.
pub proof fn law_refusals_say_what_is_wrong(
    index: usize,
    column: Column,
    value: LibsqlValue,
    error: StoreError,
)
    requires
        call_ensures(
            column_value_to_json,
            (index, &column, value),
            Err::<JsonValue, StoreError>(error),
        ),
    ensures
        error@ matches StoreErrorView::ColumnValue(named) && named.message == if value is Real
            && !spells_boolean(column@) {
            "non-finite float value"@
        } else if spells_boolean(column@) {
            "stored libSQL boolean value must be 0 or 1"@
        } else {
            match value@ {
                SqlView::Text(text) => "invalid JSON text: "@ + json_error_text(
                    parsed_json(text)->Err_0,
                ),
                SqlView::Blob(bytes) => if valid_utf8(bytes) {
                    "invalid JSON text: "@ + json_error_text(
                        parsed_json(decode_utf8(bytes))->Err_0,
                    )
                } else {
                    "invalid UTF-8 JSON text: "@ + utf8_error_text(utf8_error(bytes))
                },
                _ => named.message,
            }
        },
{
    let result = Err::<JsonValue, StoreError>(error);
    assert(reads_column(index as nat, column@, value@, json_result(result)));
}

/// Whether the column holds booleans.
pub open spec fn spells_boolean(column: ColumnView) -> bool {
    !declares_json(column.col_type) && affinity(column.col_type) == ColumnAffinity::Boolean
}

} // verus!
