//! What SQL conditions mean: where `NOT`, `AND` and `OR` stand, and what they join.

use vstd::prelude::*;
use vstd::string::*;

use crate::column_laws::spelled_at;
use crate::filter::continues_identifier;
use crate::nesting::{
    enclosed, is_closed, lemma_closed_add, lemma_enclosed, lemma_flat_is_closed, lemma_open_before,
    lemma_open_behind, lemma_open_enclosed, open_after, part_clearly, Open,
};
use crate::placeholder::{lemma_placeholders_add, marks_before, placeholders};
use crate::value::SqlView;

verus! {

/// A truth value of SQL.
pub enum Truth {
    True,
    False,
    Unknown,
}

/// `NOT`.
pub open spec fn negation(a: Truth) -> Truth {
    match a {
        Truth::True => Truth::False,
        Truth::False => Truth::True,
        Truth::Unknown => Truth::Unknown,
    }
}

/// `AND`.
pub open spec fn both(a: Truth, b: Truth) -> Truth {
    match (a, b) {
        (Truth::True, Truth::True) => Truth::True,
        (Truth::False, _) => Truth::False,
        (_, Truth::False) => Truth::False,
        _ => Truth::Unknown,
    }
}

/// `OR`.
pub open spec fn either(a: Truth, b: Truth) -> Truth {
    negation(both(negation(a), negation(b)))
}

/// Whether the word, given in upper case, stands at position `at`, in any case: no letter,
/// digit or underscore comes directly before or after it, and no parenthesis or quote is open.
pub open spec fn word_at(sql: Seq<char>, word: Seq<char>, at: int) -> bool {
    &&& spelled_at(sql, word, at)
    &&& at > 0 ==> !continues_identifier(sql[at - 1])
    &&& at + word.len() < sql.len() ==> !continues_identifier(sql[at + word.len()])
    &&& open_after(sql, at) == (Open { depth: 0, quote: None })
}

/// The last position before `count` at which `OR` joins two conditions, or -1.
pub open spec fn last_or(sql: Seq<char>, count: int) -> int
    decreases count,
{
    if count <= 0 {
        -1
    } else if word_at(sql, "OR"@, count - 1) {
        count - 1
    } else {
        last_or(sql, count - 1)
    }
}

/// Whether a `BETWEEN` before `count` still waits for its `AND`.
pub open spec fn waits_for_and(sql: Seq<char>, count: int) -> bool
    decreases count,
{
    if count <= 0 {
        false
    } else if word_at(sql, "BETWEEN"@, count - 1) {
        true
    } else if word_at(sql, "AND"@, count - 1) {
        false
    } else {
        waits_for_and(sql, count - 1)
    }
}

/// Whether the `AND` at position `at` joins two conditions.
pub open spec fn joins_at(sql: Seq<char>, at: int) -> bool {
    word_at(sql, "AND"@, at) && !waits_for_and(sql, at)
}

/// The last position before `count` at which `AND` joins two conditions, or -1.
pub open spec fn last_and(sql: Seq<char>, count: int) -> int
    decreases count,
{
    if count <= 0 {
        -1
    } else if joins_at(sql, count - 1) {
        count - 1
    } else {
        last_and(sql, count - 1)
    }
}

/// The text without blanks before and behind it.
pub open spec fn trimmed(sql: Seq<char>) -> Seq<char>
    decreases sql.len(),
{
    if sql.len() > 0 && sql[0] == ' ' {
        trimmed(sql.drop_first())
    } else if sql.len() > 0 && sql.last() == ' ' {
        trimmed(sql.drop_last())
    } else {
        sql
    }
}

/// What stands between the first and the last character.
pub open spec fn inside(sql: Seq<char>) -> Seq<char> {
    sql.subrange(1, sql.len() - 1)
}

/// Whether the text is one condition in parentheses.
pub open spec fn is_enclosed(sql: Seq<char>) -> bool {
    sql.len() >= 2 && sql == enclosed(inside(sql)) && is_closed(inside(sql))
}

/// What a condition means, its placeholders bound to the parameters in their order. `OR` binds
/// weaker than `AND`, and that weaker than `NOT`; what holds none of them outside of parentheses
/// and is not in parentheses itself means what `atom` says of it.
pub open spec fn meaning(
    sql: Seq<char>,
    params: Seq<SqlView>,
    atom: spec_fn(Seq<char>, Seq<SqlView>) -> Truth,
) -> Truth
    decreases sql.len(),
{
    let or_at = last_or(sql, sql.len() as int);
    let and_at = last_and(sql, sql.len() as int);
    let text = trimmed(sql);
    if 0 <= or_at && or_at + 2 <= sql.len() {
        let count = placeholders(sql.take(or_at)) as int;
        either(
            meaning(sql.take(or_at), params.take(count), atom),
            meaning(sql.skip(or_at + 2), params.skip(count), atom),
        )
    } else if 0 <= and_at && and_at + 3 <= sql.len() {
        let count = placeholders(sql.take(and_at)) as int;
        both(
            meaning(sql.take(and_at), params.take(count), atom),
            meaning(sql.skip(and_at + 3), params.skip(count), atom),
        )
    } else if word_at(text, "NOT"@, 0) && 3 <= text.len() <= sql.len() {
        negation(meaning(text.skip(3), params, atom))
    } else if is_enclosed(text) && text.len() <= sql.len() {
        meaning(inside(text), params, atom)
    } else {
        atom(text, params)
    }
}

/// Whether the text holds the word nowhere outside of parentheses and quotes.
pub open spec fn lacks(sql: Seq<char>, word: Seq<char>) -> bool {
    forall|at: int| !#[trigger] word_at(sql, word, at)
}

/// The letters of the words that join and negate conditions.
pub proof fn lemma_keywords()
    ensures
        "OR"@.len() == 2,
        "AND"@.len() == 3,
        "NOT"@.len() == 3,
        "BETWEEN"@.len() == 7,
        "OR"@[0] == 'O' && "OR"@[1] == 'R',
        "AND"@[0] == 'A' && "AND"@[1] == 'N' && "AND"@[2] == 'D',
        "NOT"@[0] == 'N' && "NOT"@[1] == 'O' && "NOT"@[2] == 'T',
        "BETWEEN"@[0] == 'B' && "BETWEEN"@[1] == 'E' && "BETWEEN"@[2] == 'T',
        forall|i: int| 0 <= i < 7 ==> 'A' <= #[trigger] "BETWEEN"@[i] <= 'Z',
{
    reveal_strlit("OR");
    reveal_strlit("AND");
    reveal_strlit("NOT");
    reveal_strlit("BETWEEN");
}

/// Whether the text is one of the words that join or negate conditions.
pub open spec fn is_keyword(word: Seq<char>) -> bool {
    word == "OR"@ || word == "AND"@ || word == "NOT"@ || word == "BETWEEN"@
}

proof fn lemma_keyword_letters(word: Seq<char>, j: int)
    requires
        is_keyword(word),
        0 <= j < word.len(),
    ensures
        'A' <= word[j] <= 'Z',
{
    lemma_keywords();
}

/// A letter of a word in any case is part of a word.
proof fn lemma_letter(c: char, letter: char)
    requires
        'A' <= letter <= 'Z',
        c == letter || c as u32 == letter as u32 + 32,
    ensures
        continues_identifier(c),
{
    if c != letter {
        assert('a' as u32 == 97 && 'z' as u32 == 122 && 'A' as u32 == 65 && 'Z' as u32 == 90);
        assert(97 <= c as u32 <= 122);
    }
}

/// Where a word stands in two texts put together, it stands in one of them.
pub proof fn lemma_word_in_either(a: Seq<char>, b: Seq<char>, word: Seq<char>, at: int)
    requires
        is_keyword(word),
        is_closed(a),
        part_clearly(a, b),
        word_at(a + b, word, at),
    ensures
        at + word.len() <= a.len() ==> word_at(a, word, at),
        at >= a.len() ==> word_at(b, word, at - a.len()),
        at + word.len() <= a.len() || at >= a.len(),
{
    let whole = a + b;
    if at + word.len() <= a.len() {
        lemma_open_before(a, b, at);
        assert forall|j: int| 0 <= j < word.len() implies a[at + j] == #[trigger] word[j] || a[at
            + j] as u32 == word[j] as u32 + 32 by {
            assert(whole[at + j] == a[at + j]);
        }
        assert(at > 0 ==> whole[at - 1] == a[at - 1]);
        assert(at + word.len() < a.len() ==> whole[at + word.len()] == a[at + word.len()]);
    } else if at >= a.len() {
        let from = at - a.len();
        lemma_open_behind(a, b, from);
        assert forall|j: int| 0 <= j < word.len() implies b[from + j] == #[trigger] word[j]
            || b[from + j] as u32 == word[j] as u32 + 32 by {
            assert(whole[at + j] == b[from + j]);
        }
        assert(from > 0 ==> whole[at - 1] == b[from - 1]);
        assert(from + word.len() < b.len() ==> whole[at + word.len()] == b[from + word.len()]);
    } else {
        let j = a.len() - at;
        lemma_keyword_letters(word, j - 1);
        lemma_keyword_letters(word, j);
        assert(whole[at + (j - 1)] == a.last());
        assert(whole[at + j] == b[0]);
        assert(whole[at + (j - 1)] == word[j - 1] || whole[at + (j - 1)] as u32 == word[j - 1] as u32
            + 32);
        assert(whole[at + j] == word[j] || whole[at + j] as u32 == word[j] as u32 + 32);
        lemma_letter(a.last(), word[j - 1]);
        lemma_letter(b[0], word[j]);
    }
}

/// Texts that lack a word lack it when put together.
pub proof fn lemma_lacks_add(a: Seq<char>, b: Seq<char>, word: Seq<char>)
    requires
        is_keyword(word),
        is_closed(a),
        part_clearly(a, b),
        lacks(a, word),
        lacks(b, word),
    ensures
        lacks(a + b, word),
{
    assert forall|at: int| !#[trigger] word_at(a + b, word, at) by {
        if word_at(a + b, word, at) {
            lemma_word_in_either(a, b, word, at);
        }
    }
}

/// A text in parentheses lacks every word outside of them.
pub proof fn lemma_enclosed_lacks(sql: Seq<char>, word: Seq<char>)
    requires
        is_keyword(word),
        is_closed(sql),
    ensures
        lacks(enclosed(sql), word),
{
    lemma_keywords();
    let whole = enclosed(sql);
    assert forall|at: int| !#[trigger] word_at(whole, word, at) by {
        if word_at(whole, word, at) {
            lemma_keyword_letters(word, 0);
            assert(whole[at + 0] == word[0] || whole[at + 0] as u32 == word[0] as u32 + 32);
            assert(whole[0] == '(');
            assert(1 <= at <= 1 + sql.len());
            lemma_open_enclosed(sql, at);
        }
    }
}

/// A text without the word has no last `OR`.
pub proof fn lemma_no_or(sql: Seq<char>, count: int)
    requires
        lacks(sql, "OR"@),
    ensures
        last_or(sql, count) == -1,
    decreases count,
{
    if count > 0 {
        lemma_no_or(sql, count - 1);
    }
}

/// A text without the word has no last `AND` that joins conditions.
pub proof fn lemma_no_and(sql: Seq<char>, count: int)
    requires
        forall|at: int| !#[trigger] joins_at(sql, at),
    ensures
        last_and(sql, count) == -1,
    decreases count,
{
    if count > 0 {
        lemma_no_and(sql, count - 1);
    }
}

proof fn lemma_no_between(sql: Seq<char>, count: int)
    requires
        lacks(sql, "BETWEEN"@),
    ensures
        !waits_for_and(sql, count),
    decreases count,
{
    if count > 0 {
        lemma_no_between(sql, count - 1);
    }
}

proof fn lemma_last_or(sql: Seq<char>, at: int, count: int)
    requires
        0 <= at < count,
        word_at(sql, "OR"@, at),
        forall|k: int| at < k < count ==> !#[trigger] word_at(sql, "OR"@, k),
    ensures
        last_or(sql, count) == at,
    decreases count,
{
    if count - 1 > at {
        lemma_last_or(sql, at, count - 1);
    }
}

proof fn lemma_last_and(sql: Seq<char>, at: int, count: int)
    requires
        0 <= at < count,
        joins_at(sql, at),
        forall|k: int| at < k < count ==> !#[trigger] joins_at(sql, k),
    ensures
        last_and(sql, count) == at,
    decreases count,
{
    if count - 1 > at {
        lemma_last_and(sql, at, count - 1);
    }
}

/// A `BETWEEN` waits until its `AND` comes.
pub proof fn lemma_waits(sql: Seq<char>, at: int, count: int)
    requires
        0 <= at < count,
        word_at(sql, "BETWEEN"@, at),
        forall|k: int| at < k < count ==> !#[trigger] word_at(sql, "AND"@, k),
    ensures
        waits_for_and(sql, count),
    decreases count,
{
    if count - 1 > at {
        lemma_waits(sql, at, count - 1);
    }
}

/// A condition in parentheses means the condition, also with a blank before or behind it.
pub proof fn lemma_enclosed_means(
    sql: Seq<char>,
    params: Seq<SqlView>,
    atom: spec_fn(Seq<char>, Seq<SqlView>) -> Truth,
)
    requires
        is_closed(sql),
    ensures
        meaning(enclosed(sql), params, atom) == meaning(sql, params, atom),
        meaning(enclosed(sql) + seq![' '], params, atom) == meaning(sql, params, atom),
        meaning(seq![' '] + enclosed(sql), params, atom) == meaning(sql, params, atom),
{
    let whole = enclosed(sql);
    let blank = seq![' '];
    lemma_keywords();
    lemma_enclosed(sql);
    lemma_blank();
    assert(inside(whole) =~= sql);
    assert(whole[0] == '(' && whole.last() == ')');
    assert(trimmed(whole) == whole);
    assert((whole + blank).drop_last() =~= whole);
    assert((blank + whole).drop_first() =~= whole);
    assert((whole + blank)[0] == '(' && (whole + blank).last() == ' ');
    assert((blank + whole)[0] == ' ');
    assert(trimmed(whole + blank) == whole);
    assert(trimmed(blank + whole) == whole);
    assert(!word_at(whole, "NOT"@, 0)) by {
        if word_at(whole, "NOT"@, 0) {
            assert(whole[0int + 0] == "NOT"@[0] || whole[0int + 0] as u32 == "NOT"@[0] as u32 + 32);
        }
    }
    lemma_enclosed_lacks(sql, "OR"@);
    lemma_enclosed_lacks(sql, "AND"@);
    lemma_lacks_add(whole, blank, "OR"@);
    lemma_lacks_add(whole, blank, "AND"@);
    lemma_lacks_add(blank, whole, "OR"@);
    lemma_lacks_add(blank, whole, "AND"@);
    lemma_no_or(whole, whole.len() as int);
    lemma_no_or(whole + blank, (whole + blank).len() as int);
    lemma_no_or(blank + whole, (blank + whole).len() as int);
    lemma_no_and(whole, whole.len() as int);
    lemma_no_and(whole + blank, (whole + blank).len() as int);
    lemma_no_and(blank + whole, (blank + whole).len() as int);
}

/// A blank is closed and holds no word.
proof fn lemma_blank()
    ensures
        is_closed(seq![' ']),
        lacks(seq![' '], "OR"@),
        lacks(seq![' '], "AND"@),
        lacks(seq![' '], "NOT"@),
        lacks(seq![' '], "BETWEEN"@),
{
    lemma_keywords();
    lemma_flat_is_closed(seq![' ']);
}

/// The words that join two conditions in parentheses.
proof fn lemma_joining_words()
    ensures
        " AND "@.len() == 5,
        " OR "@.len() == 4,
        is_closed(" AND "@),
        is_closed(" OR "@),
        lacks(" AND "@, "OR"@),
        lacks(" AND "@, "BETWEEN"@),
        lacks(" AND "@, "NOT"@),
        word_at(" AND "@, "AND"@, 1),
        forall|at: int| #[trigger] word_at(" AND "@, "AND"@, at) ==> at == 1,
        word_at(" OR "@, "OR"@, 1),
        forall|at: int| #[trigger] word_at(" OR "@, "OR"@, at) ==> at == 1,
        " AND "@[0] == ' ' && " AND "@[4] == ' ',
        " OR "@[0] == ' ' && " OR "@[3] == ' ',
{
    reveal_strlit(" AND ");
    reveal_strlit(" OR ");
    lemma_keywords();
    lemma_flat_is_closed(" AND "@);
    lemma_flat_is_closed(" OR "@);
    reveal_with_fuel(open_after, 2);
    assert forall|at: int| #[trigger] word_at(" AND "@, "AND"@, at) implies at == 1 by {
        assert(" AND "@[at + 0] == "AND"@[0] || " AND "@[at + 0] as u32 == "AND"@[0] as u32 + 32);
    }
    assert forall|at: int| #[trigger] word_at(" OR "@, "OR"@, at) implies at == 1 by {
        assert(" OR "@[at + 0] == "OR"@[0] || " OR "@[at + 0] as u32 == "OR"@[0] as u32 + 32);
    }
    assert forall|at: int| !#[trigger] word_at(" AND "@, "OR"@, at) by {
        if word_at(" AND "@, "OR"@, at) {
            assert(" AND "@[at + 0] == "OR"@[0] || " AND "@[at + 0] as u32 == "OR"@[0] as u32 + 32);
        }
    }
    assert forall|at: int| !#[trigger] word_at(" AND "@, "NOT"@, at) by {
        if word_at(" AND "@, "NOT"@, at) {
            assert(" AND "@[at + 0] == "NOT"@[0] || " AND "@[at + 0] as u32 == "NOT"@[0] as u32 + 32);
            assert(" AND "@[at + 1] == "NOT"@[1] || " AND "@[at + 1] as u32 == "NOT"@[1] as u32 + 32);
        }
    }
}

/// A word of the second of two texts stands in both put together too.
pub proof fn lemma_word_behind(a: Seq<char>, b: Seq<char>, word: Seq<char>, at: int)
    requires
        is_closed(a),
        word_at(b, word, at),
        at > 0,
    ensures
        word_at(a + b, word, a.len() + at),
{
    let whole = a + b;
    lemma_open_behind(a, b, at);
    assert forall|j: int| 0 <= j < word.len() implies whole[a.len() + at + j] == #[trigger] word[j]
        || whole[a.len() + at + j] as u32 == word[j] as u32 + 32 by {
        assert(whole[a.len() + at + j] == b[at + j]);
    }
    assert(whole[a.len() + at - 1] == b[at - 1]);
    assert(at + word.len() < b.len() ==> whole[a.len() + at + word.len()] == b[at + word.len()]);
}

/// A word of the first of two texts stands in both put together too, where a character that
/// is no part of a word follows.
proof fn lemma_word_before(a: Seq<char>, b: Seq<char>, word: Seq<char>, at: int)
    requires
        word.len() > 0,
        word_at(a, word, at),
        b.len() > 0 ==> !continues_identifier(b[0]),
    ensures
        word_at(a + b, word, at),
{
    let whole = a + b;
    lemma_open_before(a, b, at);
    assert forall|j: int| 0 <= j < word.len() implies whole[at + j] == #[trigger] word[j]
        || whole[at + j] as u32 == word[j] as u32 + 32 by {
        assert(whole[at + j] == a[at + j]);
    }
    assert(at > 0 ==> whole[at - 1] == a[at - 1]);
    assert(at + word.len() < a.len() ==> whole[at + word.len()] == a[at + word.len()]);
    assert(at + word.len() == a.len() && b.len() > 0 ==> whole[at + word.len()] == b[0]);
}

/// Two conditions in parentheses with `AND` between them.
pub proof fn lemma_and_means_both(
    l: Seq<char>,
    r: Seq<char>,
    left: Seq<SqlView>,
    right: Seq<SqlView>,
    atom: spec_fn(Seq<char>, Seq<SqlView>) -> Truth,
)
    requires
        is_closed(l),
        is_closed(r),
        placeholders(l) == left.len(),
    ensures
        meaning(enclosed(l) + " AND "@ + enclosed(r), left + right, atom) == both(
            meaning(l, left, atom),
            meaning(r, right, atom),
        ),
{
    let first = enclosed(l);
    let second = enclosed(r);
    let begin = first + " AND "@;
    let whole = begin + second;
    let at = first.len() as int + 1;
    lemma_keywords();
    lemma_joining_words();
    lemma_enclosed(l);
    lemma_enclosed(r);
    lemma_enclosed_lacks(l, "OR"@);
    lemma_enclosed_lacks(l, "AND"@);
    lemma_enclosed_lacks(l, "BETWEEN"@);
    lemma_enclosed_lacks(r, "OR"@);
    lemma_enclosed_lacks(r, "AND"@);
    lemma_enclosed_lacks(r, "BETWEEN"@);
    lemma_closed_add(first, " AND "@);
    lemma_lacks_add(first, " AND "@, "OR"@);
    lemma_lacks_add(begin, second, "OR"@);
    lemma_lacks_add(first, " AND "@, "BETWEEN"@);
    lemma_lacks_add(begin, second, "BETWEEN"@);
    lemma_no_or(whole, whole.len() as int);
    lemma_word_behind(first, " AND "@, "AND"@, 1);
    assert(second[0] == '(');
    lemma_word_before(begin, second, "AND"@, at);
    lemma_no_between(whole, at);
    assert forall|k: int| at < k < whole.len() implies !#[trigger] joins_at(whole, k) by {
        if joins_at(whole, k) {
            lemma_word_in_either(begin, second, "AND"@, k);
            if k + 3 <= begin.len() {
                lemma_word_in_either(first, " AND "@, "AND"@, k);
            }
        }
    }
    lemma_last_and(whole, at, whole.len() as int);
    assert(whole.take(at) =~= first + seq![' ']);
    assert(whole.skip(at + 3) =~= seq![' '] + second);
    lemma_split(l, left, right);
    lemma_enclosed_means(l, left, atom);
    lemma_enclosed_means(r, right, atom);
}

/// The parameters of the first of two conditions are those of its placeholders.
proof fn lemma_split(l: Seq<char>, left: Seq<SqlView>, right: Seq<SqlView>)
    requires
        placeholders(l) == left.len(),
    ensures
        placeholders(enclosed(l) + seq![' ']) == left.len(),
        (left + right).take(left.len() as int) == left,
        (left + right).skip(left.len() as int) == right,
{
    broadcast use lemma_placeholders_add;

    reveal_with_fuel(marks_before, 2);
    assert(placeholders(seq!['(']) == 0);
    assert(placeholders(seq![')']) == 0);
    assert(placeholders(seq![' ']) == 0);
    assert((left + right).take(left.len() as int) =~= left);
    assert((left + right).skip(left.len() as int) =~= right);
}

/// Two conditions in parentheses with `OR` between them.
pub proof fn lemma_or_means_either(
    l: Seq<char>,
    r: Seq<char>,
    left: Seq<SqlView>,
    right: Seq<SqlView>,
    atom: spec_fn(Seq<char>, Seq<SqlView>) -> Truth,
)
    requires
        is_closed(l),
        is_closed(r),
        placeholders(l) == left.len(),
    ensures
        meaning(enclosed(l) + " OR "@ + enclosed(r), left + right, atom) == either(
            meaning(l, left, atom),
            meaning(r, right, atom),
        ),
{
    let first = enclosed(l);
    let second = enclosed(r);
    let begin = first + " OR "@;
    let whole = begin + second;
    let at = first.len() as int + 1;
    lemma_keywords();
    lemma_joining_words();
    lemma_enclosed(l);
    lemma_enclosed(r);
    lemma_enclosed_lacks(l, "OR"@);
    lemma_enclosed_lacks(r, "OR"@);
    lemma_closed_add(first, " OR "@);
    lemma_word_behind(first, " OR "@, "OR"@, 1);
    assert(second[0] == '(');
    lemma_word_before(begin, second, "OR"@, at);
    assert forall|k: int| at < k < whole.len() implies !#[trigger] word_at(whole, "OR"@, k) by {
        if word_at(whole, "OR"@, k) {
            lemma_word_in_either(begin, second, "OR"@, k);
            if k + 2 <= begin.len() {
                lemma_word_in_either(first, " OR "@, "OR"@, k);
            }
        }
    }
    lemma_last_or(whole, at, whole.len() as int);
    assert(whole.take(at) =~= first + seq![' ']);
    assert(whole.skip(at + 2) =~= seq![' '] + second);
    lemma_split(l, left, right);
    lemma_enclosed_means(l, left, atom);
    lemma_enclosed_means(r, right, atom);
}

/// `NOT` before a condition in parentheses.
pub proof fn lemma_not_means_not(
    sql: Seq<char>,
    params: Seq<SqlView>,
    atom: spec_fn(Seq<char>, Seq<SqlView>) -> Truth,
)
    requires
        is_closed(sql),
    ensures
        meaning("NOT "@ + enclosed(sql), params, atom) == negation(meaning(sql, params, atom)),
{
    let second = enclosed(sql);
    let whole = "NOT "@ + second;
    lemma_keywords();
    reveal_strlit("NOT ");
    lemma_flat_is_closed("NOT "@);
    lemma_enclosed_lacks(sql, "OR"@);
    lemma_enclosed_lacks(sql, "AND"@);
    assert forall|at: int| !#[trigger] word_at("NOT "@, "OR"@, at) by {
        if word_at("NOT "@, "OR"@, at) {
            assert("NOT "@[at + 0] == "OR"@[0] || "NOT "@[at + 0] as u32 == "OR"@[0] as u32 + 32);
            assert("NOT "@[at + 1] == "OR"@[1] || "NOT "@[at + 1] as u32 == "OR"@[1] as u32 + 32);
        }
    }
    assert forall|at: int| !#[trigger] word_at("NOT "@, "AND"@, at) by {
        if word_at("NOT "@, "AND"@, at) {
            assert("NOT "@[at + 0] == "AND"@[0] || "NOT "@[at + 0] as u32 == "AND"@[0] as u32 + 32);
        }
    }
    lemma_lacks_add("NOT "@, second, "OR"@);
    lemma_lacks_add("NOT "@, second, "AND"@);
    lemma_no_or(whole, whole.len() as int);
    lemma_no_and(whole, whole.len() as int);
    assert(whole[0] == 'N' && whole.last() == ')');
    assert(trimmed(whole) == whole);
    assert(whole[1] == 'O' && whole[2] == 'T' && whole[3] == ' ');
    assert(word_at(whole, "NOT"@, 0));
    assert(whole.skip(3) =~= seq![' '] + second);
    lemma_enclosed_means(sql, params, atom);
}

} // verus!
