//! Parentheses and quotes of SQL expressions, and the alternatives that they enclose.

use vstd::prelude::*;
use vstd::string::*;

use crate::filter::continues_identifier;

verus! {

/// What is open at some point of an SQL text: how many parentheses, and which quote.
#[verifier::ext_equal]
pub struct Open {
    pub depth: int,
    pub quote: Option<char>,
}

/// Whether the character opens a string or a quoted name.
pub open spec fn opens_quote(c: char) -> bool {
    c == '\'' || c == '"' || c == '`' || c == '['
}

/// The character that closes what `quote` opened.
pub open spec fn closing(quote: char) -> char {
    if quote == '[' {
        ']'
    } else {
        quote
    }
}

/// What is open after the character `c`. Within quotes, parentheses are text.
pub open spec fn after(open: Open, c: char) -> Open {
    match open.quote {
        Some(quote) => if c == closing(quote) {
            Open { quote: None, ..open }
        } else {
            open
        },
        None => if opens_quote(c) {
            Open { quote: Some(c), ..open }
        } else if c == '(' {
            Open { depth: open.depth + 1, ..open }
        } else if c == ')' {
            Open { depth: open.depth - 1, ..open }
        } else {
            open
        },
    }
}

/// What is open after the first `count` characters.
pub open spec fn open_after(sql: Seq<char>, count: int) -> Open
    decreases count,
{
    if count <= 0 {
        Open { depth: 0, quote: None }
    } else {
        after(open_after(sql, count - 1), sql[count - 1])
    }
}

/// Whether a comment starts at position `at`, if no quote is open there.
pub open spec fn comment_at(sql: Seq<char>, at: int) -> bool {
    &&& 0 <= at
    &&& at + 2 <= sql.len()
    &&& (sql[at] == '-' && sql[at + 1] == '-') || (sql[at] == '/' && sql[at + 1] == '*')
}

/// Whether every quote and every parenthesis is closed, no parenthesis is closed before it is
/// opened, and there is no comment.
pub open spec fn is_closed(sql: Seq<char>) -> bool {
    &&& open_after(sql, sql.len() as int) == (Open { depth: 0, quote: None })
    &&& forall|i: int| 0 <= i <= sql.len() ==> (#[trigger] open_after(sql, i)).depth >= 0
    &&& forall|at: int| #[trigger] comment_at(sql, at) ==> open_after(sql, at).quote is Some
}

/// Whether the word `OR`, in any mix of upper and lower case, stands at position `at`: no
/// letter, digit or underscore comes directly before or after it.
pub open spec fn alternative_at(sql: Seq<char>, at: int) -> bool {
    &&& 0 <= at
    &&& at + 2 <= sql.len()
    &&& sql[at] == 'O' || sql[at] == 'o'
    &&& sql[at + 1] == 'R' || sql[at + 1] == 'r'
    &&& at > 0 ==> !continues_identifier(sql[at - 1])
    &&& at + 2 < sql.len() ==> !continues_identifier(sql[at + 2])
}

/// Whether the expression keeps its alternatives to itself: quotes and parentheses are closed,
/// there is no comment, and every `OR` stands within parentheses or quotes. `OR` is the only
/// operator of SQL that binds weaker than `AND`, so expressions of this kind that are put
/// together with `AND` must all hold.
pub open spec fn is_self_contained(sql: Seq<char>) -> bool {
    &&& is_closed(sql)
    &&& forall|at: int| #[trigger]
        alternative_at(sql, at) ==> open_after(sql, at).depth > 0 || open_after(sql, at).quote
            is Some
}

/// What is open in the first of two texts.
pub proof fn lemma_open_before(a: Seq<char>, b: Seq<char>, count: int)
    requires
        0 <= count <= a.len(),
    ensures
        open_after(a + b, count) == open_after(a, count),
    decreases count,
{
    if count > 0 {
        lemma_open_before(a, b, count - 1);
        assert((a + b)[count - 1] == a[count - 1]);
    }
}

/// What is open in a text that follows another one whose quotes are closed.
pub proof fn lemma_open_behind(a: Seq<char>, b: Seq<char>, count: int)
    requires
        0 <= count <= b.len(),
        open_after(a, a.len() as int).quote is None,
    ensures
        open_after(a + b, a.len() + count) == (Open {
            depth: open_after(a, a.len() as int).depth + open_after(b, count).depth,
            quote: open_after(b, count).quote,
        }),
    decreases count,
{
    if count > 0 {
        lemma_open_behind(a, b, count - 1);
        assert((a + b)[a.len() + count - 1] == b[count - 1]);
    } else {
        lemma_open_before(a, b, a.len() as int);
    }
}

/// Whether the character neither stands in a word nor starts or goes on with a comment.
pub open spec fn is_break(c: char) -> bool {
    !continues_identifier(c) && c != '-' && c != '/' && c != '*'
}

/// Whether words and comments of the two texts stay apart when these are put together.
pub open spec fn part_clearly(a: Seq<char>, b: Seq<char>) -> bool {
    a.len() > 0 && b.len() > 0 ==> is_break(a.last()) || is_break(b[0])
}

/// Closed texts are closed when put together.
pub proof fn lemma_closed_add(a: Seq<char>, b: Seq<char>)
    requires
        is_closed(a),
        is_closed(b),
        part_clearly(a, b),
    ensures
        is_closed(a + b),
{
    let whole = a + b;
    lemma_open_behind(a, b, b.len() as int);
    assert forall|i: int| 0 <= i <= whole.len() implies (#[trigger] open_after(whole, i)).depth
        >= 0 by {
        if i <= a.len() {
            lemma_open_before(a, b, i);
        } else {
            lemma_open_behind(a, b, i - a.len());
        }
    }
    assert forall|at: int| #[trigger] comment_at(whole, at) implies open_after(whole, at).quote
        is Some by {
        if at + 2 <= a.len() {
            assert(whole[at] == a[at] && whole[at + 1] == a[at + 1]);
            assert(comment_at(a, at));
            lemma_open_before(a, b, at);
        } else if at >= a.len() {
            let from = at - a.len();
            assert(whole[at] == b[from] && whole[at + 1] == b[from + 1]);
            assert(comment_at(b, from));
            lemma_open_behind(a, b, from);
        } else {
            assert(whole[at] == a.last() && whole[at + 1] == b[0]);
        }
    }
}

/// Expressions that keep their alternatives to themselves still do when put together.
pub proof fn lemma_self_contained_add(a: Seq<char>, b: Seq<char>)
    requires
        is_self_contained(a),
        is_self_contained(b),
        part_clearly(a, b),
    ensures
        is_self_contained(a + b),
{
    let whole = a + b;
    lemma_closed_add(a, b);
    assert forall|at: int| #[trigger] alternative_at(whole, at) implies open_after(whole, at).depth
        > 0 || open_after(whole, at).quote is Some by {
        if at + 2 <= a.len() {
            assert(whole[at] == a[at] && whole[at + 1] == a[at + 1]);
            assert(at > 0 ==> whole[at - 1] == a[at - 1]);
            assert(at + 2 < a.len() ==> whole[at + 2] == a[at + 2]);
            assert(alternative_at(a, at));
            lemma_open_before(a, b, at);
        } else if at >= a.len() {
            let from = at - a.len();
            assert(whole[at] == b[from] && whole[at + 1] == b[from + 1]);
            assert(from > 0 ==> whole[at - 1] == b[from - 1]);
            assert(from + 2 < b.len() ==> whole[at + 2] == b[from + 2]);
            assert(alternative_at(b, from));
            lemma_open_behind(a, b, from);
        } else {
            assert(whole[at] == a.last() && whole[at + 1] == b[0]);
        }
    }
}

/// Whether the text holds no quote and no parenthesis.
pub open spec fn is_flat(sql: Seq<char>) -> bool {
    forall|i: int|
        0 <= i < sql.len() ==> !opens_quote(#[trigger] sql[i]) && sql[i] != '(' && sql[i] != ')'
}

proof fn lemma_flat(sql: Seq<char>, count: int)
    requires
        0 <= count <= sql.len(),
        is_flat(sql),
    ensures
        open_after(sql, count) == (Open { depth: 0, quote: None }),
    decreases count,
{
    if count > 0 {
        lemma_flat(sql, count - 1);
        assert(!opens_quote(sql[count - 1]));
    }
}

/// A text without quotes, parentheses and comments is closed.
pub proof fn lemma_flat_is_closed(sql: Seq<char>)
    requires
        is_flat(sql),
        forall|at: int| !#[trigger] comment_at(sql, at),
    ensures
        is_closed(sql),
{
    lemma_flat(sql, sql.len() as int);
    assert forall|i: int| 0 <= i <= sql.len() implies (#[trigger] open_after(sql, i)).depth
        >= 0 by {
        lemma_flat(sql, i);
    }
}

/// A text in parentheses.
pub open spec fn enclosed(sql: Seq<char>) -> Seq<char> {
    seq!['('] + sql + seq![')']
}

/// Within its parentheses, a closed text is one level deep at least.
pub proof fn lemma_open_enclosed(sql: Seq<char>, at: int)
    requires
        is_closed(sql),
        1 <= at <= 1 + sql.len(),
    ensures
        open_after(enclosed(sql), at).depth >= 1,
{
    let opening = seq!['('];
    reveal_with_fuel(open_after, 3);
    assert(open_after(opening, 1) == (Open { depth: 1, quote: None }));
    lemma_open_before(opening + sql, seq![')'], at);
    lemma_open_behind(opening, sql, at - 1);
    assert(open_after(sql, at - 1).depth >= 0);
}

/// A closed text in parentheses keeps its alternatives to itself.
pub proof fn lemma_enclosed(sql: Seq<char>)
    requires
        is_closed(sql),
    ensures
        is_self_contained(enclosed(sql)),
{
    let opening = seq!['('];
    let ending = seq![')'];
    let start = opening + sql;
    let whole = enclosed(sql);
    reveal_with_fuel(open_after, 3);
    assert(open_after(opening, 1) == (Open { depth: 1, quote: None }));
    assert(open_after(ending, 1) == (Open { depth: -1, quote: None }));
    assert forall|i: int| 1 <= i <= 1 + sql.len() implies #[trigger] open_after(whole, i) == (
    Open { depth: 1 + open_after(sql, i - 1).depth, quote: open_after(sql, i - 1).quote }) by {
        lemma_open_before(start, ending, i);
        lemma_open_behind(opening, sql, i - 1);
    }
    lemma_open_behind(opening, sql, sql.len() as int);
    lemma_open_behind(start, ending, 1);
    assert(open_after(whole, whole.len() as int) == (Open { depth: 0, quote: None }));
    assert forall|i: int| 0 <= i <= whole.len() implies (#[trigger] open_after(whole, i)).depth
        >= 0 by {
        if 1 <= i <= 1 + sql.len() {
            assert(open_after(sql, i - 1).depth >= 0);
        }
    }
    assert forall|at: int| #[trigger] comment_at(whole, at) implies open_after(whole, at).quote
        is Some by {
        assert(whole[0] == '(' && whole[whole.len() - 1] == ')');
        assert(1 <= at && at + 2 <= 1 + sql.len());
        assert(whole[at] == sql[at - 1] && whole[at + 1] == sql[at]);
        assert(comment_at(sql, at - 1));
    }
    assert forall|at: int| #[trigger] alternative_at(whole, at) implies open_after(whole, at).depth
        > 0 || open_after(whole, at).quote is Some by {
        assert(whole[0] == '(' && whole[whole.len() - 1] == ')');
        assert(1 <= at <= 1 + sql.len());
        assert(open_after(sql, at - 1).depth >= 0);
    }
}

} // verus!
