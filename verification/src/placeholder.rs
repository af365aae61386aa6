//! Placeholders of SQL text: how many question marks it holds.

use vstd::prelude::*;
use vstd::string::*;

verus! {

/// How many question marks stand among the first `count` characters.
pub open spec fn marks_before(sql: Seq<char>, count: int) -> nat
    decreases count,
{
    if count <= 0 {
        0
    } else {
        marks_before(sql, count - 1) + if sql[count - 1] == '?' {
            1nat
        } else {
            0nat
        }
    }
}

/// How many question marks the text holds.
pub open spec fn placeholders(sql: Seq<char>) -> nat {
    marks_before(sql, sql.len() as int)
}

/// Texts that agree on their first characters agree on the question marks there.
proof fn lemma_marks_agree(a: Seq<char>, b: Seq<char>, count: int)
    requires
        0 <= count <= a.len(),
        count <= b.len(),
        forall|i: int| 0 <= i < count ==> a[i] == b[i],
    ensures
        marks_before(a, count) == marks_before(b, count),
    decreases count,
{
    if count > 0 {
        lemma_marks_agree(a, b, count - 1);
    }
}

proof fn lemma_marks_shift(a: Seq<char>, b: Seq<char>, count: int)
    requires
        0 <= count <= b.len(),
    ensures
        marks_before(a + b, a.len() + count) == placeholders(a) + marks_before(b, count),
    decreases count,
{
    if count > 0 {
        lemma_marks_shift(a, b, count - 1);
        assert((a + b)[a.len() + count - 1] == b[count - 1]);
    } else {
        lemma_marks_agree(a + b, a, a.len() as int);
    }
}

/// The question marks of two texts add up when the texts are put together.
pub broadcast proof fn lemma_placeholders_add(a: Seq<char>, b: Seq<char>)
    ensures
        #[trigger] placeholders(a + b) == placeholders(a) + placeholders(b),
{
    lemma_marks_shift(a, b, b.len() as int);
}

/// A text without a question mark has no placeholder.
pub proof fn lemma_no_marks(sql: Seq<char>, count: int)
    requires
        0 <= count <= sql.len(),
        !sql.contains('?'),
    ensures
        marks_before(sql, count) == 0,
    decreases count,
{
    if count > 0 {
        lemma_no_marks(sql, count - 1);
        assert(sql.contains(sql[count - 1]));
    }
}

} // verus!
