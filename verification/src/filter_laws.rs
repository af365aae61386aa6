//! What filters ask for, and what the conditions mean that they are rendered as.

use core::ops::RangeInclusive;

use vstd::prelude::*;
use vstd::string::*;

use crate::conjunct::{keys_stand_alone, lemma_rendered};
use crate::error::{FilterError, FilterErrorView};
use crate::filter::{
    binds_its_marks, clause_result, comparison_sql, continues_identifier, filter_param,
    filter_params, is_expression, json_param, json_params, key_result,
    law_filter_binds_every_placeholder,
    law_same_filters_render_alike, lemma_one_param, lemma_two_params, param_result, params_result,
    pattern_sql, plain_identifier, qualified_key, qualify_document_key, rendered,
    starts_identifier, LibsqlComparisonOp, LibsqlPatternOp, LibsqlSearchFilter,
    LibsqlSearchFilterExpr,
};
use crate::json::{
    array_bytes, number_i64, number_real, number_text, number_u64, object_bytes, JsonValue,
};
use crate::meaning::{
    both, either, is_keyword, joins_at, lacks, lemma_and_means_both, lemma_keywords, lemma_lacks_add,
    lemma_no_and, lemma_no_or, lemma_not_means_not, lemma_or_means_either, lemma_waits,
    lemma_word_behind, lemma_word_in_either, meaning, negation, trimmed, word_at, Truth,
};
use crate::nesting::{
    enclosed, is_closed, lemma_closed_add, lemma_flat_is_closed, open_after,
};
use crate::text::{contains_text, occurs_at};
use crate::value::{sql_views, LibsqlValue, SqlView};

verus! {

/// What a rendered clause means.
pub open spec fn clause_means(
    clause: (String, Vec<LibsqlValue>),
    atom: spec_fn(Seq<char>, Seq<SqlView>) -> Truth,
) -> Truth {
    meaning(clause.0@, sql_views(clause.1@), atom)
}

/// A negated filter can be rendered just where the filter can, and holds exactly where the
/// filter does not.
pub proof fn law_not_holds_where_the_filter_does_not(
    filter: LibsqlSearchFilterExpr,
    plain: Result<(String, Vec<LibsqlValue>), FilterError>,
    negated: Result<(String, Vec<LibsqlValue>), FilterError>,
    atom: spec_fn(Seq<char>, Seq<SqlView>) -> Truth,
)
    requires
        keys_stand_alone(filter),
        call_ensures(LibsqlSearchFilterExpr::render, (&filter,), plain),
        call_ensures(
            LibsqlSearchFilterExpr::render,
            (&LibsqlSearchFilterExpr::Not(Box::new(filter)),),
            negated,
        ),
    ensures
        negated is Ok <==> plain is Ok,
        plain is Ok ==> clause_means(negated->Ok_0, atom) == negation(
            clause_means(plain->Ok_0, atom),
        ),
{
    assert(clause_result(plain) == rendered(filter));
    assert(clause_result(negated) == rendered(LibsqlSearchFilterExpr::Not(Box::new(filter))));
    if let Ok(clause) = rendered(filter) {
        lemma_rendered(filter);
        lemma_not_means_not(clause.condition, clause.params, atom);
        reveal_strlit("NOT (");
        reveal_strlit("NOT ");
        reveal_strlit(")");
        assert("NOT ("@ + clause.condition + ")"@ =~= "NOT "@ + enclosed(clause.condition));
    }
}

/// Two filters joined by `and` can be rendered just where both can, and hold exactly where both
/// do.
pub proof fn law_and_holds_where_both_do(
    lhs: LibsqlSearchFilterExpr,
    rhs: LibsqlSearchFilterExpr,
    left: Result<(String, Vec<LibsqlValue>), FilterError>,
    right: Result<(String, Vec<LibsqlValue>), FilterError>,
    joint: Result<(String, Vec<LibsqlValue>), FilterError>,
    atom: spec_fn(Seq<char>, Seq<SqlView>) -> Truth,
)
    requires
        keys_stand_alone(lhs),
        keys_stand_alone(rhs),
        binds_its_marks(lhs),
        call_ensures(LibsqlSearchFilterExpr::render, (&lhs,), left),
        call_ensures(LibsqlSearchFilterExpr::render, (&rhs,), right),
        call_ensures(
            LibsqlSearchFilterExpr::render,
            (&LibsqlSearchFilterExpr::And(Box::new(lhs), Box::new(rhs)),),
            joint,
        ),
    ensures
        joint is Ok <==> left is Ok && right is Ok,
        joint is Ok ==> clause_means(joint->Ok_0, atom) == both(
            clause_means(left->Ok_0, atom),
            clause_means(right->Ok_0, atom),
        ),
{
    let whole = LibsqlSearchFilterExpr::And(Box::new(lhs), Box::new(rhs));
    assert(clause_result(left) == rendered(lhs));
    assert(clause_result(right) == rendered(rhs));
    assert(clause_result(joint) == rendered(whole));
    if let (Ok(l), Ok(r)) = (rendered(lhs), rendered(rhs)) {
        lemma_rendered(lhs);
        lemma_rendered(rhs);
        law_filter_binds_every_placeholder(lhs);
        lemma_and_means_both(l.condition, r.condition, l.params, r.params, atom);
        reveal_strlit("(");
        reveal_strlit(")");
        reveal_strlit(") AND (");
        reveal_strlit(" AND ");
        assert("("@ + l.condition + ") AND ("@ + r.condition + ")"@ =~= enclosed(l.condition)
            + " AND "@ + enclosed(r.condition));
    }
}

/// Two filters joined by `or` can be rendered just where both can, and hold exactly where at
/// least one does.
pub proof fn law_or_holds_where_one_does(
    lhs: LibsqlSearchFilterExpr,
    rhs: LibsqlSearchFilterExpr,
    left: Result<(String, Vec<LibsqlValue>), FilterError>,
    right: Result<(String, Vec<LibsqlValue>), FilterError>,
    joint: Result<(String, Vec<LibsqlValue>), FilterError>,
    atom: spec_fn(Seq<char>, Seq<SqlView>) -> Truth,
)
    requires
        keys_stand_alone(lhs),
        keys_stand_alone(rhs),
        binds_its_marks(lhs),
        call_ensures(LibsqlSearchFilterExpr::render, (&lhs,), left),
        call_ensures(LibsqlSearchFilterExpr::render, (&rhs,), right),
        call_ensures(
            LibsqlSearchFilterExpr::render,
            (&LibsqlSearchFilterExpr::Or(Box::new(lhs), Box::new(rhs)),),
            joint,
        ),
    ensures
        joint is Ok <==> left is Ok && right is Ok,
        joint is Ok ==> clause_means(joint->Ok_0, atom) == either(
            clause_means(left->Ok_0, atom),
            clause_means(right->Ok_0, atom),
        ),
{
    let whole = LibsqlSearchFilterExpr::Or(Box::new(lhs), Box::new(rhs));
    assert(clause_result(left) == rendered(lhs));
    assert(clause_result(right) == rendered(rhs));
    assert(clause_result(joint) == rendered(whole));
    if let (Ok(l), Ok(r)) = (rendered(lhs), rendered(rhs)) {
        lemma_rendered(lhs);
        lemma_rendered(rhs);
        law_filter_binds_every_placeholder(lhs);
        lemma_or_means_either(l.condition, r.condition, l.params, r.params, atom);
        reveal_strlit("(");
        reveal_strlit(")");
        reveal_strlit(") OR (");
        reveal_strlit(" OR ");
        assert("("@ + l.condition + ") OR ("@ + r.condition + ")"@ =~= enclosed(l.condition)
            + " OR "@ + enclosed(r.condition));
    }
}

/// Whether the key is a name: a letter or an underscore, and then letters, digits and
/// underscores.
pub open spec fn is_name(key: Seq<char>) -> bool {
    &&& key.len() > 0
    &&& forall|i: int|
        0 <= i < key.len() ==> (#[trigger] key[i] == '_' || 'a' <= key[i] <= 'z' || 'A' <= key[i]
            <= 'Z' || (i > 0 && '0' <= key[i] <= '9'))
}

/// Whether the key shows that it is qualified or an expression.
pub open spec fn shows_an_expression(key: Seq<char>) -> bool {
    exists|i: int|
        0 <= i < key.len() && (#[trigger] key[i] == '.' || key[i] == '(' || key[i] == ' ' || key[i]
            == '?' || (key[i] == '-' && i + 1 < key.len() && key[i + 1] == '>'))
}

/// A name becomes a column of the document table, an expression stays as it is, and every
/// other key is refused.
pub proof fn law_keys_are_names_or_expressions(key: &str, result: Result<String, FilterError>)
    requires
        call_ensures(qualify_document_key, (key,), result),
    ensures
        result is Ok <==> is_name(key@) || shows_an_expression(key@),
        result matches Ok(qualified) ==> qualified@ == if shows_an_expression(key@) {
            key@
        } else {
            "d."@ + key@
        },
        !(is_name(key@) && shows_an_expression(key@)),
{
    lemma_key(key@);
}

proof fn lemma_key(key: Seq<char>)
    ensures
        is_name(key) == plain_identifier(key),
        shows_an_expression(key) == is_expression(key),
        !(is_name(key) && shows_an_expression(key)),
{
    if plain_identifier(key) {
        assert forall|i: int| 0 <= i < key.len() implies (#[trigger] key[i] == '_' || 'a' <= key[i]
            <= 'z' || 'A' <= key[i] <= 'Z' || (i > 0 && '0' <= key[i] <= '9')) by {
            if i > 0 {
                assert(continues_identifier(key[i]));
            }
        }
    }
    if is_name(key) {
        assert(starts_identifier(key[0]));
        assert forall|i: int| 1 <= i < key.len() implies continues_identifier(#[trigger] key[i]) by {}
    }
    reveal_strlit("->");
    if shows_an_expression(key) {
        let i = choose|i: int|
            0 <= i < key.len() && (#[trigger] key[i] == '.' || key[i] == '(' || key[i] == ' '
                || key[i] == '?' || (key[i] == '-' && i + 1 < key.len() && key[i + 1] == '>'));
        assert(key.contains(key[i]));
        if key[i] == '-' {
            assert(key.subrange(i, i + 2) =~= "->"@);
            assert(occurs_at(key, "->"@, i));
        }
    }
    if contains_text(key, "->"@) {
        let at = choose|at: int| occurs_at(key, "->"@, at);
        assert(key.subrange(at, at + 2)[0] == '-' && key.subrange(at, at + 2)[1] == '>');
        assert(key[at] == '-' && key[at + 1] == '>');
    }
}

/// What a filter compares with is bound as it is: null as null, booleans as 0 and 1, text and
/// `i64` integers as themselves, other numbers by their double, arrays and objects by the bytes
/// of their JSON. Only integers past the largest `i64` are refused.
pub proof fn law_filter_values_are_bound_whole(
    value: JsonValue,
    param: Result<LibsqlValue, FilterError>,
)
    requires
        call_ensures(filter_param, (&value,), param),
    ensures
        match value {
            JsonValue::Null => param == Ok::<LibsqlValue, FilterError>(LibsqlValue::Null),
            JsonValue::Bool(b) => param == Ok::<LibsqlValue, FilterError>(
                LibsqlValue::Integer(
                    if b {
                        1
                    } else {
                        0
                    },
                ),
            ),
            JsonValue::String(text) => param matches Ok(LibsqlValue::Text(bound)) && bound@
                == text@,
            JsonValue::Array(items) => param matches Ok(LibsqlValue::Blob(bytes)) && bytes@
                == array_bytes(items@),
            JsonValue::Object(object) => param matches Ok(LibsqlValue::Blob(bytes)) && bytes@
                == object_bytes(object),
            JsonValue::Number(n) => {
                &&& number_i64(n) matches Some(i) ==> param == Ok::<LibsqlValue, FilterError>(
                    LibsqlValue::Integer(i),
                )
                &&& number_i64(n) is None ==> (number_u64(n) matches Some(u) ==> if u
                    <= i64::MAX {
                    param == Ok::<LibsqlValue, FilterError>(LibsqlValue::Integer(u as i64))
                } else {
                    param is Err
                })
                &&& number_i64(n) is None && number_u64(n) is None ==> match number_real(n) {
                    Some(bits) => param == Ok::<LibsqlValue, FilterError>(LibsqlValue::Real(bits)),
                    None => param matches Ok(LibsqlValue::Text(bound)) && bound@ == number_text(n),
                }
            },
        },
{
    assert(param_result(param) == json_param(value));
    if let Ok(bound) = param {
        assert(param_result(param) == Ok::<SqlView, FilterErrorView>(bound@));
    }
}

/// How a comparison, a range, a check for null and a pattern read in SQL: the key, and behind
/// it what is asked of it. Of the value that is compared with only the parameter depends.
pub open spec fn asked_of_key(expr: LibsqlSearchFilterExpr, key: Seq<char>, asked: Seq<char>) -> bool {
    match expr {
        LibsqlSearchFilterExpr::Comparison { key: k, op, .. } => k@ == key && asked == match op {
            LibsqlComparisonOp::Eq => " = ?"@,
            LibsqlComparisonOp::Ne => " != ?"@,
            LibsqlComparisonOp::Gt => " > ?"@,
            LibsqlComparisonOp::Gte => " >= ?"@,
            LibsqlComparisonOp::Lt => " < ?"@,
            LibsqlComparisonOp::Lte => " <= ?"@,
        },
        LibsqlSearchFilterExpr::Between { key: k, .. } => k@ == key && asked
            == " BETWEEN ? AND ?"@,
        LibsqlSearchFilterExpr::NullCheck { key: k, negated } => k@ == key && asked == if negated {
            " IS NOT NULL"@
        } else {
            " IS NULL"@
        },
        LibsqlSearchFilterExpr::Pattern { key: k, op, .. } => k@ == key && asked == match op {
            LibsqlPatternOp::Glob => " glob ?"@,
            LibsqlPatternOp::Like => " like ?"@,
        },
        _ => false,
    }
}

proof fn lemma_asked(expr: LibsqlSearchFilterExpr, key: Seq<char>, asked: Seq<char>)
    requires
        asked_of_key(expr, key, asked),
    ensures
        rendered(expr) matches Ok(clause) ==> clause.condition == qualified_key(key)->Ok_0 + asked
            && qualified_key(key) is Ok,
        asked.len() > 0 && asked[0] == ' ' && (asked.last() == '?' || asked.last() == 'L'),
        is_closed(asked),
        lacks(asked, "OR"@),
        asked != " BETWEEN ? AND ?"@ ==> lacks(asked, "AND"@) && lacks(asked, "BETWEEN"@),
{
    reveal_strlit(" ");
    reveal_strlit(" ?");
    reveal_strlit("=");
    reveal_strlit("!=");
    reveal_strlit(">");
    reveal_strlit(">=");
    reveal_strlit("<");
    reveal_strlit("<=");
    reveal_strlit("glob");
    reveal_strlit("like");
    reveal_strlit(" = ?");
    reveal_strlit(" != ?");
    reveal_strlit(" > ?");
    reveal_strlit(" >= ?");
    reveal_strlit(" < ?");
    reveal_strlit(" <= ?");
    reveal_strlit(" glob ?");
    reveal_strlit(" like ?");
    reveal_strlit(" BETWEEN ? AND ?");
    reveal_strlit(" IS NOT NULL");
    reveal_strlit(" IS NULL");
    lemma_keywords();
    match expr {
        LibsqlSearchFilterExpr::Comparison { op, .. } => {
            assert(asked =~= " "@ + comparison_sql(op) + " ?"@);
        },
        LibsqlSearchFilterExpr::Pattern { op, .. } => {
            assert(asked =~= " "@ + pattern_sql(op) + " ?"@);
        },
        _ => {},
    }
    lemma_flat_is_closed(asked);
    assert forall|at: int| !#[trigger] word_at(asked, "OR"@, at) by {
        if word_at(asked, "OR"@, at) {
            assert(asked[at + 0] == "OR"@[0] || asked[at + 0] as u32 == "OR"@[0] as u32 + 32);
            assert(asked[at + 1] == "OR"@[1] || asked[at + 1] as u32 == "OR"@[1] as u32 + 32);
        }
    }
    if asked != " BETWEEN ? AND ?"@ {
        assert forall|at: int| !#[trigger] word_at(asked, "AND"@, at) by {
            if word_at(asked, "AND"@, at) {
                assert(asked[at + 0] == "AND"@[0] || asked[at + 0] as u32 == "AND"@[0] as u32 + 32);
            }
        }
        assert forall|at: int| !#[trigger] word_at(asked, "BETWEEN"@, at) by {
            if word_at(asked, "BETWEEN"@, at) {
                assert(asked[at + 0] == "BETWEEN"@[0] || asked[at + 0] as u32 == "BETWEEN"@[0] as u32
                    + 32);
                assert(asked[at + 1] == "BETWEEN"@[1] || asked[at + 1] as u32 == "BETWEEN"@[1] as u32
                    + 32);
            }
        }
    }
}

/// A filter on one key is rendered as that key with what is asked of it: a name as a column of
/// the document table, an expression as it is.
pub proof fn law_conditions_ask_of_their_key(
    expr: LibsqlSearchFilterExpr,
    key: Seq<char>,
    asked: Seq<char>,
    result: Result<(String, Vec<LibsqlValue>), FilterError>,
)
    requires
        asked_of_key(expr, key, asked),
        call_ensures(LibsqlSearchFilterExpr::render, (&expr,), result),
    ensures
        result matches Ok((condition, _)) ==> condition@ == if shows_an_expression(key) {
            key + asked
        } else {
            "d."@ + key + asked
        },
        result is Ok ==> is_name(key) || shows_an_expression(key),
        !is_name(key) && !shows_an_expression(key) ==> result is Err,
{
    assert(clause_result(result) == rendered(expr));
    lemma_asked(expr, key, asked);
    lemma_key(key);
}

/// Whether the key is one operand in SQL: it is closed, starts with no blank, and holds no word
/// that joins or negates conditions outside of parentheses and quotes.
pub open spec fn is_operand(key: Seq<char>) -> bool {
    &&& is_closed(key)
    &&& key.len() > 0
    &&& key[0] != ' '
    &&& lacks(key, "OR"@)
    &&& lacks(key, "AND"@)
    &&& lacks(key, "BETWEEN"@)
    &&& lacks(key, "NOT"@)
}

/// A filter on one key is one condition in SQL, also where it is a range: its `AND` joins the
/// bounds and no conditions.
pub proof fn law_a_filter_on_one_key_is_one_condition(
    expr: LibsqlSearchFilterExpr,
    key: Seq<char>,
    asked: Seq<char>,
    clause: (String, Vec<LibsqlValue>),
    atom: spec_fn(Seq<char>, Seq<SqlView>) -> Truth,
)
    requires
        asked_of_key(expr, key, asked),
        is_operand(key),
        call_ensures(
            LibsqlSearchFilterExpr::render,
            (&expr,),
            Ok::<(String, Vec<LibsqlValue>), FilterError>(clause),
        ),
    ensures
        clause_means(clause, atom) == atom(clause.0@, sql_views(clause.1@)),
{
    let result = Ok::<(String, Vec<LibsqlValue>), FilterError>(clause);
    assert(clause_result(result) == rendered(expr));
    lemma_asked(expr, key, asked);
    lemma_key(key);
    lemma_keywords();
    let shown = qualified_key(key)->Ok_0;
    if !is_expression(key) {
        reveal_strlit("d.");
        lemma_flat_is_closed("d."@);
        lemma_dot("OR"@);
        lemma_dot("AND"@);
        lemma_dot("BETWEEN"@);
        lemma_dot("NOT"@);
        lemma_lacks_add("d."@, key, "OR"@);
        lemma_lacks_add("d."@, key, "AND"@);
        lemma_lacks_add("d."@, key, "BETWEEN"@);
        lemma_lacks_add("d."@, key, "NOT"@);
        lemma_closed_add("d."@, key);
        assert(shown[0] == 'd');
    }
    let whole = shown + asked;
    assert(whole[0] == shown[0]);
    assert(whole.last() == asked.last());
    assert(trimmed(whole) == whole);
    lemma_lacks_add(shown, asked, "OR"@);
    lemma_no_or(whole, whole.len() as int);
    if word_at(whole, "NOT"@, 0) {
        lemma_word_in_either(shown, asked, "NOT"@, 0);
    }
    if asked == " BETWEEN ? AND ?"@ {
        reveal_strlit(" BETWEEN ? AND ?");
        reveal_with_fuel(open_after, 3);
        assert(word_at(asked, "BETWEEN"@, 1)) by {
            reveal_strlit("BETWEEN");
        }
        lemma_word_behind(shown, asked, "BETWEEN"@, 1);
        assert forall|at: int| !#[trigger] joins_at(whole, at) by {
            if joins_at(whole, at) {
                lemma_word_in_either(shown, asked, "AND"@, at);
                let from = at - shown.len();
                assert(asked[from + 0] == "AND"@[0] || asked[from + 0] as u32 == "AND"@[0] as u32
                    + 32);
                assert(from == 11);
                assert forall|k: int| shown.len() + 1 < k < at implies !#[trigger] word_at(
                    whole,
                    "AND"@,
                    k,
                ) by {
                    if word_at(whole, "AND"@, k) {
                        lemma_word_in_either(shown, asked, "AND"@, k);
                        let other = k - shown.len();
                        assert(asked[other + 0] == "AND"@[0] || asked[other + 0] as u32
                            == "AND"@[0] as u32 + 32);
                    }
                }
                lemma_waits(whole, shown.len() as int + 1, at);
            }
        }
    } else {
        lemma_lacks_add(shown, asked, "AND"@);
    }
    lemma_no_and(whole, whole.len() as int);
}

proof fn lemma_dot(word: Seq<char>)
    requires
        is_keyword(word),
    ensures
        lacks("d."@, word),
{
    lemma_keywords();
    reveal_strlit("d.");
    assert forall|at: int| !#[trigger] word_at("d."@, word, at) by {
        if word_at("d."@, word, at) {
            assert("d."@[at + 0] == word[0] || "d."@[at + 0] as u32 == word[0] as u32 + 32);
        }
    }
}

/// What is built from a key and values asks for just these.
pub proof fn law_builders_keep_what_they_are_given(
    key: &str,
    pattern: &str,
    value: JsonValue,
    range: RangeInclusive<JsonValue>,
    equal: LibsqlSearchFilter,
    greater: LibsqlSearchFilter,
    less: LibsqlSearchFilter,
    between: LibsqlSearchFilter,
    null: LibsqlSearchFilter,
    not_null: LibsqlSearchFilter,
    like: LibsqlSearchFilter,
    glob: LibsqlSearchFilter,
)
    requires
        call_ensures(LibsqlSearchFilter::eq, (key, value), equal),
        call_ensures(LibsqlSearchFilter::gt, (key, value), greater),
        call_ensures(LibsqlSearchFilter::lt, (key, value), less),
        call_ensures(LibsqlSearchFilter::between, (key, range), between),
        call_ensures(LibsqlSearchFilter::is_null, (key,), null),
        call_ensures(LibsqlSearchFilter::is_not_null, (key,), not_null),
        call_ensures(LibsqlSearchFilter::like, (key, pattern), like),
        call_ensures(LibsqlSearchFilter::glob, (key, pattern), glob),
    ensures
        asked_of_key(equal.expr, key@, " = ?"@),
        asked_of_key(greater.expr, key@, " > ?"@),
        asked_of_key(less.expr, key@, " < ?"@),
        asked_of_key(between.expr, key@, " BETWEEN ? AND ?"@),
        asked_of_key(null.expr, key@, " IS NULL"@),
        asked_of_key(not_null.expr, key@, " IS NOT NULL"@),
        asked_of_key(like.expr, key@, " like ?"@),
        asked_of_key(glob.expr, key@, " glob ?"@),
        equal.expr matches LibsqlSearchFilterExpr::Comparison { value: v, .. } && v == value,
        greater.expr matches LibsqlSearchFilterExpr::Comparison { value: v, .. } && v == value,
        less.expr matches LibsqlSearchFilterExpr::Comparison { value: v, .. } && v == value,
        !range@.exhausted ==> (between.expr matches LibsqlSearchFilterExpr::Between { lo, hi, .. }
            && lo == range@.start && hi == range@.end),
        like.expr matches LibsqlSearchFilterExpr::Pattern { pattern: p, .. } && p@ == pattern@,
        glob.expr matches LibsqlSearchFilterExpr::Pattern { pattern: p, .. } && p@ == pattern@,
{
}

/// What is built from filters asks for just these, and a filter is rendered as what it asks
/// for; a copy of it is rendered alike.
pub proof fn law_combinations_keep_their_parts(
    a: LibsqlSearchFilter,
    b: LibsqlSearchFilter,
    joint: LibsqlSearchFilter,
    alternative: LibsqlSearchFilter,
    negated: LibsqlSearchFilter,
    copy: LibsqlSearchFilter,
    clause: Result<(String, Vec<LibsqlValue>), FilterError>,
    inner: Result<(String, Vec<LibsqlValue>), FilterError>,
    copied: Result<(String, Vec<LibsqlValue>), FilterError>,
)
    requires
        call_ensures(LibsqlSearchFilter::and, (a, b), joint),
        call_ensures(LibsqlSearchFilter::or, (a, b), alternative),
        call_ensures(LibsqlSearchFilter::not, (a,), negated),
        call_ensures(LibsqlSearchFilter::clone, (&a,), copy),
        call_ensures(LibsqlSearchFilter::render, (&a,), clause),
        call_ensures(LibsqlSearchFilterExpr::render, (&a.expr,), inner),
        call_ensures(LibsqlSearchFilter::render, (&copy,), copied),
    ensures
        joint.expr == LibsqlSearchFilterExpr::And(Box::new(a.expr), Box::new(b.expr)),
        alternative.expr == LibsqlSearchFilterExpr::Or(Box::new(a.expr), Box::new(b.expr)),
        negated.expr == LibsqlSearchFilterExpr::Not(Box::new(a.expr)),
        clause_result(clause) == clause_result(inner),
        clause_result(copied) == clause_result(clause),
{
    law_same_filters_render_alike(a.expr, copy.expr);
}

/// The parameters of a filter on one key are what it compares with, in their order: one for a
/// comparison or a pattern, the two bounds of a range, none for a check for null. It fails only
/// where its key is refused or one of these cannot be bound.
pub proof fn law_filters_bind_what_they_compare_with(
    expr: LibsqlSearchFilterExpr,
    key: Seq<char>,
    asked: Seq<char>,
    first: JsonValue,
    second: JsonValue,
    lower: Result<LibsqlValue, FilterError>,
    upper: Result<LibsqlValue, FilterError>,
    result: Result<(String, Vec<LibsqlValue>), FilterError>,
)
    requires
        asked_of_key(expr, key, asked),
        call_ensures(filter_param, (&first,), lower),
        call_ensures(filter_param, (&second,), upper),
        call_ensures(LibsqlSearchFilterExpr::render, (&expr,), result),
        is_name(key) || shows_an_expression(key),
    ensures
        expr matches LibsqlSearchFilterExpr::Comparison { value, .. } ==> value == first ==> (result
            is Ok <==> lower is Ok) && (result matches Ok((_, params)) ==> params@.len() == 1
            && params@[0]@ == lower->Ok_0@),
        expr matches LibsqlSearchFilterExpr::Between { lo, hi, .. } ==> lo == first && hi == second
            ==> (result is Ok <==> lower is Ok && upper is Ok) && (result matches Ok((_, params))
            ==> params@.len() == 2 && params@[0]@ == lower->Ok_0@ && params@[1]@ == upper->Ok_0@),
        expr matches LibsqlSearchFilterExpr::Pattern { pattern, .. } ==> (result matches Ok(
            (_, params),
        ) && params@.len() == 1 && params@[0]@ == SqlView::Text(pattern@)),
        expr is NullCheck ==> (result matches Ok((_, params)) && params@.len() == 0),
{
    lemma_key(key);
    assert(clause_result(result) == rendered(expr));
    assert(param_result(lower) == json_param(first));
    assert(param_result(upper) == json_param(second));
    lemma_one_param(first);
    lemma_two_params(first, second);
    if let Ok((_, params)) = result {
        let views = sql_views(params@);
        assert(rendered(expr)->Ok_0.params == views);
        if params@.len() > 0 {
            assert(views[0] == params@[0]@);
        }
        if params@.len() > 1 {
            assert(views[1] == params@[1]@);
        }
    }
}

/// A raw condition stays as it is, and binds its values in their order.
pub proof fn law_raw_conditions_stay(
    condition: String,
    params: Vec<JsonValue>,
    bound: Result<Vec<LibsqlValue>, FilterError>,
    result: Result<(String, Vec<LibsqlValue>), FilterError>,
)
    requires
        call_ensures(filter_params, (&params,), bound),
        call_ensures(
            LibsqlSearchFilterExpr::render,
            (&LibsqlSearchFilterExpr::Raw { condition, params },),
            result,
        ),
    ensures
        result is Ok <==> bound is Ok,
        result matches Ok((text, values)) ==> text@ == condition@ && sql_views(values@)
            == sql_views(bound->Ok_0@),
{
    assert(clause_result(result) == rendered(LibsqlSearchFilterExpr::Raw { condition, params }));
    assert(params_result(bound) == json_params(params@));
}

/// Values are bound one by one and in their order: one value more is one parameter more.
pub proof fn law_values_are_bound_one_by_one(
    values: Vec<JsonValue>,
    more: Vec<JsonValue>,
    value: JsonValue,
    params: Result<Vec<LibsqlValue>, FilterError>,
    longer: Result<Vec<LibsqlValue>, FilterError>,
    param: Result<LibsqlValue, FilterError>,
)
    requires
        more@ == values@.push(value),
        call_ensures(filter_params, (&values,), params),
        call_ensures(filter_params, (&more,), longer),
        call_ensures(filter_param, (&value,), param),
    ensures
        values@.len() == 0 ==> (params matches Ok(none) && none@.len() == 0),
        longer is Ok <==> params is Ok && param is Ok,
        longer is Ok ==> sql_views(longer->Ok_0@) == sql_views(params->Ok_0@).push(
            param->Ok_0@,
        ),
{
    assert(more@.drop_last() =~= values@);
    assert(params_result(params) == json_params(values@));
    assert(params_result(longer) == json_params(more@));
    if let Ok(none) = params {
        assert(sql_views(none@).len() == none@.len());
    }
    assert(param_result(param) == json_param(value));
}

/// A combination is rendered just where its parts are, and binds what they bind, the left part's
/// parameters before the right part's.
pub proof fn law_combinations_bind_what_their_parts_bind(
    a: LibsqlSearchFilterExpr,
    b: LibsqlSearchFilterExpr,
    left: Result<(String, Vec<LibsqlValue>), FilterError>,
    right: Result<(String, Vec<LibsqlValue>), FilterError>,
    joint: Result<(String, Vec<LibsqlValue>), FilterError>,
    alternative: Result<(String, Vec<LibsqlValue>), FilterError>,
    negated: Result<(String, Vec<LibsqlValue>), FilterError>,
)
    requires
        call_ensures(LibsqlSearchFilterExpr::render, (&a,), left),
        call_ensures(LibsqlSearchFilterExpr::render, (&b,), right),
        call_ensures(
            LibsqlSearchFilterExpr::render,
            (&LibsqlSearchFilterExpr::And(Box::new(a), Box::new(b)),),
            joint,
        ),
        call_ensures(
            LibsqlSearchFilterExpr::render,
            (&LibsqlSearchFilterExpr::Or(Box::new(a), Box::new(b)),),
            alternative,
        ),
        call_ensures(
            LibsqlSearchFilterExpr::render,
            (&LibsqlSearchFilterExpr::Not(Box::new(a)),),
            negated,
        ),
    ensures
        joint is Ok <==> left is Ok && right is Ok,
        alternative is Ok <==> left is Ok && right is Ok,
        negated is Ok <==> left is Ok,
        joint is Ok ==> sql_views(joint->Ok_0.1@) == sql_views(left->Ok_0.1@) + sql_views(
            right->Ok_0.1@,
        ),
        alternative is Ok ==> sql_views(alternative->Ok_0.1@) == sql_views(left->Ok_0.1@)
            + sql_views(right->Ok_0.1@),
        negated is Ok ==> sql_views(negated->Ok_0.1@) == sql_views(left->Ok_0.1@),
        left matches Err(error) ==> joint->Err_0@ == error@ && alternative->Err_0@ == error@
            && negated->Err_0@ == error@,
{
    assert(clause_result(left) == rendered(a));
    assert(clause_result(right) == rendered(b));
    assert(clause_result(joint) == rendered(
        LibsqlSearchFilterExpr::And(Box::new(a), Box::new(b)),
    ));
    assert(clause_result(alternative) == rendered(
        LibsqlSearchFilterExpr::Or(Box::new(a), Box::new(b)),
    ));
    assert(clause_result(negated) == rendered(LibsqlSearchFilterExpr::Not(Box::new(a))));
}

/// What cannot be filtered by is named in full: the key that is refused, or the integer that is
/// too large.
pub proof fn law_refusals_name_the_key_or_the_number(
    key: &str,
    number: serde_json::Number,
    refused: FilterError,
    too_large: FilterError,
)
    requires
        call_ensures(qualify_document_key, (key,), Err::<String, FilterError>(refused)),
        call_ensures(
            filter_param,
            (&JsonValue::Number(number),),
            Err::<LibsqlValue, FilterError>(too_large),
        ),
    ensures
        refused matches FilterError::TypeError(text) && text@ == "`"@ + key@
            + "` is not a supported libSQL document filter key"@,
        too_large matches FilterError::TypeError(text) && text@
            == "libSQL integer filter value `"@ + number_text(number) + "` exceeds i64::MAX"@,
{
    assert(key_result(Err::<String, FilterError>(refused)) == qualified_key(key@));
    assert(param_result(Err::<LibsqlValue, FilterError>(too_large)) == json_param(
        JsonValue::Number(number),
    ));
}

} // verus!
