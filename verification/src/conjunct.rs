//! The conditions of a search all hold: none of them lets a row past another.

use vstd::prelude::*;
use vstd::string::*;

use crate::error::FilterErrorView;
use crate::filter::{
    comparison_sql, is_expression, json_params, keyed, pattern_sql, rendered, LibsqlComparisonOp,
    LibsqlPatternOp, LibsqlSearchFilterExpr,
};
use crate::nesting::{
    alternative_at, comment_at, enclosed, is_closed, is_flat, is_self_contained, lemma_closed_add,
    lemma_enclosed, lemma_flat_is_closed, lemma_self_contained_add,
};
use crate::query::{binds_weakly, filter_clause, search_filters, threshold_clause};
use crate::value::SqlView;

verus! {

/// Whether no key of the filter holds an `OR` outside of parentheses and quotes, and neither a
/// key nor a raw condition leaves a parenthesis or a quote open or holds a comment.
pub open spec fn keys_stand_alone(expr: LibsqlSearchFilterExpr) -> bool
    decreases expr,
{
    match expr {
        LibsqlSearchFilterExpr::Comparison { key, .. } => is_self_contained(key@),
        LibsqlSearchFilterExpr::And(lhs, rhs) => keys_stand_alone(*lhs) && keys_stand_alone(*rhs),
        LibsqlSearchFilterExpr::Or(lhs, rhs) => keys_stand_alone(*lhs) && keys_stand_alone(*rhs),
        LibsqlSearchFilterExpr::Not(inner) => keys_stand_alone(*inner),
        LibsqlSearchFilterExpr::Between { key, .. } => is_self_contained(key@),
        LibsqlSearchFilterExpr::NullCheck { key, .. } => is_self_contained(key@),
        LibsqlSearchFilterExpr::Pattern { key, .. } => is_self_contained(key@),
        LibsqlSearchFilterExpr::Raw { condition, .. } => is_closed(condition@),
    }
}

/// Whether the text can follow an expression: it starts with a blank and keeps to itself.
pub open spec fn follows(rest: Seq<char>) -> bool {
    &&& is_self_contained(rest)
    &&& rest.len() > 0
    &&& rest[0] == ' '
}

/// A text without quotes, parentheses, comments and alternatives keeps to itself.
proof fn lemma_plain(sql: Seq<char>)
    requires
        is_flat(sql),
        forall|at: int| !#[trigger] comment_at(sql, at),
        forall|at: int| !#[trigger] alternative_at(sql, at),
    ensures
        is_self_contained(sql),
{
    lemma_flat_is_closed(sql);
}

proof fn lemma_keyed(
    key: Seq<char>,
    rest: Seq<char>,
    params: Result<Seq<SqlView>, FilterErrorView>,
)
    requires
        is_self_contained(key),
        follows(rest),
    ensures
        keyed(key, rest, params) matches Ok(clause) ==> is_self_contained(clause.condition),
{
    reveal_strlit("d.");
    if keyed(key, rest, params) is Ok {
        if is_expression(key) {
            lemma_self_contained_add(key, rest);
        } else {
            lemma_plain("d."@);
            lemma_self_contained_add("d."@, key);
            lemma_self_contained_add("d."@ + key, rest);
        }
    }
}

/// What follows a key in a condition.
proof fn lemma_endings()
    ensures
        forall|op: LibsqlComparisonOp|
            #![trigger comparison_sql(op)]
            follows(" "@ + comparison_sql(op) + " ?"@),
        forall|op: LibsqlPatternOp|
            #![trigger pattern_sql(op)]
            follows(" "@ + pattern_sql(op) + " ?"@),
        follows(" BETWEEN ? AND ?"@),
        follows(" IS NOT NULL"@),
        follows(" IS NULL"@),
        follows(" >= ?"@),
{
    reveal_strlit(" ");
    reveal_strlit(" ?");
    reveal_strlit(" BETWEEN ? AND ?");
    reveal_strlit(" IS NOT NULL");
    reveal_strlit(" IS NULL");
    reveal_strlit(" >= ?");
    reveal_strlit("=");
    reveal_strlit("!=");
    reveal_strlit(">");
    reveal_strlit(">=");
    reveal_strlit("<");
    reveal_strlit("<=");
    reveal_strlit("glob");
    reveal_strlit("like");
    assert forall|op: LibsqlComparisonOp|
        #![trigger comparison_sql(op)]
        follows(" "@ + comparison_sql(op) + " ?"@) by {
        let ending = " "@ + comparison_sql(op) + " ?"@;
        match op {
            LibsqlComparisonOp::Eq => {},
            LibsqlComparisonOp::Ne => {},
            LibsqlComparisonOp::Gt => {},
            LibsqlComparisonOp::Gte => {},
            LibsqlComparisonOp::Lt => {},
            LibsqlComparisonOp::Lte => {},
        }
        lemma_plain(ending);
    }
    assert forall|op: LibsqlPatternOp|
        #![trigger pattern_sql(op)]
        follows(" "@ + pattern_sql(op) + " ?"@) by {
        let ending = " "@ + pattern_sql(op) + " ?"@;
        match op {
            LibsqlPatternOp::Glob => {},
            LibsqlPatternOp::Like => {},
        }
        lemma_plain(ending);
    }
    lemma_plain(" BETWEEN ? AND ?"@);
    lemma_plain(" IS NOT NULL"@);
    lemma_plain(" IS NULL"@);
    lemma_plain(" >= ?"@);
}

/// Two conditions in parentheses with a word between them.
proof fn lemma_combined(l: Seq<char>, r: Seq<char>)
    requires
        is_closed(l),
        is_closed(r),
    ensures
        is_self_contained("("@ + l + ") AND ("@ + r + ")"@),
        is_closed("("@ + l + ") OR ("@ + r + ")"@),
{
    reveal_strlit("(");
    reveal_strlit(")");
    reveal_strlit(") AND (");
    reveal_strlit(") OR (");
    reveal_strlit(" AND ");
    reveal_strlit(" OR ");
    let left = enclosed(l);
    let right = enclosed(r);
    lemma_enclosed(l);
    lemma_enclosed(r);
    lemma_plain(" AND "@);
    lemma_self_contained_add(left, " AND "@);
    lemma_self_contained_add(left + " AND "@, right);
    assert("("@ + l + ") AND ("@ + r + ")"@ =~= left + " AND "@ + right);
    lemma_flat_is_closed(" OR "@);
    lemma_closed_add(left, " OR "@);
    lemma_closed_add(left + " OR "@, right);
    assert("("@ + l + ") OR ("@ + r + ")"@ =~= left + " OR "@ + right);
}

proof fn lemma_negated(condition: Seq<char>)
    requires
        is_closed(condition),
    ensures
        is_self_contained("NOT ("@ + condition + ")"@),
{
    reveal_strlit("NOT (");
    reveal_strlit("NOT ");
    reveal_strlit(")");
    lemma_enclosed(condition);
    lemma_plain("NOT "@);
    lemma_self_contained_add("NOT "@, enclosed(condition));
    assert("NOT ("@ + condition + ")"@ =~= "NOT "@ + enclosed(condition));
}

/// What a filter is rendered as closes the parentheses and quotes that it opens, and holds
/// together on its own unless it binds weakly.
pub proof fn lemma_rendered(expr: LibsqlSearchFilterExpr)
    requires
        keys_stand_alone(expr),
    ensures
        rendered(expr) matches Ok(clause) ==> is_closed(clause.condition) && (!binds_weakly(expr)
            ==> is_self_contained(clause.condition)),
    decreases expr,
{
    lemma_endings();
    match expr {
        LibsqlSearchFilterExpr::Comparison { key, op, value } => {
            lemma_keyed(
                key@,
                " "@ + comparison_sql(op) + " ?"@,
                json_params(seq![value]),
            );
        },
        LibsqlSearchFilterExpr::And(lhs, rhs) => {
            lemma_rendered(*lhs);
            lemma_rendered(*rhs);
            if let (Ok(l), Ok(r)) = (rendered(*lhs), rendered(*rhs)) {
                lemma_combined(l.condition, r.condition);
            }
        },
        LibsqlSearchFilterExpr::Or(lhs, rhs) => {
            lemma_rendered(*lhs);
            lemma_rendered(*rhs);
            if let (Ok(l), Ok(r)) = (rendered(*lhs), rendered(*rhs)) {
                lemma_combined(l.condition, r.condition);
            }
        },
        LibsqlSearchFilterExpr::Not(inner) => {
            lemma_rendered(*inner);
            if let Ok(clause) = rendered(*inner) {
                lemma_negated(clause.condition);
            }
        },
        LibsqlSearchFilterExpr::Between { key, lo, hi } => {
            lemma_keyed(key@, " BETWEEN ? AND ?"@, json_params(seq![lo, hi]));
        },
        LibsqlSearchFilterExpr::NullCheck { key, negated } => {
            let ending = if negated {
                " IS NOT NULL"@
            } else {
                " IS NULL"@
            };
            lemma_keyed(key@, ending, Ok(Seq::empty()));
        },
        LibsqlSearchFilterExpr::Pattern { key, op, pattern } => {
            lemma_keyed(
                key@,
                " "@ + pattern_sql(op) + " ?"@,
                Ok(seq![SqlView::Text(pattern@)]),
            );
        },
        LibsqlSearchFilterExpr::Raw { condition, params } => {},
    }
}

/// An expression that keeps to itself, behind an `AND`.
proof fn lemma_added(condition: Seq<char>)
    requires
        is_self_contained(condition),
    ensures
        is_self_contained(" AND "@ + condition),
{
    reveal_strlit(" AND ");
    lemma_plain(" AND "@);
    lemma_self_contained_add(" AND "@, condition);
}

/// Whatever a search adds to the condition that a row is the best of its document, every `OR`
/// in it stands within parentheses or quotes, every parenthesis and quote is closed, and there
/// is no comment. So the rank, the threshold and the filter are joined by `AND` alone, and all
/// of them must hold, where the keys are expressions that hold no `OR` outside of parentheses
/// and quotes, and neither they nor raw conditions leave anything open or hold a comment.
pub proof fn law_search_conditions_all_hold(
    threshold: Option<u64>,
    filter: Option<LibsqlSearchFilterExpr>,
    score_column: Seq<char>,
)
    requires
        is_self_contained(score_column),
        filter matches Some(expr) ==> keys_stand_alone(expr),
    ensures
        search_filters(threshold, filter, score_column) matches Ok(conditions)
            ==> is_self_contained(conditions.document_clause),
{
    if let Ok(conditions) = search_filters(threshold, filter, score_column) {
        let nothing = Seq::<char>::empty();
        lemma_plain(nothing);
        let first = threshold_clause(score_column, threshold).condition;
        if threshold is Some {
            lemma_endings();
            lemma_self_contained_add(score_column, " >= ?"@);
            lemma_added(score_column + " >= ?"@);
            assert(first =~= " AND "@ + (score_column + " >= ?"@));
        }
        let second = filter_clause(filter)->Ok_0.condition;
        if let Some(expr) = filter {
            lemma_rendered(expr);
            let condition = rendered(expr)->Ok_0.condition;
            if binds_weakly(expr) {
                reveal_strlit(" AND ");
                reveal_strlit(" AND (");
                reveal_strlit(")");
                lemma_enclosed(condition);
                lemma_added(enclosed(condition));
                assert(second =~= " AND "@ + enclosed(condition));
            } else {
                lemma_added(condition);
            }
            if threshold is Some {
                reveal_strlit(" AND ");
                lemma_self_contained_add(first, second);
            } else {
                assert(first + second =~= second);
            }
        } else {
            assert(first + second =~= first);
        }
    }
}

} // verus!
