//! Search filters, and the SQL predicates that they are rendered as.

use core::ops::RangeInclusive;

use vstd::prelude::*;
use vstd::string::*;

use crate::error::{FilterError, FilterErrorView};
use crate::json::{
    array_bytes, array_to_vec, json_error_to_text, number_as_i64, number_as_real,
    number_as_u64, number_i64, number_real, number_text, number_to_text, number_u64, object_bytes,
    object_to_vec, same_json, JsonValue,
};
use crate::placeholder::{lemma_no_marks, lemma_placeholders_add, marks_before, placeholders};
use crate::text::{chars_of, contains_text, has_char, has_text};
use crate::value::{sql_views, LibsqlValue, SqlView};

verus! {

/// `RangeInclusive::into_inner`: the two bounds of a range that has not been iterated to its
/// end. What it gives of one that has is left open.
pub assume_specification<Idx>[ RangeInclusive::<Idx>::into_inner ](
    range: RangeInclusive<Idx>,
) -> (bounds: (Idx, Idx))
    ensures
        !range@.exhausted ==> bounds == (range@.start, range@.end),
;

/// Search filter for libSQL vector searches.
///
/// Because libSQL's `vector_top_k` cannot apply arbitrary predicates during
/// candidate retrieval, every filter expression is rendered as a document-table
/// predicate and applied after candidate search (an exhaustive candidate limit
/// is used so results stay correct). Keys may reference plain columns
/// (`category`) or SQLite JSON expressions (`metadata->>'$.source'`).
#[derive(Debug)]
pub struct LibsqlSearchFilter {
    pub expr: LibsqlSearchFilterExpr,
}

/// What a filter asks for.
#[derive(Debug)]
pub enum LibsqlSearchFilterExpr {
    Comparison { key: String, op: LibsqlComparisonOp, value: JsonValue },
    And(Box<LibsqlSearchFilterExpr>, Box<LibsqlSearchFilterExpr>),
    Or(Box<LibsqlSearchFilterExpr>, Box<LibsqlSearchFilterExpr>),
    Not(Box<LibsqlSearchFilterExpr>),
    Between { key: String, lo: JsonValue, hi: JsonValue },
    NullCheck { key: String, negated: bool },
    Pattern { key: String, op: LibsqlPatternOp, pattern: String },
    Raw { condition: String, params: Vec<JsonValue> },
}

#[derive(Clone, Copy, Debug, PartialEq, Eq, Structural)]
pub enum LibsqlComparisonOp {
    Eq,
    Ne,
    Gt,
    Gte,
    Lt,
    Lte,
}

/// The SQL operator of a comparison.
pub open spec fn comparison_sql(op: LibsqlComparisonOp) -> Seq<char> {
    match op {
        LibsqlComparisonOp::Eq => "="@,
        LibsqlComparisonOp::Ne => "!="@,
        LibsqlComparisonOp::Gt => ">"@,
        LibsqlComparisonOp::Gte => ">="@,
        LibsqlComparisonOp::Lt => "<"@,
        LibsqlComparisonOp::Lte => "<="@,
    }
}

impl LibsqlComparisonOp {
    pub fn as_sql(self) -> (sql: &'static str)
        ensures
            sql@ == comparison_sql(self),
    {
        match self {
            Self::Eq => "=",
            Self::Ne => "!=",
            Self::Gt => ">",
            Self::Gte => ">=",
            Self::Lt => "<",
            Self::Lte => "<=",
        }
    }
}

#[derive(Clone, Copy, Debug, PartialEq, Eq, Structural)]
pub enum LibsqlPatternOp {
    Glob,
    Like,
}

/// The SQL operator of a pattern match.
pub open spec fn pattern_sql(op: LibsqlPatternOp) -> Seq<char> {
    match op {
        LibsqlPatternOp::Glob => "glob"@,
        LibsqlPatternOp::Like => "like"@,
    }
}

impl LibsqlPatternOp {
    pub fn as_sql(self) -> (sql: &'static str)
        ensures
            sql@ == pattern_sql(self),
    {
        match self {
            Self::Glob => "glob",
            Self::Like => "like",
        }
    }
}

/// An SQL condition and the parameters of its placeholders, in their order.
#[verifier::ext_equal]
pub struct ClauseView {
    pub condition: Seq<char>,
    pub params: Seq<SqlView>,
}

/// A rendered condition, by its view.
pub open spec fn clause_result(
    result: Result<(String, Vec<LibsqlValue>), FilterError>,
) -> Result<ClauseView, FilterErrorView> {
    match result {
        Ok((condition, params)) => Ok(
            ClauseView { condition: condition@, params: sql_views(params@) },
        ),
        Err(error) => Err(error@),
    }
}

/// A letter of the ASCII alphabet or an underscore.
pub open spec fn starts_identifier(c: char) -> bool {
    c == '_' || 'a' <= c <= 'z' || 'A' <= c <= 'Z'
}

/// An underscore, a letter of the ASCII alphabet or a decimal digit.
pub open spec fn continues_identifier(c: char) -> bool {
    starts_identifier(c) || '0' <= c <= '9'
}

/// Whether the key is an identifier: it starts like one and goes on like one.
pub open spec fn plain_identifier(key: Seq<char>) -> bool {
    &&& key.len() > 0
    &&& starts_identifier(key[0])
    &&& forall|i: int| 1 <= i < key.len() ==> continues_identifier(#[trigger] key[i])
}

/// Whether the key stands for itself: it is qualified, or an expression. A JSON expression
/// shows by its operator, `->` or `->>`.
pub open spec fn is_expression(key: Seq<char>) -> bool {
    key.contains('.') || key.contains('(') || key.contains(' ') || key.contains('?')
        || contains_text(key, "->"@)
}

/// The key as it stands in a condition on the document table `d`.
pub open spec fn qualified_key(key: Seq<char>) -> Result<Seq<char>, FilterErrorView> {
    if is_expression(key) {
        Ok(key)
    } else if plain_identifier(key) {
        Ok("d."@ + key)
    } else {
        Err(
            FilterErrorView::TypeError(
                "`"@ + key + "` is not a supported libSQL document filter key"@,
            ),
        )
    }
}

/// The parameter that a number is bound as, from its readings: an integer where it
/// is an `i64`, an error where it is a `u64` past that, else a real, else its text.
pub open spec fn chosen_number(
    as_i64: Option<i64>,
    as_u64: Option<u64>,
    as_real: Option<u64>,
    text: Seq<char>,
) -> Result<SqlView, FilterErrorView> {
    match (as_i64, as_u64, as_real) {
        (Some(i), _, _) => Ok(SqlView::Integer(i)),
        (None, Some(u), _) => if u <= i64::MAX {
            Ok(SqlView::Integer(u as i64))
        } else {
            Err(
                FilterErrorView::TypeError(
                    "libSQL integer filter value `"@ + text + "` exceeds i64::MAX"@,
                ),
            )
        },
        (None, None, Some(bits)) => Ok(SqlView::Real(bits)),
        (None, None, None) => Ok(SqlView::Text(text)),
    }
}

/// The parameter that serialized JSON is bound as: its bytes, or the error.
pub open spec fn chosen_blob(outcome: Result<Seq<u8>, Seq<char>>) -> Result<
    SqlView,
    FilterErrorView,
> {
    match outcome {
        Ok(bytes) => Ok(SqlView::Blob(bytes)),
        Err(complaint) => Err(FilterErrorView::Serialization(complaint)),
    }
}

/// The parameter that a JSON value is bound as.
pub open spec fn json_param(value: JsonValue) -> Result<SqlView, FilterErrorView> {
    match value {
        JsonValue::Null => Ok(SqlView::Null),
        JsonValue::Bool(b) => Ok(
            SqlView::Integer(
                if b {
                    1
                } else {
                    0
                },
            ),
        ),
        JsonValue::String(s) => Ok(SqlView::Text(s@)),
        JsonValue::Number(n) => chosen_number(
            number_i64(n),
            number_u64(n),
            number_real(n),
            number_text(n),
        ),
        JsonValue::Array(items) => Ok(SqlView::Blob(array_bytes(items@))),
        JsonValue::Object(object) => Ok(SqlView::Blob(object_bytes(object))),
    }
}

/// The parameters that JSON values are bound as, or the first error among them.
pub open spec fn json_params(values: Seq<JsonValue>) -> Result<Seq<SqlView>, FilterErrorView>
    decreases values.len(),
{
    if values.len() == 0 {
        Ok(Seq::empty())
    } else {
        match json_params(values.drop_last()) {
            Err(error) => Err(error),
            Ok(params) => match json_param(values.last()) {
                Err(error) => Err(error),
                Ok(param) => Ok(params.push(param)),
            },
        }
    }
}

/// Two clauses joined by a word, each in parentheses, their parameters in the same
/// order. The first error counts.
pub open spec fn combined(
    left: Result<ClauseView, FilterErrorView>,
    word: Seq<char>,
    right: Result<ClauseView, FilterErrorView>,
) -> Result<ClauseView, FilterErrorView> {
    match (left, right) {
        (Err(error), _) => Err(error),
        (Ok(_), Err(error)) => Err(error),
        (Ok(l), Ok(r)) => Ok(
            ClauseView {
                condition: "("@ + l.condition + word + r.condition + ")"@,
                params: l.params + r.params,
            },
        ),
    }
}

/// The clause `condition`, built from a key, with its parameters. An error in the
/// key counts before one in a parameter.
pub open spec fn keyed(
    key: Seq<char>,
    rest: Seq<char>,
    params: Result<Seq<SqlView>, FilterErrorView>,
) -> Result<ClauseView, FilterErrorView> {
    match (qualified_key(key), params) {
        (Err(error), _) => Err(error),
        (Ok(_), Err(error)) => Err(error),
        (Ok(qualified), Ok(p)) => Ok(ClauseView { condition: qualified + rest, params: p }),
    }
}

/// The clause that a filter expression is rendered as.
pub open spec fn rendered(expr: LibsqlSearchFilterExpr) -> Result<ClauseView, FilterErrorView>
    decreases expr,
{
    match expr {
        LibsqlSearchFilterExpr::Comparison { key, op, value } => keyed(
            key@,
            " "@ + comparison_sql(op) + " ?"@,
            json_params(seq![value]),
        ),
        LibsqlSearchFilterExpr::And(lhs, rhs) => combined(
            rendered(*lhs),
            ") AND ("@,
            rendered(*rhs),
        ),
        LibsqlSearchFilterExpr::Or(lhs, rhs) => combined(rendered(*lhs), ") OR ("@, rendered(*rhs)),
        LibsqlSearchFilterExpr::Not(inner) => match rendered(*inner) {
            Err(error) => Err(error),
            Ok(clause) => Ok(
                ClauseView {
                    condition: "NOT ("@ + clause.condition + ")"@,
                    params: clause.params,
                },
            ),
        },
        LibsqlSearchFilterExpr::Between { key, lo, hi } => keyed(
            key@,
            " BETWEEN ? AND ?"@,
            json_params(seq![lo, hi]),
        ),
        LibsqlSearchFilterExpr::NullCheck { key, negated } => keyed(
            key@,
            if negated {
                " IS NOT NULL"@
            } else {
                " IS NULL"@
            },
            Ok(Seq::empty()),
        ),
        LibsqlSearchFilterExpr::Pattern { key, op, pattern } => keyed(
            key@,
            " "@ + pattern_sql(op) + " ?"@,
            Ok(seq![SqlView::Text(pattern@)]),
        ),
        LibsqlSearchFilterExpr::Raw { condition, params } => match json_params(params@) {
            Err(error) => Err(error),
            Ok(p) => Ok(ClauseView { condition: condition@, params: p }),
        },
    }
}

/// Whether the character is a letter or an underscore.
fn identifier_start(c: char) -> (starts: bool)
    ensures
        starts == starts_identifier(c),
{
    c == '_' || ('a' <= c && c <= 'z') || ('A' <= c && c <= 'Z')
}

pub fn is_plain_identifier(key: &str) -> (plain: bool)
    ensures
        plain == plain_identifier(key@),
{
    let chars = chars_of(key);
    if chars.len() == 0 || !identifier_start(chars[0]) {
        return false;
    }
    let mut i: usize = 1;
    while i < chars.len()
        invariant
            1 <= i <= chars.len(),
            chars@ == key@,
            forall|j: int| 1 <= j < i ==> continues_identifier(#[trigger] chars@[j]),
        decreases chars.len() - i,
    {
        let c = chars[i];
        if !(identifier_start(c) || ('0' <= c && c <= '9')) {
            assert(!continues_identifier(key@[i as int]));
            return false;
        }
        i += 1;
    }
    true
}

/// A qualified key, by its view.
pub open spec fn key_result(result: Result<String, FilterError>) -> Result<
    Seq<char>,
    FilterErrorView,
> {
    match result {
        Ok(key) => Ok(key@),
        Err(error) => Err(error@),
    }
}

/// Qualifies a key with the `d.` document-table alias unless the caller already
/// qualified it or supplied a JSON/function expression.
pub fn qualify_document_key(key: &str) -> (qualified: Result<String, FilterError>)
    ensures
        key_result(qualified) == qualified_key(key@),
{
    if has_char(key, '.') || has_char(key, '(') || has_char(key, ' ') || has_char(key, '?')
        || has_text(&chars_of(key), "->") {
        return Ok(key.to_owned());
    }
    if !is_plain_identifier(key) {
        let mut message = "`".to_owned();
        message.append(key);
        message.append("` is not a supported libSQL document filter key");
        return Err(FilterError::TypeError(message));
    }
    let mut qualified = "d.".to_owned();
    qualified.append(key);
    Ok(qualified)
}

/// A parameter, by its view.
pub open spec fn param_result(result: Result<LibsqlValue, FilterError>) -> Result<
    SqlView,
    FilterErrorView,
> {
    match result {
        Ok(value) => Ok(value@),
        Err(error) => Err(error@),
    }
}

/// The parameter that a JSON value is bound as: booleans as 0 and 1, numbers as
/// integers where they are, arrays and objects as the bytes of their JSON.
pub fn filter_param(value: &JsonValue) -> (param: Result<LibsqlValue, FilterError>)
    ensures
        param_result(param) == json_param(*value),
{
    match value {
        JsonValue::Null => Ok(LibsqlValue::Null),
        JsonValue::Bool(b) => Ok(
            LibsqlValue::Integer(
                if *b {
                    1
                } else {
                    0
                },
            ),
        ),
        JsonValue::String(s) => Ok(LibsqlValue::Text(s.clone())),
        JsonValue::Number(n) => number_param(
            number_as_i64(n),
            number_as_u64(n),
            number_as_real(n),
            number_to_text(n),
        ),
        JsonValue::Array(items) => {
            let outcome = match array_to_vec(items) {
                Ok(bytes) => Ok(bytes),
                Err(error) => Err(json_error_to_text(&error)),
            };
            blob_param(outcome)
        },
        JsonValue::Object(object) => {
            let outcome = match object_to_vec(object) {
                Ok(bytes) => Ok(bytes),
                Err(error) => Err(json_error_to_text(&error)),
            };
            blob_param(outcome)
        },
    }
}

/// The parameter that a number is bound as, from its readings as an `i64`, as a
/// `u64` and as a double, and from its text.
pub fn number_param(
    as_i64: Option<i64>,
    as_u64: Option<u64>,
    as_real: Option<u64>,
    text: String,
) -> (param: Result<LibsqlValue, FilterError>)
    ensures
        param_result(param) == chosen_number(as_i64, as_u64, as_real, text@),
{
    if let Some(i) = as_i64 {
        Ok(LibsqlValue::Integer(i))
    } else if let Some(u) = as_u64 {
        if u <= i64::MAX as u64 {
            Ok(LibsqlValue::Integer(u as i64))
        } else {
            let mut message = "libSQL integer filter value `".to_owned();
            message.append(text.as_str());
            message.append("` exceeds i64::MAX");
            Err(FilterError::TypeError(message))
        }
    } else if let Some(bits) = as_real {
        Ok(LibsqlValue::Real(bits))
    } else {
        Ok(LibsqlValue::Text(text))
    }
}

/// The parameter that serialized JSON is bound as.
pub fn blob_param(outcome: Result<Vec<u8>, String>) -> (param: Result<LibsqlValue, FilterError>)
    ensures
        match outcome {
            Ok(bytes) => param_result(param) == chosen_blob(Ok(bytes@)),
            Err(complaint) => param_result(param) == chosen_blob(Err(complaint@)),
        },
{
    match outcome {
        Ok(bytes) => Ok(LibsqlValue::Blob(bytes)),
        Err(complaint) => Err(FilterError::Serialization(complaint)),
    }
}

/// Parameters, by their views.
pub open spec fn params_result(result: Result<Vec<LibsqlValue>, FilterError>) -> Result<
    Seq<SqlView>,
    FilterErrorView,
> {
    match result {
        Ok(values) => Ok(sql_views(values@)),
        Err(error) => Err(error@),
    }
}

proof fn lemma_prefix_error(values: Seq<JsonValue>, count: int)
    requires
        0 <= count <= values.len(),
        json_params(values.take(count)) is Err,
    ensures
        json_params(values) is Err,
        json_params(values)->Err_0 == json_params(values.take(count))->Err_0,
    decreases values.len() - count,
{
    if count < values.len() {
        assert(values.take(count + 1).drop_last() =~= values.take(count));
        lemma_prefix_error(values, count + 1);
    } else {
        assert(values.take(count) =~= values);
    }
}

/// The parameters that JSON values are bound as.
pub fn filter_params(values: &Vec<JsonValue>) -> (params: Result<Vec<LibsqlValue>, FilterError>)
    ensures
        params_result(params) == json_params(values@),
{
    let mut params: Vec<LibsqlValue> = Vec::new();
    let mut i: usize = 0;
    assert(sql_views(params@) =~= Seq::empty());
    while i < values.len()
        invariant
            i <= values.len(),
            json_params(values@.take(i as int)) == Ok::<Seq<SqlView>, FilterErrorView>(
                sql_views(params@),
            ),
        decreases values.len() - i,
    {
        proof {
            assert(values@.take(i + 1).drop_last() =~= values@.take(i as int));
        }
        match filter_param(&values[i]) {
            Ok(param) => {
                let ghost before = params@;
                params.push(param);
                assert(sql_views(params@) =~= sql_views(before).push(param@));
            },
            Err(error) => {
                proof {
                    lemma_prefix_error(values@, i + 1);
                }
                return Err(error);
            },
        }
        i += 1;
    }
    assert(values@.take(i as int) =~= values@);
    Ok(params)
}

/// The parameters of one value.
pub proof fn lemma_one_param(value: JsonValue)
    ensures
        json_params(seq![value]) == match json_param(value) {
            Ok(param) => Ok::<Seq<SqlView>, FilterErrorView>(seq![param]),
            Err(error) => Err(error),
        },
{
    assert(seq![value].drop_last() =~= Seq::empty());
    assert(json_params(Seq::<JsonValue>::empty()) == Ok::<Seq<SqlView>, FilterErrorView>(
        Seq::empty(),
    ));
    if let Ok(param) = json_param(value) {
        assert(Seq::<SqlView>::empty().push(param) =~= seq![param]);
    }
}

/// The parameters of two values.
pub proof fn lemma_two_params(first: JsonValue, second: JsonValue)
    ensures
        json_params(seq![first, second]) == match (json_param(first), json_param(second)) {
            (Err(error), _) => Err::<Seq<SqlView>, FilterErrorView>(error),
            (Ok(_), Err(error)) => Err(error),
            (Ok(p), Ok(q)) => Ok(seq![p, q]),
        },
{
    lemma_one_param(first);
    assert(seq![first, second].drop_last() =~= seq![first]);
    if let (Ok(p), Ok(q)) = (json_param(first), json_param(second)) {
        assert(seq![p].push(q) =~= seq![p, q]);
    }
}

impl LibsqlSearchFilterExpr {
    /// The SQL condition of the expression and the parameters of its placeholders.
    pub fn render(&self) -> (clause: Result<(String, Vec<LibsqlValue>), FilterError>)
        ensures
            clause_result(clause) == rendered(*self),
        decreases self,
    {
        match self {
            Self::Comparison { key, op, value } => {
                proof {
                    lemma_one_param(*value);
                }
                let qualified = qualify_document_key(key.as_str())?;
                let mut condition = qualified.clone();
                condition.append(" ");
                condition.append(op.as_sql());
                condition.append(" ?");
                assert(condition@ =~= qualified@ + (" "@ + comparison_sql(*op) + " ?"@));
                let param = filter_param(value)?;
                let params = vec![param];
                assert(sql_views(params@) =~= seq![param@]);
                Ok((condition, params))
            },
            Self::And(lhs, rhs) => {
                let (l_condition, mut l_params) = lhs.render()?;
                let (r_condition, mut r_params) = rhs.render()?;
                let ghost left = sql_views(l_params@);
                let ghost right = sql_views(r_params@);
                l_params.append(&mut r_params);
                assert(sql_views(l_params@) =~= left + right);
                let mut condition = "(".to_owned();
                condition.append(l_condition.as_str());
                condition.append(") AND (");
                condition.append(r_condition.as_str());
                condition.append(")");
                Ok((condition, l_params))
            },
            Self::Or(lhs, rhs) => {
                let (l_condition, mut l_params) = lhs.render()?;
                let (r_condition, mut r_params) = rhs.render()?;
                let ghost left = sql_views(l_params@);
                let ghost right = sql_views(r_params@);
                l_params.append(&mut r_params);
                assert(sql_views(l_params@) =~= left + right);
                let mut condition = "(".to_owned();
                condition.append(l_condition.as_str());
                condition.append(") OR (");
                condition.append(r_condition.as_str());
                condition.append(")");
                Ok((condition, l_params))
            },
            Self::Not(inner) => {
                let (inner_condition, params) = inner.render()?;
                let mut condition = "NOT (".to_owned();
                condition.append(inner_condition.as_str());
                condition.append(")");
                Ok((condition, params))
            },
            Self::Between { key, lo, hi } => {
                proof {
                    lemma_two_params(*lo, *hi);
                }
                let mut condition = qualify_document_key(key.as_str())?;
                condition.append(" BETWEEN ? AND ?");
                let lower = filter_param(lo)?;
                let upper = filter_param(hi)?;
                let params = vec![lower, upper];
                assert(sql_views(params@) =~= seq![lower@, upper@]);
                Ok((condition, params))
            },
            Self::NullCheck { key, negated } => {
                let mut condition = qualify_document_key(key.as_str())?;
                if *negated {
                    condition.append(" IS NOT NULL");
                } else {
                    condition.append(" IS NULL");
                }
                let params: Vec<LibsqlValue> = Vec::new();
                assert(sql_views(params@) =~= Seq::empty());
                Ok((condition, params))
            },
            Self::Pattern { key, op, pattern } => {
                let qualified = qualify_document_key(key.as_str())?;
                let mut condition = qualified.clone();
                condition.append(" ");
                condition.append(op.as_sql());
                condition.append(" ?");
                assert(condition@ =~= qualified@ + (" "@ + pattern_sql(*op) + " ?"@));
                let params = vec![LibsqlValue::Text(pattern.clone())];
                assert(sql_views(params@) =~= seq![SqlView::Text(pattern@)]);
                Ok((condition, params))
            },
            Self::Raw { condition, params } => {
                let bound = filter_params(params)?;
                Ok((condition.clone(), bound))
            },
        }
    }
}

impl LibsqlSearchFilter {
    /// Selects documents whose value at `key` equals `value`.
    pub fn eq(key: &str, value: JsonValue) -> (filter: Self)
        ensures
            compares(filter.expr, key@, LibsqlComparisonOp::Eq, value),
    {
        Self {
            expr: LibsqlSearchFilterExpr::Comparison {
                key: key.to_owned(),
                op: LibsqlComparisonOp::Eq,
                value,
            },
        }
    }

    /// Selects documents whose value at `key` is greater than `value`.
    pub fn gt(key: &str, value: JsonValue) -> (filter: Self)
        ensures
            compares(filter.expr, key@, LibsqlComparisonOp::Gt, value),
    {
        Self {
            expr: LibsqlSearchFilterExpr::Comparison {
                key: key.to_owned(),
                op: LibsqlComparisonOp::Gt,
                value,
            },
        }
    }

    /// Selects documents whose value at `key` is less than `value`.
    pub fn lt(key: &str, value: JsonValue) -> (filter: Self)
        ensures
            compares(filter.expr, key@, LibsqlComparisonOp::Lt, value),
    {
        Self {
            expr: LibsqlSearchFilterExpr::Comparison {
                key: key.to_owned(),
                op: LibsqlComparisonOp::Lt,
                value,
            },
        }
    }

    /// Selects documents that satisfy both filters.
    pub fn and(self, rhs: Self) -> (filter: Self)
        ensures
            filter.expr == LibsqlSearchFilterExpr::And(Box::new(self.expr), Box::new(rhs.expr)),
    {
        Self { expr: LibsqlSearchFilterExpr::And(Box::new(self.expr), Box::new(rhs.expr)) }
    }

    /// Selects documents that satisfy at least one of the filters.
    pub fn or(self, rhs: Self) -> (filter: Self)
        ensures
            filter.expr == LibsqlSearchFilterExpr::Or(Box::new(self.expr), Box::new(rhs.expr)),
    {
        Self { expr: LibsqlSearchFilterExpr::Or(Box::new(self.expr), Box::new(rhs.expr)) }
    }

    /// Negates a filter.
    pub fn not(self) -> (filter: Self)
        ensures
            filter.expr == LibsqlSearchFilterExpr::Not(Box::new(self.expr)),
    {
        Self { expr: LibsqlSearchFilterExpr::Not(Box::new(self.expr)) }
    }

    /// Tests whether the value at `key` is contained in the inclusive range.
    pub fn between(key: &str, range: RangeInclusive<JsonValue>) -> (filter: Self)
        ensures
            filter.expr matches LibsqlSearchFilterExpr::Between { key: k, lo, hi } && k@ == key@
                && (!range@.exhausted ==> lo == range@.start && hi == range@.end),
    {
        let (lo, hi) = range.into_inner();
        Self { expr: LibsqlSearchFilterExpr::Between { key: key.to_owned(), lo, hi } }
    }

    pub fn is_null(key: &str) -> (filter: Self)
        ensures
            filter.expr matches LibsqlSearchFilterExpr::NullCheck { key: k, negated } && k@ == key@
                && !negated,
    {
        Self { expr: LibsqlSearchFilterExpr::NullCheck { key: key.to_owned(), negated: false } }
    }

    pub fn is_not_null(key: &str) -> (filter: Self)
        ensures
            filter.expr matches LibsqlSearchFilterExpr::NullCheck { key: k, negated } && k@ == key@
                && negated,
    {
        Self { expr: LibsqlSearchFilterExpr::NullCheck { key: key.to_owned(), negated: true } }
    }

    /// Tests whether the value at `key` satisfies the `LIKE` pattern.
    pub fn like(key: &str, pattern: &str) -> (filter: Self)
        ensures
            filter.expr matches LibsqlSearchFilterExpr::Pattern { key: k, op, pattern: p } && k@
                == key@ && op == LibsqlPatternOp::Like && p@ == pattern@,
    {
        Self {
            expr: LibsqlSearchFilterExpr::Pattern {
                key: key.to_owned(),
                op: LibsqlPatternOp::Like,
                pattern: pattern.to_owned(),
            },
        }
    }

    /// Tests whether the value at `key` satisfies the `GLOB` pattern.
    pub fn glob(key: &str, pattern: &str) -> (filter: Self)
        ensures
            filter.expr matches LibsqlSearchFilterExpr::Pattern { key: k, op, pattern: p } && k@
                == key@ && op == LibsqlPatternOp::Glob && p@ == pattern@,
    {
        Self {
            expr: LibsqlSearchFilterExpr::Pattern {
                key: key.to_owned(),
                op: LibsqlPatternOp::Glob,
                pattern: pattern.to_owned(),
            },
        }
    }

    /// The SQL condition of the filter and the parameters of its placeholders.
    pub fn render(&self) -> (clause: Result<(String, Vec<LibsqlValue>), FilterError>)
        ensures
            clause_result(clause) == rendered(self.expr),
    {
        self.expr.render()
    }
}

impl Default for LibsqlSearchFilter {
    /// The filter that every document satisfies.
    fn default() -> (filter: Self)
        ensures
            filter.expr matches LibsqlSearchFilterExpr::Raw { condition, params } && condition@
                == "1 = 1"@ && params@.len() == 0,
    {
        Self {
            expr: LibsqlSearchFilterExpr::Raw {
                condition: "1 = 1".to_owned(),
                params: Vec::new(),
            },
        }
    }
}

/// Whether the expression compares the value at `key` with `value`.
pub open spec fn compares(
    expr: LibsqlSearchFilterExpr,
    key: Seq<char>,
    op: LibsqlComparisonOp,
    value: JsonValue,
) -> bool {
    expr matches LibsqlSearchFilterExpr::Comparison { key: k, op: o, value: v } && k@ == key && o
        == op && v == value
}

/// Whether the JSON number is an integer past the largest `i64`.
pub open spec fn is_large_integer(value: JsonValue) -> bool {
    value matches JsonValue::Number(n) && number_i64(n) is None && (
    number_u64(n) matches Some(u) && u > i64::MAX)
}

/// Every JSON value can be bound, but for integers past the largest `i64`.
pub proof fn law_only_large_integers_are_refused(value: JsonValue)
    ensures
        json_param(value) is Err <==> is_large_integer(value),
{
}

/// Whether two filter expressions ask for the same.
pub open spec fn same_expr(a: LibsqlSearchFilterExpr, b: LibsqlSearchFilterExpr) -> bool
    decreases a,
{
    match (a, b) {
        (
            LibsqlSearchFilterExpr::Comparison { key, op, value },
            LibsqlSearchFilterExpr::Comparison { key: k, op: o, value: v },
        ) => key@ == k@ && op == o && same_json(value, v),
        (LibsqlSearchFilterExpr::And(lhs, rhs), LibsqlSearchFilterExpr::And(l, r)) => {
            same_expr(*lhs, *l) && same_expr(*rhs, *r)
        },
        (LibsqlSearchFilterExpr::Or(lhs, rhs), LibsqlSearchFilterExpr::Or(l, r)) => {
            same_expr(*lhs, *l) && same_expr(*rhs, *r)
        },
        (LibsqlSearchFilterExpr::Not(inner), LibsqlSearchFilterExpr::Not(i)) => {
            same_expr(*inner, *i)
        },
        (
            LibsqlSearchFilterExpr::Between { key, lo, hi },
            LibsqlSearchFilterExpr::Between { key: k, lo: l, hi: h },
        ) => key@ == k@ && same_json(lo, l) && same_json(hi, h),
        (
            LibsqlSearchFilterExpr::NullCheck { key, negated },
            LibsqlSearchFilterExpr::NullCheck { key: k, negated: n },
        ) => key@ == k@ && negated == n,
        (
            LibsqlSearchFilterExpr::Pattern { key, op, pattern },
            LibsqlSearchFilterExpr::Pattern { key: k, op: o, pattern: p },
        ) => key@ == k@ && op == o && pattern@ == p@,
        (
            LibsqlSearchFilterExpr::Raw { condition, params },
            LibsqlSearchFilterExpr::Raw { condition: c, params: p },
        ) => condition@ == c@ && same_values(params@, p@),
        _ => false,
    }
}

/// Whether two lists of JSON values are the same.
pub open spec fn same_values(a: Seq<JsonValue>, b: Seq<JsonValue>) -> bool {
    &&& a.len() == b.len()
    &&& forall|i: int| 0 <= i < a.len() ==> same_json(#[trigger] a[i], b[i])
}

fn copied_values(values: &Vec<JsonValue>) -> (copy: Vec<JsonValue>)
    ensures
        same_values(values@, copy@),
{
    let mut copy: Vec<JsonValue> = Vec::new();
    let mut i: usize = 0;
    while i < values.len()
        invariant
            i <= values.len(),
            copy.len() == i,
            forall|k: int| 0 <= k < i ==> same_json(#[trigger] values@[k], copy@[k]),
        decreases values.len() - i,
    {
        copy.push(values[i].clone());
        i += 1;
    }
    copy
}

impl Clone for LibsqlSearchFilterExpr {
    fn clone(&self) -> (copy: Self)
        ensures
            same_expr(*self, copy),
        decreases self,
    {
        match self {
            Self::Comparison { key, op, value } => Self::Comparison {
                key: key.clone(),
                op: *op,
                value: value.clone(),
            },
            Self::And(lhs, rhs) => Self::And(
                Box::new((&**lhs).clone()),
                Box::new((&**rhs).clone()),
            ),
            Self::Or(lhs, rhs) => Self::Or(
                Box::new((&**lhs).clone()),
                Box::new((&**rhs).clone()),
            ),
            Self::Not(inner) => Self::Not(Box::new((&**inner).clone())),
            Self::Between { key, lo, hi } => Self::Between {
                key: key.clone(),
                lo: lo.clone(),
                hi: hi.clone(),
            },
            Self::NullCheck { key, negated } => Self::NullCheck {
                key: key.clone(),
                negated: *negated,
            },
            Self::Pattern { key, op, pattern } => Self::Pattern {
                key: key.clone(),
                op: *op,
                pattern: pattern.clone(),
            },
            Self::Raw { condition, params } => Self::Raw {
                condition: condition.clone(),
                params: copied_values(params),
            },
        }
    }
}

impl Clone for LibsqlSearchFilter {
    fn clone(&self) -> (copy: Self)
        ensures
            same_expr(self.expr, copy.expr),
    {
        LibsqlSearchFilter { expr: self.expr.clone() }
    }
}

proof fn lemma_same_params(a: Seq<JsonValue>, b: Seq<JsonValue>)
    requires
        same_values(a, b),
    ensures
        json_params(a) == json_params(b),
    decreases a.len(),
{
    if a.len() > 0 {
        assert(same_json(a[a.len() - 1], b[b.len() - 1]));
        assert(same_values(a.drop_last(), b.drop_last())) by {
            assert forall|i: int| 0 <= i < a.len() - 1 implies same_json(
                #[trigger] a.drop_last()[i],
                b.drop_last()[i],
            ) by {
                assert(same_json(a[i], b[i]));
            }
        }
        lemma_same_params(a.drop_last(), b.drop_last());
    }
}

/// Filters that ask for the same are rendered alike: a copy of a filter is the filter.
pub proof fn law_same_filters_render_alike(a: LibsqlSearchFilterExpr, b: LibsqlSearchFilterExpr)
    requires
        same_expr(a, b),
    ensures
        rendered(a) == rendered(b),
    decreases a,
{
    match (a, b) {
        (
            LibsqlSearchFilterExpr::Comparison { value, .. },
            LibsqlSearchFilterExpr::Comparison { value: v, .. },
        ) => {
            lemma_same_params(seq![value], seq![v]);
        },
        (LibsqlSearchFilterExpr::And(lhs, rhs), LibsqlSearchFilterExpr::And(l, r)) => {
            law_same_filters_render_alike(*lhs, *l);
            law_same_filters_render_alike(*rhs, *r);
        },
        (LibsqlSearchFilterExpr::Or(lhs, rhs), LibsqlSearchFilterExpr::Or(l, r)) => {
            law_same_filters_render_alike(*lhs, *l);
            law_same_filters_render_alike(*rhs, *r);
        },
        (LibsqlSearchFilterExpr::Not(inner), LibsqlSearchFilterExpr::Not(i)) => {
            law_same_filters_render_alike(*inner, *i);
        },
        (
            LibsqlSearchFilterExpr::Between { lo, hi, .. },
            LibsqlSearchFilterExpr::Between { lo: l, hi: h, .. },
        ) => {
            lemma_same_params(seq![lo, hi], seq![l, h]);
        },
        (
            LibsqlSearchFilterExpr::Raw { params, .. },
            LibsqlSearchFilterExpr::Raw { params: p, .. },
        ) => {
            lemma_same_params(params@, p@);
        },
        _ => {},
    }
}

/// Whether every question mark of the rendered expression is one of its own
/// placeholders: no key holds one, and each raw condition holds as many as it has
/// parameters.
pub open spec fn binds_its_marks(expr: LibsqlSearchFilterExpr) -> bool
    decreases expr,
{
    match expr {
        LibsqlSearchFilterExpr::Comparison { key, .. } => !key@.contains('?'),
        LibsqlSearchFilterExpr::And(lhs, rhs) => binds_its_marks(*lhs) && binds_its_marks(*rhs),
        LibsqlSearchFilterExpr::Or(lhs, rhs) => binds_its_marks(*lhs) && binds_its_marks(*rhs),
        LibsqlSearchFilterExpr::Not(inner) => binds_its_marks(*inner),
        LibsqlSearchFilterExpr::Between { key, .. } => !key@.contains('?'),
        LibsqlSearchFilterExpr::NullCheck { key, .. } => !key@.contains('?'),
        LibsqlSearchFilterExpr::Pattern { key, .. } => !key@.contains('?'),
        LibsqlSearchFilterExpr::Raw { condition, params } => placeholders(condition@)
            == params@.len(),
    }
}

proof fn lemma_params_len(values: Seq<JsonValue>)
    ensures
        json_params(values) matches Ok(params) ==> params.len() == values.len(),
    decreases values.len(),
{
    if values.len() > 0 {
        lemma_params_len(values.drop_last());
    }
}

/// The question marks in the words that conditions are built from.
proof fn lemma_word_marks()
    ensures
        placeholders("d."@) == 0,
        placeholders("("@) == 0,
        placeholders(")"@) == 0,
        placeholders(") AND ("@) == 0,
        placeholders(") OR ("@) == 0,
        placeholders("NOT ("@) == 0,
        placeholders(" "@) == 0,
        placeholders(" ?"@) == 1,
        placeholders(" BETWEEN ? AND ?"@) == 2,
        placeholders(" IS NOT NULL"@) == 0,
        placeholders(" IS NULL"@) == 0,
        forall|op: LibsqlComparisonOp| placeholders(#[trigger] comparison_sql(op)) == 0,
        forall|op: LibsqlPatternOp| placeholders(#[trigger] pattern_sql(op)) == 0,
{
    reveal_with_fuel(marks_before, 20);
    reveal_strlit("d.");
    reveal_strlit("(");
    reveal_strlit(")");
    reveal_strlit(") AND (");
    reveal_strlit(") OR (");
    reveal_strlit("NOT (");
    reveal_strlit(" ");
    reveal_strlit(" ?");
    reveal_strlit(" BETWEEN ? AND ?");
    reveal_strlit(" IS NOT NULL");
    reveal_strlit(" IS NULL");
    reveal_strlit("=");
    reveal_strlit("!=");
    reveal_strlit(">");
    reveal_strlit(">=");
    reveal_strlit("<");
    reveal_strlit("<=");
    reveal_strlit("glob");
    reveal_strlit("like");
    assert forall|op: LibsqlComparisonOp| placeholders(#[trigger] comparison_sql(op)) == 0 by {
        match op {
            LibsqlComparisonOp::Eq => {},
            LibsqlComparisonOp::Ne => {},
            LibsqlComparisonOp::Gt => {},
            LibsqlComparisonOp::Gte => {},
            LibsqlComparisonOp::Lt => {},
            LibsqlComparisonOp::Lte => {},
        }
    }
    assert forall|op: LibsqlPatternOp| placeholders(#[trigger] pattern_sql(op)) == 0 by {
        match op {
            LibsqlPatternOp::Glob => {},
            LibsqlPatternOp::Like => {},
        }
    }
}

proof fn lemma_keyed_marks(
    key: Seq<char>,
    rest: Seq<char>,
    params: Result<Seq<SqlView>, FilterErrorView>,
)
    requires
        !key.contains('?'),
        params matches Ok(p) ==> p.len() == placeholders(rest),
    ensures
        keyed(key, rest, params) matches Ok(clause) ==> placeholders(clause.condition)
            == clause.params.len(),
{
    broadcast use lemma_placeholders_add;

    lemma_word_marks();
    lemma_no_marks(key, key.len() as int);
}

/// A rendered filter has one parameter for each question mark in its condition,
/// where every question mark is its own: no key holds one, and raw conditions hold
/// as many as they have parameters.
pub proof fn law_filter_binds_every_placeholder(expr: LibsqlSearchFilterExpr)
    requires
        binds_its_marks(expr),
    ensures
        rendered(expr) matches Ok(clause) ==> placeholders(clause.condition) == clause.params.len(),
    decreases expr,
{
    broadcast use lemma_placeholders_add;

    lemma_word_marks();
    match expr {
        LibsqlSearchFilterExpr::Comparison { key, op, value } => {
            lemma_params_len(seq![value]);
            lemma_keyed_marks(
                key@,
                " "@ + comparison_sql(op) + " ?"@,
                json_params(seq![value]),
            );
        },
        LibsqlSearchFilterExpr::And(lhs, rhs) => {
            law_filter_binds_every_placeholder(*lhs);
            law_filter_binds_every_placeholder(*rhs);
        },
        LibsqlSearchFilterExpr::Or(lhs, rhs) => {
            law_filter_binds_every_placeholder(*lhs);
            law_filter_binds_every_placeholder(*rhs);
        },
        LibsqlSearchFilterExpr::Not(inner) => {
            law_filter_binds_every_placeholder(*inner);
        },
        LibsqlSearchFilterExpr::Between { key, lo, hi } => {
            lemma_params_len(seq![lo, hi]);
            lemma_keyed_marks(key@, " BETWEEN ? AND ?"@, json_params(seq![lo, hi]));
        },
        LibsqlSearchFilterExpr::NullCheck { key, negated } => {
            let word = if negated {
                " IS NOT NULL"@
            } else {
                " IS NULL"@
            };
            lemma_keyed_marks(key@, word, Ok(Seq::empty()));
        },
        LibsqlSearchFilterExpr::Pattern { key, op, pattern } => {
            lemma_keyed_marks(
                key@,
                " "@ + pattern_sql(op) + " ?"@,
                Ok(seq![SqlView::Text(pattern@)]),
            );
        },
        LibsqlSearchFilterExpr::Raw { condition, params } => {
            lemma_params_len(params@);
        },
    }
}

} // verus!
