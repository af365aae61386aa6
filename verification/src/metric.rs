//! The distance metrics of a vector search.

use vstd::prelude::*;
use vstd::string::*;

verus! {

/// Distance metric used by libSQL vector searches.
///
/// The metric is applied consistently to candidate scoring, thresholding, and
/// ordering. Returned scores are always higher-is-better: cosine yields
/// similarity (`1 - cosine_distance`), while euclidean yields the negative
/// distance.
#[derive(Clone, Copy, Debug, PartialEq, Eq, Structural)]
pub enum LibsqlDistanceMetric {
    /// Cosine similarity, returned as `1 - vector_distance_cos(a, b)`.
    Cosine,
    /// Negative euclidean (L2) distance: `-vector_distance_l2(a, b)`.
    Euclidean,
}

impl Default for LibsqlDistanceMetric {
    fn default() -> (metric: Self)
        ensures
            metric == LibsqlDistanceMetric::Cosine,
    {
        Self::Cosine
    }
}

/// The SQL function that computes the metric's distance.
pub open spec fn distance_sql(metric: LibsqlDistanceMetric) -> Seq<char> {
    match metric {
        LibsqlDistanceMetric::Cosine => "vector_distance_cos"@,
        LibsqlDistanceMetric::Euclidean => "vector_distance_l2"@,
    }
}

/// The SQL expression of the metric's score: one minus the cosine distance, or
/// the euclidean distance negated.
pub open spec fn score_sql(
    metric: LibsqlDistanceMetric,
    query_param: Seq<char>,
    embedding_expr: Seq<char>,
) -> Seq<char> {
    let opening = match metric {
        LibsqlDistanceMetric::Cosine => "(1 - "@,
        LibsqlDistanceMetric::Euclidean => "(-"@,
    };
    opening + distance_sql(metric) + "("@ + query_param + ", "@ + embedding_expr + "))"@
}

impl LibsqlDistanceMetric {
    pub fn distance_function(self) -> (function: &'static str)
        ensures
            function@ == distance_sql(self),
    {
        match self {
            Self::Cosine => "vector_distance_cos",
            Self::Euclidean => "vector_distance_l2",
        }
    }

    pub fn score_expression(self, query_param: &str, embedding_expr: &str) -> (expression: String)
        ensures
            expression@ == score_sql(self, query_param@, embedding_expr@),
    {
        let mut expression = match self {
            Self::Cosine => "(1 - ".to_owned(),
            Self::Euclidean => "(-".to_owned(),
        };
        expression.append(self.distance_function());
        expression.append("(");
        expression.append(query_param);
        expression.append(", ");
        expression.append(embedding_expr);
        expression.append("))");
        expression
    }
}

} // verus!
