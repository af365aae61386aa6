use rig_libsql::LibsqlDistanceMetric;

#[test]
fn cosine_score_expression_uses_cosine_distance() {
    let expr = LibsqlDistanceMetric::Cosine.score_expression("?1", "e.embedding");
    assert_eq!(expr, "(1 - vector_distance_cos(?1, e.embedding))");
}

#[test]
fn euclidean_score_expression_uses_l2_distance() {
    let expr = LibsqlDistanceMetric::Euclidean.score_expression("?1", "e.embedding");
    assert_eq!(expr, "(-vector_distance_l2(?1, e.embedding))");
}

#[test]
fn cosine_is_the_default_metric() {
    assert_eq!(LibsqlDistanceMetric::default(), LibsqlDistanceMetric::Cosine);
}

#[test]
fn metrics_name_their_distance_functions() {
    assert_eq!(LibsqlDistanceMetric::Cosine.distance_function(), "vector_distance_cos");
    assert_eq!(LibsqlDistanceMetric::Euclidean.distance_function(), "vector_distance_l2");
}
