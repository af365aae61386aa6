use rig_libsql::error::FilterError;
use rig_libsql::filter::{
    blob_param, filter_param, filter_params, is_plain_identifier, number_param,
    qualify_document_key, LibsqlComparisonOp, LibsqlPatternOp, LibsqlSearchFilterExpr,
};
use rig_libsql::json::JsonValue;
use rig_libsql::value::LibsqlValue;
use rig_libsql::LibsqlSearchFilter;

fn json(value: impl Into<serde_json::Value>) -> JsonValue {
    JsonValue::from_serde(value.into())
}

fn text(value: &str) -> LibsqlValue {
    LibsqlValue::Text(value.to_string())
}

#[test]
fn eq_filter_qualifies_plain_key_with_document_alias() {
    let filter = LibsqlSearchFilter::eq("category", json("docs"));
    let (condition, params) = filter.render().unwrap();
    assert_eq!(condition, "d.category = ?");
    assert_eq!(params, vec![text("docs")]);
}

#[test]
fn json_expression_keys_are_passed_through_qualified() {
    let filter = LibsqlSearchFilter::eq("metadata->>'$.source'", json("docs"));
    let (condition, params) = filter.render().unwrap();
    assert_eq!(condition, "metadata->>'$.source' = ?");
    assert_eq!(params, vec![text("docs")]);
}

#[test]
fn and_or_combine_filters() {
    let filter = LibsqlSearchFilter::gt("priority", json(5))
        .and(LibsqlSearchFilter::lt("priority", json(20)));
    let (condition, params) = filter.render().unwrap();
    assert_eq!(condition, "(d.priority > ?) AND (d.priority < ?)");
    assert_eq!(params, vec![LibsqlValue::Integer(5), LibsqlValue::Integer(20)]);
}

#[test]
fn between_renders_inclusive_range() {
    let filter = LibsqlSearchFilter::between("priority", json(1_i64)..=json(10_i64));
    let (condition, params) = filter.render().unwrap();
    assert_eq!(condition, "d.priority BETWEEN ? AND ?");
    assert_eq!(params, vec![LibsqlValue::Integer(1), LibsqlValue::Integer(10)]);
}

#[test]
fn null_and_pattern_filters_render() {
    let filter = LibsqlSearchFilter::is_null("metadata->>'$.missing'")
        .and(LibsqlSearchFilter::like("title", "%O'Reilly%"));
    let (condition, params) = filter.render().unwrap();
    assert_eq!(condition, "(metadata->>'$.missing' IS NULL) AND (d.title like ?)");
    assert_eq!(params, vec![text("%O'Reilly%")]);
}

#[test]
fn not_filter_negates_clause() {
    let filter = LibsqlSearchFilter::eq("category", json("docs")).not();
    let (condition, params) = filter.render().unwrap();
    assert_eq!(condition, "NOT (d.category = ?)");
    assert_eq!(params, vec![text("docs")]);
}

#[test]
fn filter_param_coerces_json_numbers() {
    assert_eq!(filter_param(&json(42)).unwrap(), LibsqlValue::Integer(42));
    assert!(matches!(filter_param(&json(1.5)).unwrap(), LibsqlValue::Real(_)));
    assert_eq!(filter_param(&json(true)).unwrap(), LibsqlValue::Integer(1));
}

#[test]
fn or_filter_joins_its_sides() {
    let filter = LibsqlSearchFilter::eq("a", json("x")).or(LibsqlSearchFilter::glob("b", "y*"));
    let (condition, params) = filter.render().unwrap();
    assert_eq!(condition, "(d.a = ?) OR (d.b glob ?)");
    assert_eq!(params, vec![text("x"), text("y*")]);
}

#[test]
fn is_not_null_filter_renders() {
    let (condition, params) = LibsqlSearchFilter::is_not_null("title").render().unwrap();
    assert_eq!(condition, "d.title IS NOT NULL");
    assert_eq!(params, Vec::new());
}

#[test]
fn default_filter_is_always_true() {
    let (condition, params) = LibsqlSearchFilter::default().render().unwrap();
    assert_eq!(condition, "1 = 1");
    assert_eq!(params, Vec::new());
}

#[test]
fn nested_filters_keep_their_parameters_in_order() {
    let filter = LibsqlSearchFilter::eq("a", json(1))
        .and(LibsqlSearchFilter::between("b", json(2)..=json(3)).not())
        .or(LibsqlSearchFilter::like("c", "4"));
    let (condition, params) = filter.render().unwrap();
    assert_eq!(
        condition,
        "((d.a = ?) AND (NOT (d.b BETWEEN ? AND ?))) OR (d.c like ?)"
    );
    assert_eq!(
        params,
        vec![
            LibsqlValue::Integer(1),
            LibsqlValue::Integer(2),
            LibsqlValue::Integer(3),
            text("4"),
        ]
    );
    assert_eq!(condition.matches('?').count(), params.len());
}

#[test]
fn comparison_operators_have_their_sql() {
    assert_eq!(LibsqlComparisonOp::Eq.as_sql(), "=");
    assert_eq!(LibsqlComparisonOp::Ne.as_sql(), "!=");
    assert_eq!(LibsqlComparisonOp::Gt.as_sql(), ">");
    assert_eq!(LibsqlComparisonOp::Gte.as_sql(), ">=");
    assert_eq!(LibsqlComparisonOp::Lt.as_sql(), "<");
    assert_eq!(LibsqlComparisonOp::Lte.as_sql(), "<=");
}

#[test]
fn pattern_operators_have_their_sql() {
    assert_eq!(LibsqlPatternOp::Glob.as_sql(), "glob");
    assert_eq!(LibsqlPatternOp::Like.as_sql(), "like");
}

#[test]
fn every_comparison_renders() {
    let expr = LibsqlSearchFilterExpr::Comparison {
        key: "n".to_string(),
        op: LibsqlComparisonOp::Gte,
        value: json(7),
    };
    let (condition, params) = expr.render().unwrap();
    assert_eq!(condition, "d.n >= ?");
    assert_eq!(params, vec![LibsqlValue::Integer(7)]);
}

#[test]
fn raw_conditions_bind_their_parameters() {
    let expr = LibsqlSearchFilterExpr::Raw {
        condition: "d.a = ? OR d.b = ?".to_string(),
        params: vec![json("x"), json(false)],
    };
    let (condition, params) = expr.render().unwrap();
    assert_eq!(condition, "d.a = ? OR d.b = ?");
    assert_eq!(params, vec![text("x"), LibsqlValue::Integer(0)]);
}

#[test]
fn identifiers_start_with_a_letter_or_an_underscore() {
    assert!(is_plain_identifier("_"));
    assert!(is_plain_identifier("a1_B"));
    assert!(!is_plain_identifier(""));
    assert!(!is_plain_identifier("1a"));
    assert!(!is_plain_identifier("a-b"));
    assert!(!is_plain_identifier("größe"));
}

#[test]
fn expressions_are_not_qualified() {
    assert_eq!(qualify_document_key("d.title").unwrap(), "d.title");
    assert_eq!(qualify_document_key("lower(title)").unwrap(), "lower(title)");
    assert_eq!(qualify_document_key("a b").unwrap(), "a b");
    assert_eq!(qualify_document_key("?").unwrap(), "?");
    assert_eq!(qualify_document_key("title").unwrap(), "d.title");
}

#[test]
fn json_expressions_are_not_qualified() {
    for key in vec![
        "metadata->>'source'",
        "metadata->'tags'",
        "tags->>0",
        "metadata->>'$.source'",
    ] {
        assert_eq!(qualify_document_key(key).unwrap(), key);
        let (condition, params) = LibsqlSearchFilter::eq(key, json("docs")).render().unwrap();
        assert_eq!(condition, format!("{} = ?", key));
        assert_eq!(params, vec![text("docs")]);
    }
    assert!(qualify_document_key("a>b").is_err());
    assert!(qualify_document_key("a>-b").is_err());
}

#[test]
fn other_keys_are_refused() {
    assert_eq!(
        qualify_document_key("a-b"),
        Err(FilterError::TypeError(
            "`a-b` is not a supported libSQL document filter key".to_string()
        ))
    );
    assert_eq!(
        qualify_document_key(""),
        Err(FilterError::TypeError(
            "`` is not a supported libSQL document filter key".to_string()
        ))
    );
}

#[test]
fn a_bad_key_counts_before_a_bad_value() {
    let filter = LibsqlSearchFilter::eq("a-b", json(u64::MAX));
    assert_eq!(
        filter.render(),
        Err(FilterError::TypeError(
            "`a-b` is not a supported libSQL document filter key".to_string()
        ))
    );
}

#[test]
fn the_first_error_of_a_combination_counts() {
    let filter = LibsqlSearchFilter::eq("a", json(u64::MAX))
        .and(LibsqlSearchFilter::is_null("a-b"));
    assert_eq!(
        filter.render(),
        Err(FilterError::TypeError(
            "libSQL integer filter value `18446744073709551615` exceeds i64::MAX".to_string()
        ))
    );
}

#[test]
fn integers_past_i64_are_refused() {
    assert_eq!(
        filter_param(&json(u64::MAX)),
        Err(FilterError::TypeError(
            "libSQL integer filter value `18446744073709551615` exceeds i64::MAX".to_string()
        ))
    );
    assert_eq!(filter_param(&json(i64::MAX)).unwrap(), LibsqlValue::Integer(i64::MAX));
    assert_eq!(filter_param(&json(i64::MIN)).unwrap(), LibsqlValue::Integer(i64::MIN));
}

#[test]
fn scalars_are_bound_as_themselves() {
    assert_eq!(filter_param(&JsonValue::Null).unwrap(), LibsqlValue::Null);
    assert_eq!(filter_param(&json(false)).unwrap(), LibsqlValue::Integer(0));
    assert_eq!(filter_param(&json("x")).unwrap(), text("x"));
    assert_eq!(
        filter_param(&json(1.5)).unwrap(),
        LibsqlValue::Real(1.5f64.to_bits())
    );
}

#[test]
fn arrays_and_objects_are_bound_as_their_json() {
    let array = serde_json::Value::from(vec![1, 2]);
    assert_eq!(
        filter_param(&json(array)).unwrap(),
        LibsqlValue::Blob(b"[1,2]".to_vec())
    );
    let mut object = serde_json::Map::new();
    object.insert("k".to_string(), serde_json::Value::from("v"));
    assert_eq!(
        filter_param(&json(object)).unwrap(),
        LibsqlValue::Blob(b"{\"k\":\"v\"}".to_vec())
    );
}

#[test]
fn numbers_are_bound_by_their_first_reading() {
    let digits = || "9".to_string();
    assert_eq!(
        number_param(Some(9), Some(9), Some(0), digits()).unwrap(),
        LibsqlValue::Integer(9)
    );
    assert_eq!(
        number_param(None, Some(9), Some(0), digits()).unwrap(),
        LibsqlValue::Integer(9)
    );
    assert_eq!(
        number_param(None, None, Some(4), digits()).unwrap(),
        LibsqlValue::Real(4)
    );
    assert_eq!(number_param(None, None, None, digits()).unwrap(), text("9"));
    assert_eq!(
        number_param(None, Some(1 << 63), None, digits()),
        Err(FilterError::TypeError(
            "libSQL integer filter value `9` exceeds i64::MAX".to_string()
        ))
    );
}

#[test]
fn json_that_cannot_be_serialized_is_refused() {
    assert_eq!(
        blob_param(Err("key must be a string".to_string())),
        Err(FilterError::Serialization("key must be a string".to_string()))
    );
    assert_eq!(blob_param(Ok(vec![1, 2])).unwrap(), LibsqlValue::Blob(vec![1, 2]));
}

#[test]
fn parameters_are_bound_up_to_the_first_error() {
    assert_eq!(
        filter_params(&vec![json(1), json("x")]).unwrap(),
        vec![LibsqlValue::Integer(1), text("x")]
    );
    assert!(filter_params(&vec![json(1), json(u64::MAX), json(2)]).is_err());
    assert_eq!(filter_params(&Vec::new()).unwrap(), Vec::new());
}

#[test]
fn copies_render_like_the_filter() {
    let mut object = serde_json::Map::new();
    object.insert("k".to_string(), serde_json::Value::from(vec![1.5]));
    let filter = LibsqlSearchFilter::eq("a", json(object))
        .and(LibsqlSearchFilter::between("b", json(1)..=json("x")).not())
        .or(LibsqlSearchFilter::is_not_null("c").and(LibsqlSearchFilter::glob("d", "e*")))
        .or(LibsqlSearchFilter {
            expr: LibsqlSearchFilterExpr::Raw {
                condition: "f = ? OR g = ?".to_string(),
                params: vec![json(vec![1, 2]), json(true)],
            },
        });
    let copy = filter.clone();
    assert_eq!(copy.render(), filter.render());
    assert_eq!(format!("{:?}", copy), format!("{:?}", filter));
}

#[test]
fn json_values_are_copied() {
    let mut object = serde_json::Map::new();
    object.insert("k".to_string(), serde_json::Value::Null);
    for value in vec![
        JsonValue::Null,
        json(false),
        json(-1.25),
        json("x"),
        json(vec!["a", "b"]),
        json(object),
    ] {
        assert_eq!(value.clone(), value);
    }
}

#[test]
fn only_large_integers_are_refused() {
    assert!(filter_param(&json(i64::MAX as u64 + 1)).is_err());
    for value in vec![json(i64::MAX as u64), json(1e300), json(Vec::<i32>::new()), json("")] {
        assert!(filter_param(&value).is_ok());
    }
}
