use rig_libsql::column::column_value_to_json;
use rig_libsql::column_value::Double;
use rig_libsql::value::LibsqlValue;
use rig_libsql::{Column, ColumnValue};

struct Celsius(i64);

impl ColumnValue for Celsius {
    fn to_libsql_value(&self) -> LibsqlValue {
        LibsqlValue::Integer(self.0)
    }

    fn column_type(&self) -> &'static str {
        "INTEGER"
    }
}

fn back(value: &dyn ColumnValue) -> serde_json::Value {
    let column = Column::new("column", value.column_type());
    column_value_to_json(0, &column, value.to_libsql_value()).unwrap().into_serde()
}

fn nested(depth: usize) -> serde_json::Value {
    let mut value = serde_json::Value::from("core");
    for _ in 0..depth {
        value = serde_json::Value::from(vec![value]);
    }
    value
}

#[test]
fn values_name_their_type() {
    assert_eq!("x".to_string().column_type(), "TEXT");
    assert_eq!(1_i64.column_type(), "INTEGER");
    assert_eq!(1_i32.column_type(), "INTEGER");
    assert_eq!(Double { bits: 0 }.column_type(), "FLOAT");
    assert_eq!(true.column_type(), "BOOLEAN");
    assert_eq!(serde_json::Value::Null.column_type(), "JSON");
    assert_eq!(Celsius(3).column_type(), "INTEGER");
}

#[test]
fn values_are_converted() {
    assert_eq!("x".to_string().to_libsql_value(), LibsqlValue::Text("x".to_string()));
    assert_eq!(i64::MIN.to_libsql_value(), LibsqlValue::Integer(i64::MIN));
    assert_eq!((-5_i32).to_libsql_value(), LibsqlValue::Integer(-5));
    assert_eq!(Double { bits: 9 }.to_libsql_value(), LibsqlValue::Real(9));
    assert_eq!(true.to_libsql_value(), LibsqlValue::Integer(1));
    assert_eq!(false.to_libsql_value(), LibsqlValue::Integer(0));
    assert_eq!(
        serde_json::Value::from(vec!["a", "b"]).to_libsql_value(),
        LibsqlValue::Text("[\"a\",\"b\"]".to_string())
    );
}

#[test]
fn values_are_read_back_as_they_were() {
    assert_eq!(back(&"{\"a\":1}".to_string()), serde_json::Value::from("{\"a\":1}"));
    assert_eq!(back(&i64::MAX), serde_json::Value::from(i64::MAX));
    assert_eq!(back(&i32::MIN), serde_json::Value::from(i32::MIN));
    assert_eq!(back(&Double { bits: 0.1f64.to_bits() }), serde_json::Value::from(0.1));
    assert_eq!(back(&true), serde_json::Value::from(true));
    assert_eq!(back(&false), serde_json::Value::from(false));
    assert_eq!(back(&Celsius(-40)), serde_json::Value::from(-40));
}

#[test]
fn json_is_read_back_as_it_was() {
    let mut object = serde_json::Map::new();
    object.insert("empty".to_string(), serde_json::Value::Object(serde_json::Map::new()));
    object.insert("text \"\\\n\u{1f600}".to_string(), serde_json::Value::from("\u{0}\u{7f}"));
    object.insert("numbers".to_string(), serde_json::Value::from(vec![0.5, -2.0]));
    object.insert("large".to_string(), serde_json::Value::from(u64::MAX));
    object.insert("small".to_string(), serde_json::Value::from(i64::MIN));
    object.insert("none".to_string(), serde_json::Value::Null);
    let value = serde_json::Value::Object(object);
    assert_eq!(back(&value), value);
}

#[test]
fn json_is_read_back_as_deep_as_the_parser_goes() {
    assert_eq!(back(&nested(127)), nested(127));
    let column = Column::new("column", "JSON");
    assert!(column_value_to_json(0, &column, nested(128).to_libsql_value()).is_err());
}
