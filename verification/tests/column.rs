use rig_libsql::column::{
    column_declares_json, column_value_to_json, decode_json_text, id_position, json_text_value,
    number_value, ColumnAffinity,
};
use rig_libsql::error::{LibsqlColumnValueError, StoreError};
use rig_libsql::json::JsonValue;
use rig_libsql::value::LibsqlValue;
use rig_libsql::Column;

fn read(column: &Column, value: LibsqlValue) -> serde_json::Value {
    match column_value_to_json(0, column, value) {
        Ok(value) => value.into_serde(),
        Err(error) => panic!("{:?}", error),
    }
}

fn complaint(column: &Column, index: usize, value: LibsqlValue) -> LibsqlColumnValueError {
    match column_value_to_json(index, column, value) {
        Err(StoreError::ColumnValue(error)) => error,
        other => panic!("{:?}", other),
    }
}

#[test]
fn json_column_decodes_object_from_text_value() {
    let column = Column::new("metadata", "JSON");
    let value = LibsqlValue::Text(r#"{"source":"docs","count":3}"#.to_string());
    let decoded = column_value_to_json(0, &column, value).unwrap().into_serde();
    assert_eq!(decoded.get("source"), Some(&serde_json::Value::from("docs")));
    assert_eq!(decoded.get("count"), Some(&serde_json::Value::from(3)));
}

#[test]
fn text_column_preserves_json_looking_string() {
    let column = Column::new("raw", "TEXT");
    let value = LibsqlValue::Text(r#"{"a":1}"#.to_string());
    let decoded = column_value_to_json(0, &column, value).unwrap().into_serde();
    assert_eq!(decoded, serde_json::Value::from(r#"{"a":1}"#));
}

#[test]
fn boolean_column_decodes_zero_and_one() {
    let column = Column::new("flag", "BOOLEAN");
    let zero = column_value_to_json(0, &column, LibsqlValue::Integer(0)).unwrap().into_serde();
    let one = column_value_to_json(0, &column, LibsqlValue::Integer(1)).unwrap().into_serde();
    assert_eq!(zero, serde_json::Value::from(false));
    assert_eq!(one, serde_json::Value::from(true));
}

#[test]
fn columns_keep_their_declaration() {
    let column = Column::new("id", "TEXT PRIMARY KEY");
    assert_eq!(column.name(), "id");
    assert_eq!(column.col_type(), "TEXT PRIMARY KEY");
    let copy = column.clone();
    assert_eq!((copy.name(), copy.col_type()), ("id", "TEXT PRIMARY KEY"));
}

#[test]
fn the_first_id_column_counts() {
    let id = || Column::new("id", "TEXT");
    let other = || Column::new("title", "TEXT");
    assert_eq!(id_position(&vec![other(), id(), id()]), Some(1));
    assert_eq!(id_position(&vec![other(), Column::new("ID", "TEXT")]), None);
    assert_eq!(id_position(&Vec::new()), None);
}

#[test]
fn affinity_follows_the_declared_type() {
    let cases = vec![
        ("INTEGER", ColumnAffinity::Integer),
        ("bigint", ColumnAffinity::Integer),
        ("POINT", ColumnAffinity::Integer),
        ("VARCHAR(20)", ColumnAffinity::Text),
        ("clob", ColumnAffinity::Text),
        ("TEXT PRIMARY KEY", ColumnAffinity::Text),
        ("BLOB", ColumnAffinity::Blob),
        ("", ColumnAffinity::Blob),
        (" \t\u{3000}", ColumnAffinity::Blob),
        ("Real", ColumnAffinity::Float),
        ("FLOAT", ColumnAffinity::Float),
        ("DOUBLE PRECISION", ColumnAffinity::Float),
        ("BOOLEAN", ColumnAffinity::Boolean),
        ("JSON", ColumnAffinity::Numeric),
        ("DECIMAL", ColumnAffinity::Numeric),
        ("char int", ColumnAffinity::Integer),
        ("blob text", ColumnAffinity::Text),
    ];
    for (column_type, affinity) in cases {
        assert_eq!(ColumnAffinity::from_column_type(column_type), affinity, "{}", column_type);
    }
}

#[test]
fn json_is_declared_by_the_first_word() {
    assert!(column_declares_json("JSON"));
    assert!(column_declares_json("json NOT NULL"));
    assert!(column_declares_json("\u{2003}Json\n"));
    assert!(!column_declares_json("JSONB"));
    assert!(!column_declares_json("TEXT JSON"));
    assert!(!column_declares_json("JSO"));
    assert!(!column_declares_json(""));
    assert!(!column_declares_json("  "));
}

#[test]
fn json_columns_read_numbers_nulls_and_bytes() {
    let column = Column::new("metadata", "JSON");
    assert_eq!(read(&column, LibsqlValue::Null), serde_json::Value::Null);
    assert_eq!(read(&column, LibsqlValue::Integer(-3)), serde_json::Value::from(-3));
    assert_eq!(
        read(&column, LibsqlValue::Real(2.5f64.to_bits())),
        serde_json::Value::from(2.5)
    );
    assert_eq!(
        read(&column, LibsqlValue::Blob("[\"ä\"]".as_bytes().to_vec())),
        serde_json::Value::from(vec!["ä"])
    );
}

#[test]
fn json_columns_refuse_other_text() {
    let column = Column::new("metadata", "JSON");
    let error = complaint(&column, 2, LibsqlValue::Text("{".to_string()));
    assert_eq!(
        error,
        LibsqlColumnValueError {
            column_name: "metadata",
            column_type: "JSON",
            message: "invalid JSON text: EOF while parsing an object at line 1 column 1"
                .to_string(),
            index: 2,
        }
    );
    let error = complaint(&column, 0, LibsqlValue::Text(String::new()));
    assert_eq!(
        error.message,
        "invalid JSON text: EOF while parsing a value at line 1 column 0"
    );
}

#[test]
fn json_columns_refuse_bytes_that_are_not_utf8() {
    let column = Column::new("metadata", "JSON");
    let error = complaint(&column, 1, LibsqlValue::Blob(vec![b'"', 0xff]));
    assert_eq!(
        error.message,
        "invalid UTF-8 JSON text: invalid utf-8 sequence of 1 bytes from index 1"
    );
    assert_eq!(error.index, 1);
}

#[test]
fn boolean_columns_refuse_other_values() {
    let column = Column::new("flag", "BOOLEAN");
    let values = vec![
        LibsqlValue::Integer(2),
        LibsqlValue::Integer(-1),
        LibsqlValue::Real(1.0f64.to_bits()),
        LibsqlValue::Text("true".to_string()),
        LibsqlValue::Blob(vec![1]),
    ];
    for value in values {
        assert_eq!(
            complaint(&column, 0, value).message,
            "stored libSQL boolean value must be 0 or 1"
        );
    }
    assert_eq!(read(&column, LibsqlValue::Null), serde_json::Value::Null);
}

#[test]
fn plain_columns_read_values_as_they_are() {
    let column = Column::new("any", "DECIMAL");
    assert_eq!(read(&column, LibsqlValue::Null), serde_json::Value::Null);
    assert_eq!(read(&column, LibsqlValue::Integer(7)), serde_json::Value::from(7));
    assert_eq!(
        read(&column, LibsqlValue::Real(0.1f64.to_bits())),
        serde_json::Value::from(0.1)
    );
    assert_eq!(
        read(&column, LibsqlValue::Text("1".to_string())),
        serde_json::Value::from("1")
    );
    assert_eq!(
        read(&column, LibsqlValue::Blob(vec![0, 255])),
        serde_json::Value::from(vec![0, 255])
    );
}

#[test]
fn doubles_that_are_not_finite_are_refused() {
    let column = Column::new("score", "FLOAT");
    for double in vec![f64::NAN, f64::INFINITY, f64::NEG_INFINITY] {
        match number_value(3, &column, double.to_bits()) {
            Err(StoreError::ColumnValue(error)) => {
                assert_eq!(error.message, "non-finite float value");
                assert_eq!((error.column_name, error.index), ("score", 3));
            }
            other => panic!("{:?}", other),
        }
    }
    for double in vec![0.0, -0.0, f64::MAX, f64::MIN, f64::MIN_POSITIVE, 5e-324] {
        let number = number_value(3, &column, double.to_bits()).unwrap().into_serde();
        assert_eq!(number.as_f64().map(|d| d.to_bits()), Some(double.to_bits()));
    }
}

#[test]
fn json_text_is_parsed() {
    let column = Column::new("metadata", "JSON");
    assert_eq!(
        decode_json_text(0, &column, " [1] ").unwrap().into_serde(),
        serde_json::Value::from(vec![1])
    );
    assert!(decode_json_text(0, &column, "[1").is_err());
}

#[test]
fn what_a_parser_found_is_handed_on() {
    let column = Column::new("metadata", "JSON");
    assert_eq!(
        json_text_value(0, &column, Ok(JsonValue::Bool(true))).unwrap(),
        JsonValue::Bool(true)
    );
    match json_text_value(4, &column, Err("nope".to_string())) {
        Err(StoreError::ColumnValue(error)) => {
            assert_eq!(error.message, "invalid JSON text: nope");
            assert_eq!(error.index, 4);
        }
        other => panic!("{:?}", other),
    }
}
