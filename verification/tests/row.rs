use rig_libsql::error::StoreError;
use rig_libsql::row::{id_to_string, row_document};
use rig_libsql::value::LibsqlValue;
use rig_libsql::Column;

fn id_of(value: LibsqlValue) -> String {
    id_to_string(0, &Column::new("id", "TEXT"), &value).unwrap()
}

#[test]
fn ids_are_text_or_numbers() {
    assert_eq!(id_of(LibsqlValue::Text("doc".to_string())), "doc");
    assert_eq!(id_of(LibsqlValue::Integer(-12)), "-12");
    for double in vec![1.0, 0.1, -0.0, 1e300, f64::NAN, f64::INFINITY] {
        assert_eq!(id_of(LibsqlValue::Real(double.to_bits())), double.to_string());
    }
}

#[test]
fn ids_are_not_null_or_bytes() {
    let column = Column::new("id", "BLOB");
    for value in vec![LibsqlValue::Null, LibsqlValue::Blob(vec![1])] {
        match id_to_string(4, &column, &value) {
            Err(StoreError::ColumnValue(error)) => {
                assert_eq!(error.column_name, "id");
                assert_eq!(error.column_type, "TEXT or INTEGER");
                assert_eq!(error.message, "id cannot be NULL or BLOB");
                assert_eq!(error.index, 4);
            }
            other => panic!("{:?}", other),
        }
    }
    match id_to_string(-1, &column, &LibsqlValue::Null) {
        Err(StoreError::ColumnValue(error)) => assert_eq!(error.index, 0),
        other => panic!("{:?}", other),
    }
}

#[test]
fn documents_hold_their_columns() {
    let columns = vec![
        Column::new("id", "TEXT"),
        Column::new("flag", "BOOLEAN"),
        Column::new("metadata", "JSON"),
    ];
    let values = vec![
        LibsqlValue::Text("doc".to_string()),
        LibsqlValue::Integer(1),
        LibsqlValue::Text("[null]".to_string()),
        LibsqlValue::Real(1.0f64.to_bits()),
    ];
    let document = row_document(&columns, &values).unwrap();
    assert_eq!(document.len(), 3);
    assert_eq!(document["id"], serde_json::Value::from("doc"));
    assert_eq!(document["flag"], serde_json::Value::from(true));
    assert_eq!(document["metadata"], serde_json::Value::from(vec![serde_json::Value::Null]));
}

#[test]
fn of_columns_that_share_a_name_the_last_counts() {
    let columns = vec![Column::new("a", "TEXT"), Column::new("a", "INTEGER")];
    let values = vec![LibsqlValue::Text("x".to_string()), LibsqlValue::Integer(2)];
    let document = row_document(&columns, &values).unwrap();
    assert_eq!(document.len(), 1);
    assert_eq!(document["a"], serde_json::Value::from(2));
}

#[test]
fn the_first_column_that_cannot_be_read_counts() {
    let columns = vec![
        Column::new("id", "TEXT"),
        Column::new("flag", "BOOLEAN"),
        Column::new("metadata", "JSON"),
    ];
    let values = vec![
        LibsqlValue::Text("doc".to_string()),
        LibsqlValue::Integer(5),
        LibsqlValue::Text("[".to_string()),
    ];
    match row_document(&columns, &values) {
        Err(StoreError::ColumnValue(error)) => {
            assert_eq!((error.column_name, error.index), ("flag", 1));
        }
        other => panic!("{:?}", other),
    }
}

#[test]
fn a_table_without_columns_has_empty_documents() {
    assert!(row_document(&Vec::new(), &Vec::new()).unwrap().is_empty());
}
