use rig_libsql::error::{
    FilterError, LibsqlColumnValueError, LibsqlMissingIdColumn, StoreError,
};

#[test]
fn a_missing_id_is_described() {
    let error = LibsqlMissingIdColumn { table_name: "notes".to_string() };
    let text = "libSQL vector store table `notes` is missing an `id` column";
    assert_eq!(error.describe(), text);
    assert_eq!(StoreError::MissingId(error).describe(), Some(text.to_string()));
}

#[test]
fn a_column_that_cannot_be_converted_is_described() {
    let error = LibsqlColumnValueError {
        column_name: "flag",
        column_type: "BOOLEAN",
        message: "stored libSQL boolean value must be 0 or 1".to_string(),
        index: 12,
    };
    let text = "could not convert libSQL column `flag` (declared `BOOLEAN`) at index 12: \
                stored libSQL boolean value must be 0 or 1";
    assert_eq!(error.describe(), text);
    assert_eq!(StoreError::ColumnValue(error).describe(), Some(text.to_string()));
}

#[test]
fn rows_that_did_not_come_back_are_described() {
    assert_eq!(
        StoreError::NoEmbeddingRowid.describe(),
        Some("libSQL embedding insert returned no rowid".to_string())
    );
    assert_eq!(
        StoreError::NoEmbeddingCounts.describe(),
        Some("libSQL embedding-count query returned no rows".to_string())
    );
}

#[test]
fn filter_and_json_errors_speak_for_themselves() {
    let filter = FilterError::TypeError("x".to_string());
    assert_eq!(StoreError::Filter(filter).describe(), None);
    let json = serde_json::from_str::<serde_json::Value>("{").unwrap_err();
    assert_eq!(StoreError::Json(json).describe(), None);
}
