use rig_libsql::schema::{
    embedding_map_table_name, embeddings_index_name, embeddings_table_name, schema_batch,
};
use rig_libsql::Column;

#[test]
fn companion_names_come_from_the_table_name() {
    assert_eq!(embeddings_table_name("notes"), "notes_embeddings");
    assert_eq!(embedding_map_table_name("notes"), "notes_embedding_map");
    assert_eq!(embeddings_index_name("notes"), "notes_embeddings_idx");
}

#[test]
fn the_schema_creates_tables_and_indexes() {
    let columns = vec![Column::new("id", "TEXT PRIMARY KEY"), Column::new("content", "TEXT")];
    let expected = "CREATE TABLE IF NOT EXISTS notes (
    id TEXT PRIMARY KEY,
    content TEXT
);
             CREATE INDEX IF NOT EXISTS idx_notes_id ON notes(id);
             CREATE TABLE IF NOT EXISTS notes_embeddings (
                 embedding FLOAT32(1536)
             );
             CREATE INDEX IF NOT EXISTS notes_embeddings_idx
                 ON notes_embeddings (libsql_vector_idx(embedding));
             CREATE TABLE IF NOT EXISTS notes_embedding_map (
                 embedding_rowid INTEGER PRIMARY KEY,
                 document_rowid INTEGER NOT NULL
             );
             CREATE INDEX IF NOT EXISTS idx_notes_embedding_map_document_rowid
                 ON notes_embedding_map(document_rowid);";
    assert_eq!(schema_batch("notes", &columns, 1536).unwrap(), expected);
}

#[test]
fn every_creation_is_conditional() {
    let batch = schema_batch("t", &vec![Column::new("id", "TEXT")], 2).unwrap();
    assert_eq!(batch.matches("CREATE").count(), 6);
    assert_eq!(batch.matches("IF NOT EXISTS").count(), 6);
    assert!(batch.ends_with(';'));
    let statements: Vec<&str> = batch.split_terminator(';').map(|s| s.trim_start()).collect();
    assert_eq!(statements.len(), 6);
    for statement in statements {
        assert!(
            statement.starts_with("CREATE TABLE IF NOT EXISTS ")
                || statement.starts_with("CREATE INDEX IF NOT EXISTS "),
            "{}",
            statement
        );
    }
}

#[test]
fn a_schema_needs_an_id() {
    let error = schema_batch("notes", &vec![Column::new("title", "TEXT")], 3).unwrap_err();
    assert_eq!(error.table_name, "notes");
    assert!(schema_batch("notes", &Vec::new(), 3).is_err());
}
