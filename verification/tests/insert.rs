use rig_libsql::embedding::Embedding;
use rig_libsql::error::StoreError;
use rig_libsql::insert::{AddRows, DocumentRow, Statement, StoreAction, StoreEvent};
use rig_libsql::value::LibsqlValue;

fn document(id: &str, vectors: Vec<Vec<u32>>) -> DocumentRow {
    DocumentRow {
        id: id.to_string(),
        values: vec![
            ("id", LibsqlValue::Text(id.to_string())),
            ("content", LibsqlValue::Null),
        ],
        embeddings: vectors.into_iter().map(|vec| Embedding { vec }).collect(),
    }
}

fn statement(sql: &str, params: Vec<LibsqlValue>) -> Statement {
    Statement { sql: sql.to_string(), params }
}

fn step(rows: &mut AddRows, event: StoreEvent) -> StoreAction {
    assert!(rows.accepts(&event));
    rows.next(event)
}

fn found(action: StoreAction) -> Statement {
    match action {
        StoreAction::Find(statement) => statement,
        other => panic!("{:?}", other),
    }
}

fn executed(action: StoreAction) -> Statement {
    match action {
        StoreAction::Execute(statement) => statement,
        other => panic!("{:?}", other),
    }
}

fn document_inserted(action: StoreAction) -> Statement {
    match action {
        StoreAction::InsertDocument(statement) => statement,
        other => panic!("{:?}", other),
    }
}

fn embedding_inserted(action: StoreAction) -> Statement {
    match action {
        StoreAction::InsertEmbedding(statement) => statement,
        other => panic!("{:?}", other),
    }
}

#[test]
fn nothing_to_insert_asks_for_nothing() {
    let (rows, action) = AddRows::start("notes", Vec::new());
    assert!(matches!(action, StoreAction::Finish));
    for event in vec![
        StoreEvent::Done,
        StoreEvent::Found(None),
        StoreEvent::Inserted(1),
        StoreEvent::Returned(Some(1)),
    ] {
        assert!(!rows.accepts(&event));
    }
}

#[test]
fn a_new_document_is_inserted_with_its_embeddings() {
    let (mut rows, action) = AddRows::start("notes", vec![document("a", vec![vec![1], vec![2]])]);
    assert!(matches!(action, StoreAction::Begin));

    let find = found(step(&mut rows, StoreEvent::Done));
    let id = LibsqlValue::Text("a".to_string());
    assert_eq!(find, statement("SELECT rowid FROM notes WHERE id = ?", vec![id.clone()]));

    let insert = document_inserted(step(&mut rows, StoreEvent::Found(None)));
    assert_eq!(
        insert,
        statement(
            "INSERT OR REPLACE INTO notes (id, content) VALUES (?1, ?2)",
            vec![id, LibsqlValue::Null]
        )
    );

    let first = embedding_inserted(step(&mut rows, StoreEvent::Inserted(40)));
    assert_eq!(
        first,
        statement(
            "INSERT INTO notes_embeddings (embedding) VALUES (vector(?)) RETURNING rowid",
            vec![LibsqlValue::Blob(vec![1, 0, 0, 0])]
        )
    );
    let map = executed(step(&mut rows, StoreEvent::Returned(Some(7))));
    assert_eq!(
        map,
        statement(
            "INSERT INTO notes_embedding_map (embedding_rowid, document_rowid) VALUES (?, ?)",
            vec![LibsqlValue::Integer(7), LibsqlValue::Integer(40)]
        )
    );
    let second = embedding_inserted(step(&mut rows, StoreEvent::Done));
    assert_eq!(second.params, vec![LibsqlValue::Blob(vec![2, 0, 0, 0])]);
    let map = executed(step(&mut rows, StoreEvent::Returned(Some(8))));
    assert_eq!(map.params, vec![LibsqlValue::Integer(8), LibsqlValue::Integer(40)]);

    assert!(matches!(step(&mut rows, StoreEvent::Done), StoreAction::Commit));
    assert!(matches!(step(&mut rows, StoreEvent::Done), StoreAction::Finish));
    assert!(!rows.accepts(&StoreEvent::Done));
}

#[test]
fn stored_documents_with_the_id_lose_their_embeddings_first() {
    let (mut rows, _) = AddRows::start("notes", vec![document("a", Vec::new())]);
    found(step(&mut rows, StoreEvent::Done));
    let id = LibsqlValue::Text("a".to_string());
    let embeddings = executed(step(&mut rows, StoreEvent::Found(Some(3))));
    assert_eq!(
        embeddings,
        statement(
            "DELETE FROM notes_embeddings
                         WHERE rowid IN (
                             SELECT embedding_rowid FROM notes_embedding_map
                             WHERE document_rowid IN (
                                 SELECT rowid FROM notes WHERE id = ?
                             )
                         )",
            vec![id.clone()]
        )
    );
    let map = executed(step(&mut rows, StoreEvent::Done));
    assert_eq!(
        map,
        statement(
            "DELETE FROM notes_embedding_map
                         WHERE document_rowid IN (
                             SELECT rowid FROM notes WHERE id = ?
                         )",
            vec![id]
        )
    );
    document_inserted(step(&mut rows, StoreEvent::Done));
    assert!(matches!(step(&mut rows, StoreEvent::Inserted(3)), StoreAction::Commit));
    assert!(matches!(step(&mut rows, StoreEvent::Done), StoreAction::Finish));
}

#[test]
fn documents_come_one_after_the_other() {
    let documents = vec![document("a", Vec::new()), document("b", vec![vec![0]])];
    let (mut rows, _) = AddRows::start("notes", documents);
    let first = found(step(&mut rows, StoreEvent::Done));
    assert_eq!(first.params, vec![LibsqlValue::Text("a".to_string())]);
    document_inserted(step(&mut rows, StoreEvent::Found(None)));
    let second = found(step(&mut rows, StoreEvent::Inserted(1)));
    assert_eq!(second.params, vec![LibsqlValue::Text("b".to_string())]);
    document_inserted(step(&mut rows, StoreEvent::Found(None)));
    embedding_inserted(step(&mut rows, StoreEvent::Inserted(2)));
    let map = executed(step(&mut rows, StoreEvent::Returned(Some(9))));
    assert_eq!(map.params, vec![LibsqlValue::Integer(9), LibsqlValue::Integer(2)]);
    assert!(matches!(step(&mut rows, StoreEvent::Done), StoreAction::Commit));
}

#[test]
fn a_missing_rowid_fails_the_insertion() {
    let (mut rows, _) = AddRows::start("notes", vec![document("a", vec![vec![1]])]);
    step(&mut rows, StoreEvent::Done);
    step(&mut rows, StoreEvent::Found(None));
    step(&mut rows, StoreEvent::Inserted(1));
    assert!(matches!(
        step(&mut rows, StoreEvent::Returned(None)),
        StoreAction::Fail(StoreError::NoEmbeddingRowid)
    ));
    assert!(!rows.accepts(&StoreEvent::Done));
}

#[test]
fn replies_of_another_kind_are_not_accepted() {
    let (mut rows, _) = AddRows::start("notes", vec![document("a", vec![vec![1]])]);
    assert!(!rows.accepts(&StoreEvent::Found(None)));
    assert!(!rows.accepts(&StoreEvent::Inserted(1)));
    assert!(!rows.accepts(&StoreEvent::Returned(None)));
    step(&mut rows, StoreEvent::Done);
    assert!(!rows.accepts(&StoreEvent::Done));
}

#[test]
fn documents_are_looked_up_by_their_id_column() {
    let mut row = document("a", Vec::new());
    row.values = vec![
        ("content", LibsqlValue::Null),
        ("id", LibsqlValue::Integer(5)),
        ("id", LibsqlValue::Integer(6)),
    ];
    let (mut rows, _) = AddRows::start("notes", vec![row]);
    let find = found(step(&mut rows, StoreEvent::Done));
    assert_eq!(find.params, vec![LibsqlValue::Integer(5)]);

    let mut row = document("a", Vec::new());
    row.values = vec![("content", LibsqlValue::Null)];
    let (mut rows, _) = AddRows::start("notes", vec![row]);
    let find = found(step(&mut rows, StoreEvent::Done));
    assert_eq!(find.params, vec![LibsqlValue::Text("a".to_string())]);
}

#[test]
fn values_get_numbered_placeholders() {
    let mut row = document("a", Vec::new());
    row.values = vec![("c", LibsqlValue::Null); 11];
    let (mut rows, _) = AddRows::start("notes", vec![row]);
    step(&mut rows, StoreEvent::Done);
    let insert = document_inserted(step(&mut rows, StoreEvent::Found(None)));
    assert_eq!(
        insert.sql,
        "INSERT OR REPLACE INTO notes (c, c, c, c, c, c, c, c, c, c, c) \
         VALUES (?1, ?2, ?3, ?4, ?5, ?6, ?7, ?8, ?9, ?10, ?11)"
    );
    assert_eq!(insert.params.len(), 11);
}

#[test]
fn every_statement_binds_its_placeholders() {
    let mut row = document("a", vec![vec![1]]);
    row.values = vec![("c", LibsqlValue::Null); 12];
    let (mut rows, mut action) = AddRows::start("notes", vec![row]);
    let replies = vec![
        StoreEvent::Done,
        StoreEvent::Found(Some(1)),
        StoreEvent::Done,
        StoreEvent::Done,
        StoreEvent::Inserted(2),
        StoreEvent::Returned(Some(3)),
        StoreEvent::Done,
        StoreEvent::Done,
    ];
    let mut statements = 0;
    for event in replies {
        action = step(&mut rows, event);
        match &action {
            StoreAction::Find(statement)
            | StoreAction::Execute(statement)
            | StoreAction::InsertDocument(statement)
            | StoreAction::InsertEmbedding(statement) => {
                statements += 1;
                assert_eq!(statement.sql.matches('?').count(), statement.params.len());
            }
            _ => {}
        }
    }
    assert_eq!(statements, 6);
    assert!(matches!(action, StoreAction::Finish));
}
