use rig_libsql::embedding::Embedding;
use rig_libsql::insert::{DocumentRow, StoreAction, StoreEvent};
use rig_libsql::query::SearchRequest;
use rig_libsql::search::SearchAction;
use rig_libsql::table::{document_row, document_rows, stored_values};
use rig_libsql::value::LibsqlValue;
use rig_libsql::{
    Column, ColumnValue, LibsqlDistanceMetric, LibsqlVectorStore, LibsqlVectorStoreTable,
};

#[derive(Clone)]
struct Note {
    id: i64,
    title: String,
}

impl LibsqlVectorStoreTable for Note {
    fn name() -> &'static str {
        "notes"
    }

    fn schema() -> Vec<Column> {
        vec![Column::new("id", "INTEGER PRIMARY KEY"), Column::new("title", "TEXT")]
    }

    fn id(&self) -> String {
        format!("note-{}", self.id)
    }

    fn column_values(&self) -> Vec<(&'static str, Box<dyn ColumnValue>)> {
        vec![("id", Box::new(self.id)), ("title", Box::new(self.title.clone()))]
    }
}

#[derive(Clone)]
struct Nameless;

impl LibsqlVectorStoreTable for Nameless {
    fn name() -> &'static str {
        "nameless"
    }

    fn schema() -> Vec<Column> {
        vec![Column::new("title", "TEXT")]
    }

    fn id(&self) -> String {
        String::new()
    }

    fn column_values(&self) -> Vec<(&'static str, Box<dyn ColumnValue>)> {
        Vec::new()
    }
}

fn note(id: i64) -> Note {
    Note { id, title: format!("title {}", id) }
}

fn row(id: i64, vectors: Vec<Vec<u32>>) -> DocumentRow {
    DocumentRow {
        id: format!("note-{}", id),
        values: vec![
            ("id", LibsqlValue::Integer(id)),
            ("title", LibsqlValue::Text(format!("title {}", id))),
        ],
        embeddings: vectors.into_iter().map(|vec| Embedding { vec }).collect(),
    }
}

#[test]
fn rows_hold_what_documents_say() {
    let embeddings = vec![Embedding { vec: vec![1] }];
    assert_eq!(document_row(&note(4), embeddings), row(4, vec![vec![1]]));
    let documents = vec![(note(1), Vec::new()), (note(2), vec![Embedding { vec: vec![9] }])];
    assert_eq!(document_rows(documents), vec![row(1, Vec::new()), row(2, vec![vec![9]])]);
    assert_eq!(stored_values(&note(3).column_values()), row(3, Vec::new()).values);
}

#[test]
fn a_new_store_uses_cosine_similarity() {
    let (store, schema) = LibsqlVectorStore::<Note>::new(3).unwrap();
    assert_eq!(store.distance_metric(), LibsqlDistanceMetric::Cosine);
    assert!(schema.starts_with(
        "CREATE TABLE IF NOT EXISTS notes (\n    id INTEGER PRIMARY KEY,\n    title TEXT\n);"
    ));
    assert!(schema.contains("embedding FLOAT32(3)"));
}

#[test]
fn a_store_keeps_its_metric() {
    let metric = LibsqlDistanceMetric::Euclidean;
    let (store, schema) = LibsqlVectorStore::<Note>::with_distance_metric(3, metric).unwrap();
    assert_eq!(store.clone().distance_metric(), metric);
    assert_eq!(schema, LibsqlVectorStore::<Note>::new(3).unwrap().1);
    let request = SearchRequest {
        query: "q".to_string(),
        samples: 1,
        threshold: None,
        filter: None,
    };
    let (mut search, action) = store.index().top_n(request);
    assert!(matches!(action, SearchAction::Embed(text) if text == "q"));
    search.next(rig_libsql::search::SearchEvent::Embedded(Vec::new()));
    match search.next(rig_libsql::search::SearchEvent::Counted(None)) {
        SearchAction::Query(statement) => {
            assert!(statement.sql.contains("(-vector_distance_l2(?, e.embedding))"));
            assert!(statement.sql.contains("SELECT d.id AS id, d.title AS title, "));
        }
        other => panic!("{:?}", other),
    }
}

#[test]
fn a_store_without_an_id_column_is_refused() {
    match LibsqlVectorStore::<Nameless>::new(3) {
        Err(error) => assert_eq!(
            error.describe(),
            "libSQL vector store table `nameless` is missing an `id` column"
        ),
        Ok(_) => panic!("created"),
    }
}

#[test]
fn rows_are_added_to_the_table_of_the_documents() {
    let (store, _) = LibsqlVectorStore::<Note>::new(1).unwrap();
    assert!(matches!(store.add_rows(Vec::new()).1, StoreAction::Finish));
    let (mut rows, action) = store.add_rows(vec![(note(5), Vec::new())]);
    assert!(matches!(action, StoreAction::Begin));
    match rows.next(StoreEvent::Done) {
        StoreAction::Find(statement) => {
            assert_eq!(statement.sql, "SELECT rowid FROM notes WHERE id = ?");
            assert_eq!(statement.params, vec![LibsqlValue::Integer(5)]);
        }
        other => panic!("{:?}", other),
    }
}

#[test]
fn ids_are_searched_in_the_same_table() {
    let (store, _) = LibsqlVectorStore::<Note>::new(1).unwrap();
    let request = SearchRequest {
        query: "q".to_string(),
        samples: 2,
        threshold: None,
        filter: None,
    };
    let (search, action) = store.index().top_n_ids(request);
    assert!(matches!(action, SearchAction::Embed(_)));
    assert_eq!(search.width(), 1);
}
