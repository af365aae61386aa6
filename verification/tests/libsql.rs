// Insertions and searches carried out on an in-memory database.

use rig_libsql::column_value::Double;
use rig_libsql::embedding::Embedding;
use rig_libsql::error::StoreError;
use rig_libsql::insert::{AddRows, Statement, StoreAction, StoreEvent};
use rig_libsql::json::JsonValue;
use rig_libsql::query::SearchRequest;
use rig_libsql::search::{keep_decoded, Search, SearchAction, SearchEvent};
use rig_libsql::value::LibsqlValue;
use rig_libsql::{
    Column, ColumnValue, LibsqlDistanceMetric, LibsqlSearchFilter, LibsqlVectorIndex,
    LibsqlVectorStore, LibsqlVectorStoreTable,
};

#[derive(Clone, Debug)]
struct RoundTripDoc {
    id: String,
    content: String,
}

impl LibsqlVectorStoreTable for RoundTripDoc {
    fn name() -> &'static str {
        "round_trip_documents"
    }

    fn schema() -> Vec<Column> {
        vec![Column::new("id", "TEXT PRIMARY KEY"), Column::new("content", "TEXT")]
    }

    fn id(&self) -> String {
        self.id.clone()
    }

    fn column_values(&self) -> Vec<(&'static str, Box<dyn ColumnValue>)> {
        vec![("id", Box::new(self.id.clone())), ("content", Box::new(self.content.clone()))]
    }
}

fn round_trip_vec_for(text: &str) -> Vec<f64> {
    if text.contains("linglingdong") {
        vec![0.0, 0.0, 1.0]
    } else if text.contains("glarb") {
        vec![0.0, 1.0, 0.0]
    } else {
        vec![1.0, 0.0, 0.0]
    }
}

fn embedding(vector: Vec<f64>) -> Embedding {
    Embedding { vec: vector.into_iter().map(|x| (x as f32).to_bits()).collect() }
}

fn round_trip_doc(id: &str, content: &str) -> (RoundTripDoc, Vec<Embedding>) {
    (
        RoundTripDoc { id: id.to_string(), content: content.to_string() },
        vec![embedding(round_trip_vec_for(content))],
    )
}

fn decode(document: serde_json::Value) -> Option<RoundTripDoc> {
    Some(RoundTripDoc {
        id: document.get("id")?.as_str()?.to_string(),
        content: document.get("content")?.as_str()?.to_string(),
    })
}

fn bound(values: Vec<LibsqlValue>) -> Vec<libsql::Value> {
    values
        .into_iter()
        .map(|value| match value {
            LibsqlValue::Null => libsql::Value::Null,
            LibsqlValue::Integer(i) => libsql::Value::Integer(i),
            LibsqlValue::Real(bits) => libsql::Value::Real(f64::from_bits(bits)),
            LibsqlValue::Text(text) => libsql::Value::Text(text),
            LibsqlValue::Blob(bytes) => libsql::Value::Blob(bytes),
        })
        .collect()
}

fn stored(value: libsql::Value) -> LibsqlValue {
    match value {
        libsql::Value::Null => LibsqlValue::Null,
        libsql::Value::Integer(i) => LibsqlValue::Integer(i),
        libsql::Value::Real(double) => LibsqlValue::Real(double.to_bits()),
        libsql::Value::Text(text) => LibsqlValue::Text(text),
        libsql::Value::Blob(bytes) => LibsqlValue::Blob(bytes),
    }
}

async fn first_integer(tx: &libsql::Transaction, statement: Statement) -> Option<i64> {
    let mut rows = tx.query(&statement.sql, bound(statement.params)).await.unwrap();
    match rows.next().await.unwrap() {
        Some(row) => row.get::<i64>(0).ok(),
        None => None,
    }
}

async fn carry_out(conn: &libsql::Connection, started: (AddRows, StoreAction)) {
    let (mut rows, mut action) = started;
    let mut open: Option<libsql::Transaction> = None;
    loop {
        let event = match action {
            StoreAction::Begin => {
                open = Some(conn.transaction().await.unwrap());
                StoreEvent::Done
            }
            StoreAction::Find(statement) => {
                StoreEvent::Found(first_integer(open.as_ref().unwrap(), statement).await)
            }
            StoreAction::Execute(statement) => {
                let tx = open.as_ref().unwrap();
                tx.execute(&statement.sql, bound(statement.params)).await.unwrap();
                StoreEvent::Done
            }
            StoreAction::InsertDocument(statement) => {
                let tx = open.as_ref().unwrap();
                tx.execute(&statement.sql, bound(statement.params)).await.unwrap();
                StoreEvent::Inserted(tx.last_insert_rowid())
            }
            StoreAction::InsertEmbedding(statement) => {
                StoreEvent::Returned(first_integer(open.as_ref().unwrap(), statement).await)
            }
            StoreAction::Commit => {
                open.take().unwrap().commit().await.unwrap();
                StoreEvent::Done
            }
            StoreAction::Finish => return,
            StoreAction::Fail(error) => panic!("{:?}", error),
        };
        assert!(rows.accepts(&event));
        action = rows.next(event);
    }
}

type Hits = Vec<(f64, String, Option<serde_json::Value>)>;

async fn look_up(
    conn: &libsql::Connection,
    started: (Search, SearchAction),
) -> Result<Hits, StoreError> {
    let (mut search, mut action) = started;
    let mut running: Option<libsql::Rows> = None;
    let mut hits: Hits = Vec::new();
    loop {
        let reading = matches!(action, SearchAction::NextRow | SearchAction::Deliver(_));
        if let SearchAction::Deliver(hit) = action {
            hits.push((f64::from_bits(hit.score), hit.id, hit.document));
            action = SearchAction::NextRow;
        }
        let event = match action {
            SearchAction::Embed(text) => {
                SearchEvent::Embedded(embedding(round_trip_vec_for(&text)).vec)
            }
            SearchAction::Count(sql) => {
                let row = conn.query(&sql, ()).await.unwrap().next().await.unwrap();
                SearchEvent::Counted(row.map(|row| (row.get(0).unwrap(), row.get(1).unwrap())))
            }
            SearchAction::Query(statement) => {
                running = Some(conn.query(&statement.sql, bound(statement.params)).await.unwrap());
                SearchEvent::Running
            }
            SearchAction::Finish => return Ok(hits),
            SearchAction::Fail(error) => return Err(error),
            _ => {
                assert!(reading);
                match running.as_mut().unwrap().next().await.unwrap() {
                    Some(row) => {
                        let score: f64 = row.get(search.score_index()).unwrap();
                        let values = (0..search.width())
                            .map(|i| stored(row.get_value(i as i32).unwrap()))
                            .collect();
                        SearchEvent::Row(score.to_bits(), values)
                    }
                    None => SearchEvent::NoRow,
                }
            }
        };
        assert!(search.accepts(&event));
        action = search.next(event);
    }
}

async fn open() -> (libsql::Database, libsql::Connection) {
    let db = libsql::Builder::new_local(":memory:").build().await.unwrap();
    let conn = db.connect().unwrap();
    (db, conn)
}

fn block_on<F: std::future::Future>(future: F) -> F::Output {
    tokio::runtime::Builder::new_current_thread().build().unwrap().block_on(future)
}

fn request(
    query: &str,
    samples: u64,
    threshold: Option<f64>,
    filter: Option<LibsqlSearchFilter>,
) -> SearchRequest {
    SearchRequest {
        query: query.to_string(),
        samples,
        threshold: threshold.map(|t| t.to_bits()),
        filter,
    }
}

fn content_is(content: &str) -> LibsqlSearchFilter {
    LibsqlSearchFilter::eq("content", JsonValue::String(content.to_string()))
}

async fn filled(
    conn: &libsql::Connection,
    documents: Vec<(RoundTripDoc, Vec<Embedding>)>,
) -> LibsqlVectorStore<RoundTripDoc> {
    let (store, schema) = LibsqlVectorStore::<RoundTripDoc>::new(3).unwrap();
    conn.execute_batch(&schema).await.unwrap();
    carry_out(conn, store.add_rows(documents)).await;
    store
}

async fn ids(
    conn: &libsql::Connection,
    index: &LibsqlVectorIndex<RoundTripDoc>,
    request: SearchRequest,
) -> Vec<String> {
    let hits = look_up(conn, index.top_n_ids(request)).await.unwrap();
    hits.into_iter().map(|(_, id, _)| id).collect()
}

#[test]
fn round_trip_insert_and_top_n_with_local_libsql() {
    block_on(async {
        let (_db, conn) = open().await;
        let (store, schema) = LibsqlVectorStore::<RoundTripDoc>::with_distance_metric(
            3,
            LibsqlDistanceMetric::Cosine,
        )
        .unwrap();
        conn.execute_batch(&schema).await.unwrap();

        let documents = vec![
            round_trip_doc("doc0", "flurbo"),
            round_trip_doc("doc1", "glarb"),
            round_trip_doc("doc2", "linglingdong"),
        ];
        carry_out(&conn, store.add_rows(documents)).await;

        let index = store.index();
        let req = || request("What is a linglingdong?", 1, None, None);

        let hits = look_up(&conn, index.top_n(req())).await.unwrap();
        let rows = hits
            .into_iter()
            .map(|(score, id, document)| (score, id, decode(document.unwrap())))
            .collect();
        let results = keep_decoded(rows);
        assert_eq!(results.len(), 1);
        let (score, id, doc) = &results[0];
        assert_eq!(id, "doc2");
        assert!(*score > 0.99);
        assert_eq!((doc.id.as_str(), doc.content.as_str()), ("doc2", "linglingdong"));

        let id_results = look_up(&conn, index.top_n_ids(req())).await.unwrap();
        assert_eq!(id_results.len(), 1);
        let (id_score, id_id, _) = &id_results[0];
        assert_eq!(id_id, "doc2");
        assert_eq!(id_score, score);
    });
}

#[test]
fn round_trip_filter_and_threshold_with_local_libsql() {
    block_on(async {
        let (_db, conn) = open().await;
        let documents = vec![round_trip_doc("a", "flurbo"), round_trip_doc("b", "linglingdong")];
        let index = filled(&conn, documents).await.index();

        // No stored vector matches the "glarb" query exactly.
        let results = look_up(&conn, index.top_n(request("glarb", 5, Some(0.99), None))).await;
        assert!(results.unwrap().is_empty());

        // A filter on the content column restricts to the matching document.
        let req = request("linglingdong", 5, None, Some(content_is("linglingdong")));
        let results = look_up(&conn, index.top_n(req)).await.unwrap();
        assert_eq!(results.len(), 1);
        assert_eq!(results[0].1, "b");
    });
}

#[test]
fn creating_the_tables_again_changes_nothing() {
    block_on(async {
        let (_db, conn) = open().await;
        let index = filled(&conn, vec![round_trip_doc("a", "glarb")]).await.index();
        let (_, schema) = LibsqlVectorStore::<RoundTripDoc>::new(3).unwrap();
        conn.execute_batch(&schema).await.unwrap();
        assert_eq!(ids(&conn, &index, request("glarb", 5, None, None)).await, vec!["a"]);
    });
}

#[test]
fn inserting_an_id_again_replaces_its_embeddings() {
    block_on(async {
        let (_db, conn) = open().await;
        let store = filled(&conn, vec![round_trip_doc("a", "glarb")]).await;
        carry_out(&conn, store.add_rows(vec![round_trip_doc("a", "linglingdong")])).await;
        let mut rows = conn
            .query(&rig_libsql::candidates::counts_query("round_trip_documents"), ())
            .await
            .unwrap();
        let row = rows.next().await.unwrap().unwrap();
        assert_eq!((row.get::<i64>(0).unwrap(), row.get::<i64>(1).unwrap()), (1, 1));
        let index = store.index();
        let near = request("linglingdong", 5, Some(0.99), None);
        assert_eq!(ids(&conn, &index, near).await, vec!["a"]);
        let far = request("glarb", 5, Some(0.99), None);
        assert!(ids(&conn, &index, far).await.is_empty());
    });
}

#[derive(Clone)]
struct Loose {
    id: String,
}

impl LibsqlVectorStoreTable for Loose {
    fn name() -> &'static str {
        "loose"
    }

    fn schema() -> Vec<Column> {
        vec![Column::new("id", "TEXT")]
    }

    fn id(&self) -> String {
        self.id.clone()
    }

    fn column_values(&self) -> Vec<(&'static str, Box<dyn ColumnValue>)> {
        vec![("id", Box::new(self.id.clone()))]
    }
}

#[test]
fn embeddings_are_replaced_also_where_ids_are_not_unique() {
    block_on(async {
        let (_db, conn) = open().await;
        let (store, schema) = LibsqlVectorStore::<Loose>::new(3).unwrap();
        conn.execute_batch(&schema).await.unwrap();
        let other = Loose { id: "b".to_string() };
        let kept = vec![embedding(vec![1.0, 0.0, 0.0])];
        carry_out(&conn, store.add_rows(vec![(other, kept)])).await;
        for vector in vec![vec![0.0, 0.0, 1.0], vec![0.0, 1.0, 1.0], vec![0.0, 1.0, 0.0]] {
            let document = Loose { id: "a".to_string() };
            carry_out(&conn, store.add_rows(vec![(document, vec![embedding(vector)])])).await;
        }
        let counts = rig_libsql::candidates::counts_query("loose");
        let row = conn.query(&counts, ()).await.unwrap().next().await.unwrap().unwrap();
        assert_eq!((row.get::<i64>(0).unwrap(), row.get::<i64>(1).unwrap()), (2, 2));
        let index = store.index();
        let hits = look_up(&conn, index.top_n_ids(request("glarb", 5, None, None))).await.unwrap();
        assert_eq!(hits.len(), 2);
        assert_eq!(hits[0].1, "a");
        assert!(hits[0].0 > 0.9999);
        assert_eq!(hits[1].1, "b");
    });
}

#[test]
fn json_expressions_filter_by_plain_labels() {
    block_on(async {
        let (_db, conn) = open().await;
        let (store, schema) = LibsqlVectorStore::<Everything>::new(3).unwrap();
        conn.execute_batch(&schema).await.unwrap();
        let mut metadata = serde_json::Map::new();
        metadata.insert("source".to_string(), serde_json::Value::from("docs"));
        let document = Everything {
            id: 1,
            score: 0.0,
            flag: false,
            metadata: serde_json::Value::Object(metadata),
        };
        let embeddings = vec![embedding(vec![0.0, 1.0, 0.0])];
        carry_out(&conn, store.add_rows(vec![(document, embeddings)])).await;
        let index = store.index();
        for (key, value, hits) in vec![
            ("metadata->>'source'", "docs", 1),
            ("metadata->>'source'", "web", 0),
            ("metadata->'source'", "\"docs\"", 1),
        ] {
            let filter = LibsqlSearchFilter::eq(key, JsonValue::String(value.to_string()));
            let req = request("glarb", 5, None, Some(filter));
            assert_eq!(look_up(&conn, index.top_n(req)).await.unwrap().len(), hits);
        }
    });
}

#[test]
fn a_document_is_found_once_by_its_best_embedding() {
    block_on(async {
        let (_db, conn) = open().await;
        let crowd = (
            RoundTripDoc { id: "crowd".to_string(), content: "crowd".to_string() },
            vec![
                embedding(vec![0.0, 1.0, 0.1]),
                embedding(vec![0.0, 1.0, 0.0]),
                embedding(vec![0.0, 1.0, 0.2]),
            ],
        );
        let single = (
            RoundTripDoc { id: "single".to_string(), content: "single".to_string() },
            vec![embedding(vec![0.0, 1.0, 1.0])],
        );
        let index = filled(&conn, vec![crowd, single]).await.index();
        let hits = look_up(&conn, index.top_n_ids(request("glarb", 2, None, None))).await.unwrap();
        assert_eq!(hits.len(), 2);
        assert_eq!(hits[0].1, "crowd");
        assert!(hits[0].0 > 0.9999);
        assert_eq!(hits[1].1, "single");
    });
}

#[test]
fn an_alternative_keeps_to_the_threshold_and_to_one_row_for_each_document() {
    block_on(async {
        let (_db, conn) = open().await;
        let twice = (
            RoundTripDoc { id: "near".to_string(), content: "glarb".to_string() },
            vec![embedding(vec![0.0, 1.0, 0.0]), embedding(vec![0.0, 1.0, 0.1])],
        );
        let index = filled(&conn, vec![twice, round_trip_doc("far", "flurbo")]).await.index();
        let either = || content_is("glarb").or(content_is("flurbo"));

        let req = request("glarb", 5, Some(0.99), Some(either()));
        assert_eq!(ids(&conn, &index, req).await, vec!["near"]);
        let req = request("glarb", 5, None, Some(either()));
        assert_eq!(ids(&conn, &index, req).await, vec!["near", "far"]);
    });
}

#[test]
fn scores_of_both_metrics_are_higher_for_nearer_documents() {
    block_on(async {
        let (_db, conn) = open().await;
        let store = filled(&conn, Vec::new()).await;
        let near = embedding(vec![0.0, 2.0, 0.5]);
        let documents = vec![
            (RoundTripDoc { id: "near".to_string(), content: String::new() }, vec![near]),
            round_trip_doc("far", "flurbo"),
        ];
        carry_out(&conn, store.add_rows(documents)).await;
        for metric in vec![LibsqlDistanceMetric::Cosine, LibsqlDistanceMetric::Euclidean] {
            let (store, _) =
                LibsqlVectorStore::<RoundTripDoc>::with_distance_metric(3, metric).unwrap();
            let index = store.index();
            let hits =
                look_up(&conn, index.top_n_ids(request("glarb", 2, None, None))).await.unwrap();
            assert_eq!(hits[0].1, "near");
            assert_eq!(hits[1].1, "far");
            assert!(hits[0].0 > hits[1].0);
        }
    });
}

#[derive(Clone)]
struct Everything {
    id: i64,
    score: f64,
    flag: bool,
    metadata: serde_json::Value,
}

impl LibsqlVectorStoreTable for Everything {
    fn name() -> &'static str {
        "everything"
    }

    fn schema() -> Vec<Column> {
        vec![
            Column::new("id", "INTEGER PRIMARY KEY"),
            Column::new("score", "FLOAT"),
            Column::new("flag", "BOOLEAN"),
            Column::new("metadata", "JSON"),
        ]
    }

    fn id(&self) -> String {
        format!("{}", self.id)
    }

    fn column_values(&self) -> Vec<(&'static str, Box<dyn ColumnValue>)> {
        vec![
            ("id", Box::new(self.id)),
            ("score", Box::new(Double { bits: self.score.to_bits() })),
            ("flag", Box::new(self.flag)),
            ("metadata", Box::new(self.metadata.clone())),
        ]
    }
}

#[test]
fn every_kind_of_column_comes_back() {
    block_on(async {
        let (_db, conn) = open().await;
        let (store, schema) = LibsqlVectorStore::<Everything>::new(3).unwrap();
        conn.execute_batch(&schema).await.unwrap();
        let mut metadata = serde_json::Map::new();
        metadata.insert("source".to_string(), serde_json::Value::from("docs"));
        metadata.insert("tags".to_string(), serde_json::Value::from(vec!["a", "b"]));
        let document = Everything {
            id: 12,
            score: 0.25,
            flag: true,
            metadata: serde_json::Value::Object(metadata),
        };
        let embeddings = vec![embedding(vec![0.0, 1.0, 0.0])];
        carry_out(&conn, store.add_rows(vec![(document.clone(), embeddings)])).await;
        let index = store.index();
        let filter = LibsqlSearchFilter::eq(
            "metadata->>'$.source'",
            JsonValue::String("docs".to_string()),
        );
        let req = request("glarb", 5, None, Some(filter));
        let hits = look_up(&conn, index.top_n(req)).await.unwrap();
        assert_eq!(hits.len(), 1);
        let (_, id, found) = &hits[0];
        assert_eq!(id, "12");
        let found = found.as_ref().unwrap();
        assert_eq!(found["id"], serde_json::Value::from(12));
        assert_eq!(found["score"], serde_json::Value::from(0.25));
        assert_eq!(found["flag"], serde_json::Value::from(true));
        assert_eq!(found["metadata"], document.metadata);

        let filter = LibsqlSearchFilter::eq(
            "metadata->>'$.source'",
            JsonValue::String("web".to_string()),
        );
        let req = request("glarb", 5, None, Some(filter));
        assert!(look_up(&conn, index.top_n(req)).await.unwrap().is_empty());
    });
}
