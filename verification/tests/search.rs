use rig_libsql::error::{FilterError, StoreError};
use rig_libsql::json::JsonValue;
use rig_libsql::query::SearchRequest;
use rig_libsql::search::{keep_decoded, Search, SearchAction, SearchEvent, SearchHit};
use rig_libsql::value::LibsqlValue;
use rig_libsql::{Column, LibsqlDistanceMetric, LibsqlSearchFilter};

fn columns() -> Vec<Column> {
    vec![Column::new("content", "TEXT"), Column::new("id", "INTEGER")]
}

fn request(samples: u64, filter: Option<LibsqlSearchFilter>) -> SearchRequest {
    SearchRequest { query: "what?".to_string(), samples, threshold: None, filter }
}

fn start(
    columns: Vec<Column>,
    wants_documents: bool,
    request: SearchRequest,
) -> (Search, SearchAction) {
    Search::start("notes", LibsqlDistanceMetric::Cosine, columns, wants_documents, request)
}

fn step(search: &mut Search, event: SearchEvent) -> SearchAction {
    assert!(search.accepts(&event));
    search.next(event)
}

// A search up to its rows, and the parameters of its query.
fn running(wants_documents: bool, request: SearchRequest) -> (Search, Vec<LibsqlValue>) {
    let (mut search, action) = start(columns(), wants_documents, request);
    assert!(matches!(action, SearchAction::Embed(text) if text == "what?"));
    let counting = step(&mut search, SearchEvent::Embedded(vec![1, 2]));
    assert!(matches!(counting, SearchAction::Count(sql) if sql.contains("COUNT(*)")));
    let params = match step(&mut search, SearchEvent::Counted(Some((10, 5)))) {
        SearchAction::Query(statement) => {
            assert!(statement.sql.contains("vector_distance_cos"));
            statement.params
        }
        other => panic!("{:?}", other),
    };
    assert!(matches!(step(&mut search, SearchEvent::Running), SearchAction::NextRow));
    (search, params)
}

#[test]
fn a_search_for_nothing_asks_for_nothing() {
    let (search, action) = start(Vec::new(), true, request(0, None));
    assert!(matches!(action, SearchAction::Finish));
    assert!(!search.accepts(&SearchEvent::NoRow));
    assert!(!search.accepts(&SearchEvent::Embedded(Vec::new())));
}

#[test]
fn documents_need_an_id_column() {
    let without = vec![Column::new("content", "TEXT")];
    let (_, action) = start(without.clone(), true, request(1, None));
    match action {
        SearchAction::Fail(StoreError::MissingId(error)) => assert_eq!(error.table_name, "notes"),
        other => panic!("{:?}", other),
    }
    // Ids are missed once the query runs.
    let (mut search, _) = start(without, false, request(1, None));
    step(&mut search, SearchEvent::Embedded(vec![1]));
    step(&mut search, SearchEvent::Counted(None));
    assert!(matches!(
        step(&mut search, SearchEvent::Running),
        SearchAction::Fail(StoreError::MissingId(_))
    ));
}

#[test]
fn the_query_binds_the_vector_and_the_limits() {
    let (_, params) = running(true, request(3, None));
    let blob = LibsqlValue::Blob(vec![1, 0, 0, 0, 2, 0, 0, 0]);
    assert_eq!(
        params,
        vec![blob.clone(), blob, LibsqlValue::Integer(8), LibsqlValue::Integer(3)]
    );
}

#[test]
fn a_filter_takes_every_candidate() {
    let filter = LibsqlSearchFilter::eq("content", JsonValue::Bool(true));
    let (_, params) = running(false, request(3, Some(filter)));
    assert_eq!(params[2], LibsqlValue::Integer(10));
    assert_eq!(params[3], LibsqlValue::Integer(1));
}

#[test]
fn counts_that_failed_leave_the_samples() {
    let (mut search, _) = start(columns(), true, request(3, None));
    step(&mut search, SearchEvent::Embedded(vec![1]));
    match step(&mut search, SearchEvent::Counted(None)) {
        SearchAction::Query(statement) => assert_eq!(statement.params[2], LibsqlValue::Integer(3)),
        other => panic!("{:?}", other),
    }
}

#[test]
fn a_bad_filter_fails_before_the_database_is_asked() {
    let filter = LibsqlSearchFilter::is_null("a-b");
    let (mut search, action) = start(columns(), true, request(3, Some(filter)));
    assert!(matches!(action, SearchAction::Embed(_)));
    assert!(matches!(
        step(&mut search, SearchEvent::Embedded(vec![1])),
        SearchAction::Fail(StoreError::Filter(FilterError::TypeError(_)))
    ));
    assert!(!search.accepts(&SearchEvent::Counted(None)));
}

#[test]
fn documents_are_delivered() {
    let (mut search, _) = running(true, request(3, None));
    assert_eq!(search.width(), 2);
    assert_eq!(search.score_index(), 2);
    let values = vec![LibsqlValue::Text("x".to_string()), LibsqlValue::Integer(7)];
    let hit = match step(&mut search, SearchEvent::Row(99, values)) {
        SearchAction::Deliver(hit) => hit,
        other => panic!("{:?}", other),
    };
    assert_eq!((hit.score, hit.id.as_str()), (99, "7"));
    let document = hit.document.unwrap();
    assert_eq!(document["content"], serde_json::Value::from("x"));
    assert_eq!(document["id"], serde_json::Value::from(7));
    assert!(matches!(step(&mut search, SearchEvent::NoRow), SearchAction::Finish));
    assert!(!search.accepts(&SearchEvent::NoRow));
}

#[test]
fn ids_are_delivered() {
    let (mut search, _) = running(false, request(3, None));
    assert_eq!(search.width(), 1);
    assert_eq!(search.score_index(), 1);
    for i in 0..3_i64 {
        let event = SearchEvent::Row(i as u64, vec![LibsqlValue::Integer(i)]);
        match step(&mut search, event) {
            SearchAction::Deliver(hit) => {
                assert_eq!(
                    hit,
                    SearchHit { score: i as u64, id: format!("{}", i), document: None }
                );
            }
            other => panic!("{:?}", other),
        }
    }
    assert!(matches!(step(&mut search, SearchEvent::NoRow), SearchAction::Finish));
}

#[test]
fn both_searches_deliver_the_same_score_and_id() {
    let rows = vec![
        (1.5f64.to_bits(), LibsqlValue::Integer(7)),
        (0.5f64.to_bits(), LibsqlValue::Text("x".to_string())),
        (0.0f64.to_bits(), LibsqlValue::Real(2.5f64.to_bits())),
    ];
    let (mut documents, _) = running(true, request(3, None));
    let (mut ids, _) = running(false, request(3, None));
    for (score, id) in rows {
        let row = SearchEvent::Row(score, vec![LibsqlValue::Null, id.clone()]);
        let whole = step(&mut documents, row);
        let short = step(&mut ids, SearchEvent::Row(score, vec![id]));
        match (whole, short) {
            (SearchAction::Deliver(whole), SearchAction::Deliver(short)) => {
                assert_eq!((whole.score, whole.id), (short.score, short.id));
                assert!(whole.document.is_some());
                assert!(short.document.is_none());
            }
            other => panic!("{:?}", other),
        }
    }
}

#[test]
fn a_row_that_cannot_be_read_fails_the_search() {
    let (mut search, _) = running(true, request(3, None));
    let values = vec![LibsqlValue::Real(f64::NAN.to_bits()), LibsqlValue::Null];
    match step(&mut search, SearchEvent::Row(0, values)) {
        SearchAction::Fail(StoreError::ColumnValue(error)) => {
            assert_eq!((error.column_name, error.index), ("content", 0));
        }
        other => panic!("{:?}", other),
    }
    assert!(!search.accepts(&SearchEvent::NoRow));

    let (mut search, _) = running(true, request(3, None));
    match step(&mut search, SearchEvent::Row(0, vec![LibsqlValue::Null, LibsqlValue::Null])) {
        SearchAction::Fail(StoreError::ColumnValue(error)) => {
            assert_eq!((error.column_name, error.index), ("id", 1));
            assert_eq!(error.message, "id cannot be NULL or BLOB");
        }
        other => panic!("{:?}", other),
    }

    let (mut search, _) = running(false, request(3, None));
    match step(&mut search, SearchEvent::Row(0, vec![LibsqlValue::Blob(Vec::new())])) {
        SearchAction::Fail(StoreError::ColumnValue(error)) => {
            assert_eq!((error.column_name, error.index), ("id", 0));
        }
        other => panic!("{:?}", other),
    }
}

#[test]
fn rows_of_another_width_are_not_accepted() {
    let (search, _) = running(true, request(3, None));
    assert!(!search.accepts(&SearchEvent::Row(0, vec![LibsqlValue::Null])));
    assert!(!search.accepts(&SearchEvent::Running));
    let (search, _) = running(false, request(3, None));
    assert!(!search.accepts(&SearchEvent::Row(0, Vec::new())));
}

#[test]
fn documents_that_cannot_be_decoded_are_left_out() {
    let rows = vec![
        (3, "a".to_string(), Some('x')),
        (2, "b".to_string(), None),
        (1, "c".to_string(), Some('z')),
    ];
    assert_eq!(
        keep_decoded(rows),
        vec![(3, "a".to_string(), 'x'), (1, "c".to_string(), 'z')]
    );
}
