use rig_libsql::error::FilterError;
use rig_libsql::filter::LibsqlSearchFilterExpr;
use rig_libsql::json::JsonValue;
use rig_libsql::query::{
    build_top_n_query, render_search_filters, LibsqlRenderedFilter, SearchRequest,
};
use rig_libsql::value::LibsqlValue;
use rig_libsql::{Column, LibsqlDistanceMetric, LibsqlSearchFilter};

fn request(threshold: Option<f64>, filter: Option<LibsqlSearchFilter>) -> SearchRequest {
    SearchRequest {
        query: "text".to_string(),
        samples: 5,
        threshold: threshold.map(|t| t.to_bits()),
        filter,
    }
}

fn category(value: &str) -> LibsqlSearchFilter {
    LibsqlSearchFilter::eq("category", JsonValue::String(value.to_string()))
}

fn rendered(threshold: Option<f64>, filter: Option<LibsqlSearchFilter>) -> LibsqlRenderedFilter {
    render_search_filters(&request(threshold, filter), "ranked.__rig_score").unwrap()
}

#[test]
fn a_search_without_conditions_adds_none() {
    let filter = rendered(None, None);
    assert!(!filter.has_filters);
    assert_eq!(filter.document_clause, "");
    assert!(filter.params.is_empty());
}

#[test]
fn a_threshold_bounds_the_score() {
    let filter = rendered(Some(0.75), None);
    assert!(filter.has_filters);
    assert_eq!(filter.document_clause, " AND ranked.__rig_score >= ?");
    assert_eq!(filter.params, vec![LibsqlValue::Real(0.75f64.to_bits())]);
}

#[test]
fn a_filter_is_added() {
    let filter = rendered(None, Some(category("docs")));
    assert!(filter.has_filters);
    assert_eq!(filter.document_clause, " AND d.category = ?");
    assert_eq!(filter.params, vec![LibsqlValue::Text("docs".to_string())]);
}

#[test]
fn the_threshold_stands_before_the_filter() {
    let both = category("a").and(category("b"));
    let filter = rendered(Some(0.5), Some(both));
    assert_eq!(
        filter.document_clause,
        " AND ranked.__rig_score >= ? AND (d.category = ?) AND (d.category = ?)"
    );
    assert_eq!(
        filter.params,
        vec![
            LibsqlValue::Real(0.5f64.to_bits()),
            LibsqlValue::Text("a".to_string()),
            LibsqlValue::Text("b".to_string()),
        ]
    );
}

#[test]
fn an_alternative_is_one_condition() {
    let either = category("a").or(category("b"));
    let filter = rendered(Some(0.5), Some(either));
    assert_eq!(
        filter.document_clause,
        " AND ranked.__rig_score >= ? AND ((d.category = ?) OR (d.category = ?))"
    );
    let raw = LibsqlSearchFilter {
        expr: LibsqlSearchFilterExpr::Raw {
            condition: "a = 1 OR b = 2".to_string(),
            params: Vec::new(),
        },
    };
    assert_eq!(rendered(None, Some(raw)).document_clause, " AND (a = 1 OR b = 2)");
}

#[test]
fn a_filter_that_cannot_be_rendered_is_refused() {
    let request = request(Some(0.5), Some(LibsqlSearchFilter::is_null("a-b")));
    assert!(matches!(
        render_search_filters(&request, "score"),
        Err(FilterError::TypeError(_))
    ));
}

#[test]
fn the_query_scores_ranks_and_filters() {
    let columns = vec![Column::new("id", "TEXT PRIMARY KEY"), Column::new("content", "TEXT")];
    let statement = build_top_n_query(
        "notes",
        LibsqlDistanceMetric::Cosine,
        vec![1, 2, 3, 4],
        rendered(Some(0.5), Some(category("docs"))),
        &columns,
        true,
        8,
        3,
    );
    assert_eq!(
        statement.sql,
        "WITH scored_raw AS (
            SELECT m.document_rowid AS __rig_document_rowid,
                   (1 - vector_distance_cos(?, e.embedding)) AS __rig_score
            FROM notes_embeddings e
            JOIN notes_embedding_map m ON e.rowid = m.embedding_rowid
            WHERE e.rowid IN (
                SELECT rowid FROM vector_top_k('notes_embeddings_idx', vector(?), ?)
            )
         ),
         ranked AS (
            SELECT __rig_document_rowid AS __rig_document_rowid,
                   __rig_score AS __rig_score,
                   ROW_NUMBER() OVER (
                       PARTITION BY __rig_document_rowid
                       ORDER BY __rig_score DESC, __rig_document_rowid ASC
                   ) AS __rig_rank
            FROM scored_raw
         )
         SELECT d.id AS id, d.content AS content, ranked.__rig_score
         FROM ranked
         JOIN notes d ON ranked.__rig_document_rowid = d.rowid
         WHERE ranked.__rig_rank = 1 AND ranked.__rig_score >= ? AND d.category = ?
         ORDER BY ranked.__rig_score DESC, d.id ASC
         LIMIT ?"
    );
    assert_eq!(
        statement.params,
        vec![
            LibsqlValue::Blob(vec![1, 2, 3, 4]),
            LibsqlValue::Blob(vec![1, 2, 3, 4]),
            LibsqlValue::Integer(8),
            LibsqlValue::Real(0.5f64.to_bits()),
            LibsqlValue::Text("docs".to_string()),
            LibsqlValue::Integer(3),
        ]
    );
    assert_eq!(statement.sql.matches('?').count(), statement.params.len());
}

#[test]
fn ids_are_selected_by_the_same_query() {
    let columns = vec![Column::new("id", "TEXT"), Column::new("content", "TEXT")];
    let build = |include_document| {
        build_top_n_query(
            "notes",
            LibsqlDistanceMetric::Euclidean,
            vec![0; 4],
            rendered(None, None),
            &columns,
            include_document,
            u64::MAX,
            u64::MAX,
        )
    };
    let documents = build(true);
    let ids = build(false);
    assert_eq!(
        documents.sql.replace("d.id AS id, d.content AS content", "d.id"),
        ids.sql
    );
    assert_eq!(documents.params, ids.params);
    assert_eq!(ids.params[2], LibsqlValue::Integer(i64::MAX));
    assert_eq!(ids.params[3], LibsqlValue::Integer(i64::MAX));
    assert!(ids.sql.contains("(-vector_distance_l2(?, e.embedding)) AS __rig_score"));
}
