//! The SQL of a vector search.

use vstd::prelude::*;
use vstd::string::*;

use crate::column::{column_views, Column, ColumnView};
use crate::error::{FilterError, FilterErrorView};
use crate::filter::{
    binds_its_marks, law_filter_binds_every_placeholder, rendered, ClauseView, LibsqlSearchFilter,
    LibsqlSearchFilterExpr,
};
use crate::insert::{Statement, StatementView};
use crate::metric::{distance_sql, score_sql, LibsqlDistanceMetric};
use crate::placeholder::{lemma_no_marks, lemma_placeholders_add, marks_before, placeholders};
use crate::schema::{
    embedding_map_table, embedding_map_table_name, embeddings_index, embeddings_index_name,
    embeddings_table, embeddings_table_name,
};
use crate::text::{join, joined, views};
use crate::value::{sql_views, LibsqlValue, SqlView};

verus! {

/// What a search is asked for.
#[derive(Debug)]
pub struct SearchRequest {
    /// The text to search for.
    pub query: String,
    /// The largest number of documents to return.
    pub samples: u64,
    /// The smallest score to return, by the bit pattern of a double.
    pub threshold: Option<u64>,
    /// What the documents must satisfy.
    pub filter: Option<LibsqlSearchFilter>,
}

/// Materialized search predicates: the score threshold plus any document filters.
///
/// Both are applied in the outer query, where the precomputed score column
/// (`score_column`, e.g. `ranked.__rig_score`) and the document table (`d.*`)
/// are both in scope. The score itself is computed once inside the `scored_raw`
/// CTE, so the threshold references that column rather than re-evaluating the
/// distance function.
#[derive(Debug)]
pub struct LibsqlRenderedFilter {
    pub has_filters: bool,
    pub document_clause: String,
    pub params: Vec<LibsqlValue>,
}

/// What a [`LibsqlRenderedFilter`] stands for.
#[verifier::ext_equal]
pub struct RenderedFilterView {
    pub has_filters: bool,
    pub document_clause: Seq<char>,
    pub params: Seq<SqlView>,
}

impl View for LibsqlRenderedFilter {
    type V = RenderedFilterView;

    open spec fn view(&self) -> RenderedFilterView {
        RenderedFilterView {
            has_filters: self.has_filters,
            document_clause: self.document_clause@,
            params: sql_views(self.params@),
        }
    }
}

/// The condition that the score reaches the threshold, added to what stands before.
pub open spec fn threshold_clause(score_column: Seq<char>, threshold: Option<u64>) -> ClauseView {
    match threshold {
        Some(bits) => ClauseView {
            condition: " AND "@ + score_column + " >= ?"@,
            params: seq![SqlView::Real(bits)],
        },
        None => ClauseView { condition: Seq::empty(), params: Seq::empty() },
    }
}

/// Whether the condition of the expression may bind weaker than `AND`: it does where it is an
/// `OR`, and a raw condition may be one.
pub open spec fn binds_weakly(expr: LibsqlSearchFilterExpr) -> bool {
    expr is Or || expr is Raw
}

/// The condition that the filter is satisfied, added to what stands before. It stands in
/// parentheses where it may bind weaker than the `AND` that adds it.
pub open spec fn filter_clause(filter: Option<LibsqlSearchFilterExpr>) -> Result<
    ClauseView,
    FilterErrorView,
> {
    match filter {
        Some(expr) => match rendered(expr) {
            Ok(clause) => Ok(
                ClauseView {
                    condition: if binds_weakly(expr) {
                        " AND ("@ + clause.condition + ")"@
                    } else {
                        " AND "@ + clause.condition
                    },
                    params: clause.params,
                },
            ),
            Err(error) => Err(error),
        },
        None => Ok(ClauseView { condition: Seq::empty(), params: Seq::empty() }),
    }
}

/// The expression of a filter, where there is one.
pub open spec fn filter_expr(filter: Option<LibsqlSearchFilter>) -> Option<
    LibsqlSearchFilterExpr,
> {
    match filter {
        Some(f) => Some(f.expr),
        None => None,
    }
}

/// The threshold and the filter of a search: both must hold, and their parameters come in
/// the same order.
pub open spec fn search_filters(
    threshold: Option<u64>,
    filter: Option<LibsqlSearchFilterExpr>,
    score_column: Seq<char>,
) -> Result<RenderedFilterView, FilterErrorView> {
    match filter_clause(filter) {
        Ok(clause) => Ok(
            RenderedFilterView {
                has_filters: threshold is Some || filter is Some,
                document_clause: threshold_clause(score_column, threshold).condition
                    + clause.condition,
                params: threshold_clause(score_column, threshold).params + clause.params,
            },
        ),
        Err(error) => Err(error),
    }
}

/// Rendered filters, by their view.
pub open spec fn filters_result(result: Result<LibsqlRenderedFilter, FilterError>) -> Result<
    RenderedFilterView,
    FilterErrorView,
> {
    match result {
        Ok(filter) => Ok(filter@),
        Err(error) => Err(error@),
    }
}

/// Renders the threshold (against the precomputed score column) plus the request's
/// document-table filter.
pub fn render_search_filters(request: &SearchRequest, score_column: &str) -> (result: Result<
    LibsqlRenderedFilter,
    FilterError,
>)
    ensures
        filters_result(result) == search_filters(
            request.threshold,
            filter_expr(request.filter),
            score_column@,
        ),
{
    let mut document_clause = String::new();
    let mut params: Vec<LibsqlValue> = Vec::new();
    let mut has_filters = false;
    if let Some(bits) = request.threshold {
        document_clause.append(" AND ");
        document_clause.append(score_column);
        document_clause.append(" >= ?");
        params.push(LibsqlValue::Real(bits));
        has_filters = true;
    }
    let ghost first = threshold_clause(score_column@, request.threshold);
    assert(document_clause@ =~= first.condition);
    assert(sql_views(params@) =~= first.params);
    if let Some(filter) = &request.filter {
        let (condition, mut filter_params) = filter.render()?;
        let ghost second = sql_views(filter_params@);
        let weak = match &filter.expr {
            LibsqlSearchFilterExpr::Or(_, _) | LibsqlSearchFilterExpr::Raw { .. } => true,
            _ => false,
        };
        if weak {
            document_clause.append(" AND (");
            document_clause.append(condition.as_str());
            document_clause.append(")");
            assert(document_clause@ =~= first.condition + (" AND ("@ + condition@ + ")"@));
        } else {
            document_clause.append(" AND ");
            document_clause.append(condition.as_str());
            assert(document_clause@ =~= first.condition + (" AND "@ + condition@));
        }
        params.append(&mut filter_params);
        has_filters = true;
        assert(sql_views(params@) =~= first.params + second);
    } else {
        assert(document_clause@ =~= first.condition + Seq::empty());
        assert(sql_views(params@) =~= first.params + Seq::empty());
    }
    Ok(LibsqlRenderedFilter { has_filters, document_clause, params })
}

/// A column as the outer query selects it.
pub open spec fn selected_column(column: ColumnView) -> Seq<char> {
    "d."@ + column.name + " AS "@ + column.name
}

/// What the outer query selects of a document: every column, or only the id.
pub open spec fn selected(columns: Seq<ColumnView>, include_document: bool) -> Seq<char> {
    if include_document {
        joined(columns.map_values(|c: ColumnView| selected_column(c)), ", "@)
    } else {
        "d.id"@
    }
}

/// The score of a candidate, once per candidate, in the query for the candidates.
pub open spec fn scored_sql(table_name: Seq<char>, metric: LibsqlDistanceMetric) -> Seq<char> {
    "WITH scored_raw AS ("@ + "\n            SELECT m.document_rowid AS __rig_document_rowid,"@
        + "\n                   "@ + score_sql(metric, "?"@, "e.embedding"@)
        + " AS __rig_score\n            FROM "@ + embeddings_table(table_name)
        + " e\n            JOIN "@ + embedding_map_table(table_name)
        + " m ON e.rowid = m.embedding_rowid"@ + "\n            WHERE e.rowid IN ("@
        + "\n                SELECT rowid FROM vector_top_k('"@ + embeddings_index(table_name)
        + "', vector(?), ?)"@ + "\n            )\n         ),"@
}

/// The rank of a candidate among those of its document, the best score first.
pub open spec fn ranked_sql() -> Seq<char> {
    "\n         ranked AS ("@
        + "\n            SELECT __rig_document_rowid AS __rig_document_rowid,"@
        + "\n                   __rig_score AS __rig_score,"@
        + "\n                   ROW_NUMBER() OVER ("@
        + "\n                       PARTITION BY __rig_document_rowid"@
        + "\n                       ORDER BY __rig_score DESC, __rig_document_rowid ASC"@
        + "\n                   ) AS __rig_rank"@ + "\n            FROM scored_raw\n         )"@
}

/// The documents of the best candidates that satisfy the filters, best score first, ids
/// in order among equals.
pub open spec fn outer_sql(
    table_name: Seq<char>,
    selection: Seq<char>,
    document_clause: Seq<char>,
) -> Seq<char> {
    "\n         SELECT "@ + selection + ", ranked.__rig_score"@
        + "\n         FROM ranked\n         JOIN "@ + table_name
        + " d ON ranked.__rig_document_rowid = d.rowid"@
        + "\n         WHERE ranked.__rig_rank = 1"@ + document_clause
        + "\n         ORDER BY ranked.__rig_score DESC, d.id ASC"@ + "\n         LIMIT ?"@
}

/// A count as an SQL integer; one past the largest is the largest.
pub open spec fn as_sql_integer(count: u64) -> i64 {
    if count <= i64::MAX {
        count as i64
    } else {
        i64::MAX
    }
}

/// The query of a search. Its parameters: the query vector for the score, the query
/// vector for the index, the number of candidates, those of the filters, the number of
/// documents.
pub open spec fn top_n_statement(
    table_name: Seq<char>,
    metric: LibsqlDistanceMetric,
    query_blob: Seq<u8>,
    filter: RenderedFilterView,
    columns: Seq<ColumnView>,
    include_document: bool,
    candidates: u64,
    samples: u64,
) -> StatementView {
    StatementView {
        sql: scored_sql(table_name, metric) + ranked_sql() + outer_sql(
            table_name,
            selected(columns, include_document),
            filter.document_clause,
        ),
        params: seq![
            SqlView::Blob(query_blob),
            SqlView::Blob(query_blob),
            SqlView::Integer(as_sql_integer(candidates)),
        ] + filter.params + seq![SqlView::Integer(as_sql_integer(samples))],
    }
}

fn to_sql_integer(count: u64) -> (value: i64)
    ensures
        value == as_sql_integer(count),
{
    if count <= i64::MAX as u64 {
        count as i64
    } else {
        i64::MAX
    }
}

fn selection_list(columns: &Vec<Column>, include_document: bool) -> (list: String)
    ensures
        list@ == selected(column_views(columns@), include_document),
{
    if !include_document {
        return "d.id".to_owned();
    }
    let ghost all = column_views(columns@).map_values(|c: ColumnView| selected_column(c));
    let mut selections: Vec<String> = Vec::new();
    let mut i: usize = 0;
    while i < columns.len()
        invariant
            i <= columns.len(),
            all == column_views(columns@).map_values(|c: ColumnView| selected_column(c)),
            views(selections@) == all.take(i as int),
        decreases columns.len() - i,
    {
        let ghost before = selections@;
        let mut selection = "d.".to_owned();
        selection.append(columns[i].name());
        selection.append(" AS ");
        selection.append(columns[i].name());
        selections.push(selection);
        proof {
            assert(views(selections@) =~= views(before).push(selection@));
            assert(all.take(i + 1) =~= all.take(i as int).push(all[i as int]));
        }
        i += 1;
    }
    assert(all.take(i as int) =~= all);
    join(&selections, ", ")
}

fn append_scored(sql: &mut String, table_name: &str, metric: LibsqlDistanceMetric)
    ensures
        final(sql)@ == old(sql)@ + scored_sql(table_name@, metric),
{
    let mut text = "WITH scored_raw AS (".to_owned();
    text.append("\n            SELECT m.document_rowid AS __rig_document_rowid,");
    text.append("\n                   ");
    text.append(metric.score_expression("?", "e.embedding").as_str());
    text.append(" AS __rig_score\n            FROM ");
    text.append(embeddings_table_name(table_name).as_str());
    text.append(" e\n            JOIN ");
    text.append(embedding_map_table_name(table_name).as_str());
    text.append(" m ON e.rowid = m.embedding_rowid");
    text.append("\n            WHERE e.rowid IN (");
    text.append("\n                SELECT rowid FROM vector_top_k('");
    text.append(embeddings_index_name(table_name).as_str());
    text.append("', vector(?), ?)");
    text.append("\n            )\n         ),");
    sql.append(text.as_str());
}

fn append_ranked(sql: &mut String)
    ensures
        final(sql)@ == old(sql)@ + ranked_sql(),
{
    let mut text = "\n         ranked AS (".to_owned();
    text.append("\n            SELECT __rig_document_rowid AS __rig_document_rowid,");
    text.append("\n                   __rig_score AS __rig_score,");
    text.append("\n                   ROW_NUMBER() OVER (");
    text.append("\n                       PARTITION BY __rig_document_rowid");
    text.append("\n                       ORDER BY __rig_score DESC, __rig_document_rowid ASC");
    text.append("\n                   ) AS __rig_rank");
    text.append("\n            FROM scored_raw\n         )");
    sql.append(text.as_str());
}

fn append_outer(sql: &mut String, table_name: &str, selection: &str, document_clause: &str)
    ensures
        final(sql)@ == old(sql)@ + outer_sql(table_name@, selection@, document_clause@),
{
    let mut text = "\n         SELECT ".to_owned();
    text.append(selection);
    text.append(", ranked.__rig_score");
    text.append("\n         FROM ranked\n         JOIN ");
    text.append(table_name);
    text.append(" d ON ranked.__rig_document_rowid = d.rowid");
    text.append("\n         WHERE ranked.__rig_rank = 1");
    text.append(document_clause);
    text.append("\n         ORDER BY ranked.__rig_score DESC, d.id ASC");
    text.append("\n         LIMIT ?");
    sql.append(text.as_str());
}

/// Builds the `vector_top_k`-based search query.
///
/// Candidate rowids come from `vector_top_k`; every candidate is scored again exactly, so
/// that thresholding and ordering are precise though candidate retrieval is approximate.
/// `include_document` selects whether the document columns are projected or only `id` +
/// score.
pub fn build_top_n_query(
    table_name: &str,
    metric: LibsqlDistanceMetric,
    query_blob: Vec<u8>,
    filter: LibsqlRenderedFilter,
    columns: &Vec<Column>,
    include_document: bool,
    candidates: u64,
    samples: u64,
) -> (statement: Statement)
    ensures
        statement@ == top_n_statement(
            table_name@,
            metric,
            query_blob@,
            filter@,
            column_views(columns@),
            include_document,
            candidates,
            samples,
        ),
{
    let mut sql = String::new();
    append_scored(&mut sql, table_name, metric);
    append_ranked(&mut sql);
    append_outer(
        &mut sql,
        table_name,
        selection_list(columns, include_document).as_str(),
        filter.document_clause.as_str(),
    );
    proof {
        let scored = scored_sql(table_name@, metric);
        assert(Seq::<char>::empty() + scored =~= scored);
    }
    let blob = LibsqlValue::Blob(query_blob);
    let mut params = vec![
        blob.clone(),
        blob,
        LibsqlValue::Integer(to_sql_integer(candidates)),
    ];
    let mut filter_params = filter.params;
    params.append(&mut filter_params);
    params.push(LibsqlValue::Integer(to_sql_integer(samples)));
    proof {
        assert(sql_views(params@) =~= seq![
            SqlView::Blob(query_blob@),
            SqlView::Blob(query_blob@),
            SqlView::Integer(as_sql_integer(candidates)),
        ] + sql_views(filter.params@) + seq![SqlView::Integer(as_sql_integer(samples))]);
    }
    Statement { sql, params }
}

/// The question marks in the words of the query for the candidates.
proof fn lemma_scored_words()
    ensures
        placeholders("WITH scored_raw AS ("@) == 0,
        placeholders("\n            SELECT m.document_rowid AS __rig_document_rowid,"@) == 0,
        placeholders("\n                   "@) == 0,
        placeholders(" AS __rig_score\n            FROM "@) == 0,
        placeholders(" e\n            JOIN "@) == 0,
        placeholders(" m ON e.rowid = m.embedding_rowid"@) == 0,
        placeholders("\n            WHERE e.rowid IN ("@) == 0,
        placeholders("\n                SELECT rowid FROM vector_top_k('"@) == 0,
        placeholders("', vector(?), ?)"@) == 2,
        placeholders("\n            )\n         ),"@) == 0,
        placeholders("_embeddings"@) == 0,
        placeholders("_embedding_map"@) == 0,
        placeholders("_embeddings_idx"@) == 0,
{
    reveal_with_fuel(marks_before, 70);
    reveal_strlit("WITH scored_raw AS (");
    reveal_strlit("\n            SELECT m.document_rowid AS __rig_document_rowid,");
    reveal_strlit("\n                   ");
    reveal_strlit(" AS __rig_score\n            FROM ");
    reveal_strlit(" e\n            JOIN ");
    reveal_strlit(" m ON e.rowid = m.embedding_rowid");
    reveal_strlit("\n            WHERE e.rowid IN (");
    reveal_strlit("\n                SELECT rowid FROM vector_top_k('");
    reveal_strlit("', vector(?), ?)");
    reveal_strlit("\n            )\n         ),");
    reveal_strlit("_embeddings");
    reveal_strlit("_embedding_map");
    reveal_strlit("_embeddings_idx");
}

/// The question marks in the words of a score.
proof fn lemma_score_marks(metric: LibsqlDistanceMetric)
    ensures
        placeholders(score_sql(metric, "?"@, "e.embedding"@)) == 1,
{
    broadcast use lemma_placeholders_add;

    reveal_with_fuel(marks_before, 25);
    reveal_strlit("vector_distance_cos");
    reveal_strlit("vector_distance_l2");
    reveal_strlit("(1 - ");
    reveal_strlit("(-");
    reveal_strlit("(");
    reveal_strlit("?");
    reveal_strlit(", ");
    reveal_strlit("e.embedding");
    reveal_strlit("))");
    assert(placeholders(distance_sql(metric)) == 0);
    assert(placeholders("(1 - "@) == 0);
    assert(placeholders("(-"@) == 0);
    assert(placeholders("("@) == 0);
    assert(placeholders("?"@) == 1);
    assert(placeholders(", "@) == 0);
    assert(placeholders("e.embedding"@) == 0);
    assert(placeholders("))"@) == 0);
}

proof fn lemma_scored_marks(table_name: Seq<char>, metric: LibsqlDistanceMetric)
    requires
        !table_name.contains('?'),
    ensures
        placeholders(scored_sql(table_name, metric)) == 3,
{
    broadcast use lemma_placeholders_add;

    lemma_scored_words();
    lemma_score_marks(metric);
    lemma_no_marks(table_name, table_name.len() as int);
}

proof fn lemma_ranked_marks()
    ensures
        placeholders(ranked_sql()) == 0,
{
    broadcast use lemma_placeholders_add;

    reveal_with_fuel(marks_before, 90);
    reveal_strlit("\n         ranked AS (");
    reveal_strlit("\n            SELECT __rig_document_rowid AS __rig_document_rowid,");
    reveal_strlit("\n                   __rig_score AS __rig_score,");
    reveal_strlit("\n                   ROW_NUMBER() OVER (");
    reveal_strlit("\n                       PARTITION BY __rig_document_rowid");
    reveal_strlit("\n                       ORDER BY __rig_score DESC, __rig_document_rowid ASC");
    reveal_strlit("\n                   ) AS __rig_rank");
    reveal_strlit("\n            FROM scored_raw\n         )");
    assert(placeholders("\n         ranked AS ("@) == 0);
    assert(placeholders("\n            SELECT __rig_document_rowid AS __rig_document_rowid,"@) == 0);
    assert(placeholders("\n                   __rig_score AS __rig_score,"@) == 0);
    assert(placeholders("\n                   ROW_NUMBER() OVER ("@) == 0);
    assert(placeholders("\n                       PARTITION BY __rig_document_rowid"@) == 0);
    assert(placeholders(
        "\n                       ORDER BY __rig_score DESC, __rig_document_rowid ASC"@,
    ) == 0);
    assert(placeholders("\n                   ) AS __rig_rank"@) == 0);
    assert(placeholders("\n            FROM scored_raw\n         )"@) == 0);
}

/// The question marks in the words of the outer query.
proof fn lemma_outer_words()
    ensures
        placeholders("\n         SELECT "@) == 0,
        placeholders(", ranked.__rig_score"@) == 0,
        placeholders("\n         FROM ranked\n         JOIN "@) == 0,
        placeholders(" d ON ranked.__rig_document_rowid = d.rowid"@) == 0,
        placeholders("\n         WHERE ranked.__rig_rank = 1"@) == 0,
        placeholders("\n         ORDER BY ranked.__rig_score DESC, d.id ASC"@) == 0,
        placeholders("\n         LIMIT ?"@) == 1,
        placeholders("d.id"@) == 0,
        placeholders("d."@) == 0,
        placeholders(" AS "@) == 0,
        placeholders(", "@) == 0,
        placeholders(" AND "@) == 0,
        placeholders(" AND ("@) == 0,
        placeholders(")"@) == 0,
        placeholders(" >= ?"@) == 1,
{
    reveal_with_fuel(marks_before, 60);
    reveal_strlit("\n         SELECT ");
    reveal_strlit(", ranked.__rig_score");
    reveal_strlit("\n         FROM ranked\n         JOIN ");
    reveal_strlit(" d ON ranked.__rig_document_rowid = d.rowid");
    reveal_strlit("\n         WHERE ranked.__rig_rank = 1");
    reveal_strlit("\n         ORDER BY ranked.__rig_score DESC, d.id ASC");
    reveal_strlit("\n         LIMIT ?");
    reveal_strlit("d.id");
    reveal_strlit("d.");
    reveal_strlit(" AS ");
    reveal_strlit(", ");
    reveal_strlit(" AND ");
    reveal_strlit(" AND (");
    reveal_strlit(")");
    reveal_strlit(" >= ?");
}

proof fn lemma_selected_marks(columns: Seq<ColumnView>, include_document: bool)
    requires
        forall|i: int| 0 <= i < columns.len() ==> !(#[trigger] columns[i]).name.contains('?'),
    ensures
        placeholders(selected(columns, include_document)) == 0,
    decreases columns.len(),
{
    broadcast use lemma_placeholders_add;

    lemma_outer_words();
    if include_document && columns.len() > 0 {
        let names = columns.map_values(|c: ColumnView| selected_column(c));
        let name = columns.last().name;
        lemma_no_marks(name, name.len() as int);
        assert(names.last() == selected_column(columns.last()));
        let fewer = columns.drop_last();
        assert forall|i: int| 0 <= i < fewer.len() implies !(#[trigger] fewer[i]).name.contains(
            '?',
        ) by {
            assert(fewer[i] == columns[i]);
        }
        lemma_selected_marks(fewer, include_document);
        assert(names.drop_last() =~= fewer.map_values(|c: ColumnView| selected_column(c)));
    }
}

/// A search query has one parameter for each of its question marks, where no name and no
/// filter key holds one, and raw conditions hold as many as they have parameters.
pub proof fn law_search_binds_every_placeholder(
    table_name: Seq<char>,
    metric: LibsqlDistanceMetric,
    query_blob: Seq<u8>,
    threshold: Option<u64>,
    filter: Option<LibsqlSearchFilterExpr>,
    score_column: Seq<char>,
    columns: Seq<ColumnView>,
    include_document: bool,
    candidates: u64,
    samples: u64,
)
    requires
        !table_name.contains('?'),
        !score_column.contains('?'),
        forall|i: int| 0 <= i < columns.len() ==> !(#[trigger] columns[i]).name.contains('?'),
        filter matches Some(expr) ==> binds_its_marks(expr),
    ensures
        search_filters(threshold, filter, score_column) matches Ok(rendered_filter) ==> ({
            let statement = top_n_statement(
                table_name,
                metric,
                query_blob,
                rendered_filter,
                columns,
                include_document,
                candidates,
                samples,
            );
            placeholders(statement.sql) == statement.params.len()
        }),
{
    broadcast use lemma_placeholders_add;

    if let Ok(rendered_filter) = search_filters(threshold, filter, score_column) {
        lemma_no_marks(score_column, score_column.len() as int);
        lemma_no_marks(table_name, table_name.len() as int);
        lemma_outer_words();
        if let Some(expr) = filter {
            law_filter_binds_every_placeholder(expr);
        }
        lemma_scored_marks(table_name, metric);
        lemma_ranked_marks();
        lemma_selected_marks(columns, include_document);
    }
}

/// Searching for documents and searching for their ids differ in what they select of a
/// document, and in nothing else: they bind the same parameters to the same query.
pub proof fn law_ids_and_documents_share_the_query(
    table_name: Seq<char>,
    metric: LibsqlDistanceMetric,
    query_blob: Seq<u8>,
    filter: RenderedFilterView,
    columns: Seq<ColumnView>,
    candidates: u64,
    samples: u64,
)
    ensures
        ({
            let documents = top_n_statement(
                table_name,
                metric,
                query_blob,
                filter,
                columns,
                true,
                candidates,
                samples,
            );
            let ids = top_n_statement(
                table_name,
                metric,
                query_blob,
                filter,
                columns,
                false,
                candidates,
                samples,
            );
            let before = scored_sql(table_name, metric) + ranked_sql();
            &&& documents.params == ids.params
            &&& documents.sql == before + outer_sql(
                table_name,
                selected(columns, true),
                filter.document_clause,
            )
            &&& ids.sql == before + outer_sql(table_name, "d.id"@, filter.document_clause)
        }),
{
}

} // verus!
