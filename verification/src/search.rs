//! Searching the store.
//!
//! [`Search`] decides what to ask of the embedding model and of the database and in which
//! order; whoever owns them carries out each [`SearchAction`] and hands the reply back as
//! a [`SearchEvent`].

use vstd::prelude::*;
use vstd::string::*;

use crate::candidates::{
    as_count, candidate_limit, candidates_needed, counts_query, counts_sql, embedding_counts,
};
use crate::column::{
    column_views, has_id_column, id_position, is_id_position, Column, ColumnView,
};
use crate::embedding::{le_blob, query_to_le_bytes};
use crate::error::{LibsqlMissingIdColumn, StoreError, StoreErrorView};
use crate::filter::LibsqlSearchFilterExpr;
use crate::insert::{Statement, StatementView};
use crate::json::{json_view, object_entries, JsonValue, JsonView};
use crate::metric::LibsqlDistanceMetric;
use crate::query::{
    build_top_n_query, filter_expr, render_search_filters, search_filters, top_n_statement,
    LibsqlRenderedFilter, RenderedFilterView, SearchRequest,
};
use crate::row::{fails_at, holds_columns, id_text, id_to_string, row_document};
use crate::value::{sql_views, LibsqlValue, SqlView};

verus! {

/// The column of the query that holds the score.
pub open spec fn score_column() -> Seq<char> {
    "ranked.__rig_score"@
}

/// What is asked for next.
#[derive(Debug)]
pub enum SearchAction {
    /// Embed the text.
    Embed(String),
    /// Run the query; the reply is the two integers of its first row.
    Count(String),
    /// Run the query; the reply says that its rows can be read.
    Query(Statement),
    /// Read the next row.
    NextRow,
    /// Take the result, then read the next row.
    Deliver(SearchHit),
    /// Nothing: there are no more results.
    Finish,
    /// Nothing: the search has failed.
    Fail(StoreError),
}

/// A document that a search found: its score, by the bit pattern of a double, its id,
/// and, where documents were asked for, its columns as a JSON object.
#[derive(Debug, PartialEq)]
pub struct SearchHit {
    pub score: u64,
    pub id: String,
    pub document: Option<serde_json::Value>,
}

/// What a [`SearchAction`] stands for.
#[verifier::ext_equal]
pub enum SearchActionView {
    Embed(Seq<char>),
    Count(Seq<char>),
    Query(StatementView),
    NextRow,
    Deliver { score: u64, id: Seq<char>, document: Option<serde_json::Value> },
    Finish,
    Fail(StoreErrorView),
}

impl View for SearchAction {
    type V = SearchActionView;

    open spec fn view(&self) -> SearchActionView {
        match self {
            SearchAction::Embed(text) => SearchActionView::Embed(text@),
            SearchAction::Count(sql) => SearchActionView::Count(sql@),
            SearchAction::Query(statement) => SearchActionView::Query(statement@),
            SearchAction::NextRow => SearchActionView::NextRow,
            SearchAction::Deliver(hit) => SearchActionView::Deliver {
                score: hit.score,
                id: hit.id@,
                document: hit.document,
            },
            SearchAction::Finish => SearchActionView::Finish,
            SearchAction::Fail(error) => SearchActionView::Fail(error@),
        }
    }
}

/// What was replied.
#[derive(Debug)]
pub enum SearchEvent {
    /// The text has this embedding, each component by the bit pattern of a
    /// single-precision float.
    Embedded(Vec<u32>),
    /// The query counted these embeddings and documents; `None` where it failed or
    /// returned no row.
    Counted(Option<(i64, i64)>),
    /// The query runs, and its rows can be read.
    Running,
    /// The next row: its score, by the bit pattern of a double, and the values that stand
    /// before the score.
    Row(u64, Vec<LibsqlValue>),
    /// There is no further row.
    NoRow,
}

/// How far a search has come, by the reply that it waits for.
#[derive(Debug)]
pub enum SearchPhase {
    /// The embedding of the query text.
    Embedding,
    /// The number of embeddings and documents.
    Counting { query_blob: Vec<u8>, filter: LibsqlRenderedFilter },
    /// The rows of the query.
    Querying,
    /// The next row.
    Reading,
    /// Nothing.
    Finished,
}

/// What a [`SearchPhase`] stands for.
#[verifier::ext_equal]
pub enum SearchPhaseView {
    Embedding,
    Counting { query_blob: Seq<u8>, filter: RenderedFilterView },
    Querying,
    Reading,
    Finished,
}

impl View for SearchPhase {
    type V = SearchPhaseView;

    open spec fn view(&self) -> SearchPhaseView {
        match self {
            SearchPhase::Embedding => SearchPhaseView::Embedding,
            SearchPhase::Counting { query_blob, filter } => SearchPhaseView::Counting {
                query_blob: query_blob@,
                filter: filter@,
            },
            SearchPhase::Querying => SearchPhaseView::Querying,
            SearchPhase::Reading => SearchPhaseView::Reading,
            SearchPhase::Finished => SearchPhaseView::Finished,
        }
    }
}

/// The state of a search.
#[verifier::ext_equal]
pub struct SearchView {
    pub table_name: Seq<char>,
    pub metric: LibsqlDistanceMetric,
    pub columns: Seq<ColumnView>,
    pub wants_documents: bool,
    pub query: Seq<char>,
    pub samples: u64,
    pub threshold: Option<u64>,
    pub filter: Option<LibsqlSearchFilterExpr>,
    pub phase: SearchPhaseView,
}

/// Whether the state can come about: rows are only read of a table with an id.
pub open spec fn under_way(state: SearchView) -> bool {
    state.phase is Reading ==> has_id_column(state.columns)
}

/// How many values of a row stand before the score.
pub open spec fn row_width(state: SearchView) -> nat {
    if state.wants_documents {
        state.columns.len()
    } else {
        1
    }
}

/// Whether the event is a reply of the kind that the state waits for.
pub open spec fn expects(state: SearchView, event: SearchEvent) -> bool {
    match state.phase {
        SearchPhaseView::Embedding => event is Embedded,
        SearchPhaseView::Counting { .. } => event is Counted,
        SearchPhaseView::Querying => event is Running,
        SearchPhaseView::Reading => match event {
            SearchEvent::Row(_, values) => values@.len() == row_width(state),
            SearchEvent::NoRow => true,
            _ => false,
        },
        SearchPhaseView::Finished => false,
    }
}

/// The state `state` in another phase.
pub open spec fn in_phase(state: SearchView, phase: SearchPhaseView) -> SearchView {
    SearchView { phase, ..state }
}

/// The end of a search that failed.
pub open spec fn failed(state: SearchView, error: StoreErrorView) -> (
    SearchView,
    SearchActionView,
) {
    (in_phase(state, SearchPhaseView::Finished), SearchActionView::Fail(error))
}

/// The first phase of a search, and what is asked for first. Of no samples nothing is asked
/// for; documents can only be read of a table with an id.
pub open spec fn search_start(state: SearchView) -> (SearchView, SearchActionView) {
    if state.samples == 0 {
        (in_phase(state, SearchPhaseView::Finished), SearchActionView::Finish)
    } else if state.wants_documents && !has_id_column(state.columns) {
        failed(state, StoreErrorView::MissingId(state.table_name))
    } else {
        (in_phase(state, SearchPhaseView::Embedding), SearchActionView::Embed(state.query))
    }
}

/// Once the query text is embedded, the filters are rendered and the embeddings counted.
pub open spec fn after_embedding(state: SearchView, vector: Seq<u32>) -> (
    SearchView,
    SearchActionView,
) {
    match search_filters(state.threshold, state.filter, score_column()) {
        Err(error) => failed(state, StoreErrorView::Filter(error)),
        Ok(filter) => (
            in_phase(
                state,
                SearchPhaseView::Counting { query_blob: le_blob(vector), filter },
            ),
            SearchActionView::Count(counts_sql(state.table_name)),
        ),
    }
}

/// How many candidates are taken, from the row that the count returned. Where it is not
/// known how many there are, as many as documents are asked for.
pub open spec fn candidates_taken(
    row: Option<(i64, i64)>,
    samples: u64,
    has_filters: bool,
) -> u64 {
    match row {
        Some((embeddings, documents)) => candidates_needed(
            as_count(embeddings),
            as_count(documents),
            samples,
            has_filters,
        ) as u64,
        None => samples,
    }
}

/// Once the embeddings are counted, the candidates are queried.
pub open spec fn after_count(
    state: SearchView,
    query_blob: Seq<u8>,
    filter: RenderedFilterView,
    row: Option<(i64, i64)>,
) -> (SearchView, SearchActionView) {
    (
        in_phase(state, SearchPhaseView::Querying),
        SearchActionView::Query(
            top_n_statement(
                state.table_name,
                state.metric,
                query_blob,
                filter,
                state.columns,
                state.wants_documents,
                candidates_taken(row, state.samples, filter.has_filters),
                state.samples,
            ),
        ),
    )
}

/// Once the query runs, its rows are read; that takes a table with an id.
pub open spec fn after_query(state: SearchView) -> (SearchView, SearchActionView) {
    if has_id_column(state.columns) {
        (in_phase(state, SearchPhaseView::Reading), SearchActionView::NextRow)
    } else {
        failed(state, StoreErrorView::MissingId(state.table_name))
    }
}

/// Whether `action` is what comes of a row when ids are asked for: the id is delivered, or
/// the search fails because it is none.
pub open spec fn delivers_id(
    columns: Seq<ColumnView>,
    score: u64,
    values: Seq<SqlView>,
    id_at: int,
    action: SearchActionView,
) -> bool {
    match id_text(0, columns[id_at], values[0]) {
        Ok(id) => action == SearchActionView::Deliver { score, id, document: None },
        Err(error) => action == SearchActionView::Fail(error),
    }
}

/// Whether `action` is what comes of a row when documents are asked for: the document and
/// its id are delivered, or the search fails because of the first column that cannot be
/// read, or else of the id.
pub open spec fn delivers_document(
    columns: Seq<ColumnView>,
    score: u64,
    values: Seq<SqlView>,
    id_at: int,
    action: SearchActionView,
) -> bool {
    match action {
        SearchActionView::Deliver { score: delivered, id, document: Some(document) } => {
            &&& delivered == score
            &&& id_text(id_at as i32 as int, columns[id_at], values[id_at]) == Ok::<
                Seq<char>,
                StoreErrorView,
            >(id)
            &&& json_view(document) matches JsonView::Object(entries) && holds_columns(
                columns,
                values,
                entries,
            )
        },
        SearchActionView::Fail(error) => {
            ||| exists|at: int| fails_at(columns, values, error, at)
            ||| (exists|entries: Map<Seq<char>, serde_json::Value>|
                holds_columns(columns, values, entries)) && id_text(
                id_at as i32 as int,
                columns[id_at],
                values[id_at],
            ) == Err::<Seq<char>, StoreErrorView>(error)
        },
        _ => false,
    }
}

/// Whether `action` is what comes of a row.
pub open spec fn delivers(
    columns: Seq<ColumnView>,
    wants_documents: bool,
    score: u64,
    values: Seq<SqlView>,
    action: SearchActionView,
) -> bool {
    exists|id_at: int| #[trigger]
        is_id_position(columns, id_at) && if wants_documents {
            delivers_document(columns, score, values, id_at, action)
        } else {
            delivers_id(columns, score, values, id_at, action)
        }
}

/// Whether `after` and `action` are what comes of a row. A search that fails ends; another
/// goes on reading.
pub open spec fn after_row(
    state: SearchView,
    score: u64,
    values: Seq<SqlView>,
    after: SearchView,
    action: SearchActionView,
) -> bool {
    &&& after == in_phase(
        state,
        if action is Fail {
            SearchPhaseView::Finished
        } else {
            SearchPhaseView::Reading
        },
    )
    &&& delivers(state.columns, state.wants_documents, score, values, action)
}

/// Whether `after` is the state after a reply, and `action` what is asked for next.
pub open spec fn search_steps(
    state: SearchView,
    event: SearchEvent,
    after: SearchView,
    action: SearchActionView,
) -> bool {
    match (state.phase, event) {
        (SearchPhaseView::Embedding, SearchEvent::Embedded(vector)) => (after, action)
            == after_embedding(state, vector@),
        (SearchPhaseView::Counting { query_blob, filter }, SearchEvent::Counted(row)) => (
            after,
            action,
        ) == after_count(state, query_blob, filter, row),
        (SearchPhaseView::Querying, SearchEvent::Running) => (after, action) == after_query(state),
        (SearchPhaseView::Reading, SearchEvent::Row(score, values)) => after_row(
            state,
            score,
            sql_views(values@),
            after,
            action,
        ),
        (SearchPhaseView::Reading, SearchEvent::NoRow) => (after, action) == (
            in_phase(state, SearchPhaseView::Finished),
            SearchActionView::Finish,
        ),
        _ => false,
    }
}

/// What is asked for once a row has been read.
pub open spec fn hit_action(hit: Result<SearchHit, StoreError>) -> SearchActionView {
    match hit {
        Ok(h) => SearchAction::Deliver(h)@,
        Err(error) => SearchAction::Fail(error)@,
    }
}

/// A search for the documents nearest to a text.
pub struct Search {
    table_name: &'static str,
    metric: LibsqlDistanceMetric,
    columns: Vec<Column>,
    wants_documents: bool,
    request: SearchRequest,
    phase: SearchPhase,
}

impl View for Search {
    type V = SearchView;

    closed spec fn view(&self) -> SearchView {
        SearchView {
            table_name: self.table_name@,
            metric: self.metric,
            columns: column_views(self.columns@),
            wants_documents: self.wants_documents,
            query: self.request.query@,
            samples: self.request.samples,
            threshold: self.request.threshold,
            filter: filter_expr(self.request.filter),
            phase: self.phase@,
        }
    }
}

/// The state of a search for `request`, before its first phase.
pub open spec fn search_of(
    table_name: Seq<char>,
    metric: LibsqlDistanceMetric,
    columns: Seq<ColumnView>,
    wants_documents: bool,
    request: SearchRequest,
) -> SearchView {
    SearchView {
        table_name,
        metric,
        columns,
        wants_documents,
        query: request.query@,
        samples: request.samples,
        threshold: request.threshold,
        filter: filter_expr(request.filter),
        phase: SearchPhaseView::Finished,
    }
}

impl Search {
    /// Starts a search of the table of this name for documents, or else for their ids.
    pub fn start(
        table_name: &'static str,
        metric: LibsqlDistanceMetric,
        columns: Vec<Column>,
        wants_documents: bool,
        request: SearchRequest,
    ) -> (started: (Self, SearchAction))
        ensures
            (started.0@, started.1@) == search_start(
                search_of(
                    table_name@,
                    metric,
                    column_views(columns@),
                    wants_documents,
                    request,
                ),
            ),
            under_way(started.0@),
    {
        let mut phase = SearchPhase::Finished;
        let action = if request.samples == 0 {
            SearchAction::Finish
        } else if wants_documents && id_position(&columns).is_none() {
            SearchAction::Fail(
                StoreError::MissingId(LibsqlMissingIdColumn { table_name: table_name.to_owned() }),
            )
        } else {
            phase = SearchPhase::Embedding;
            SearchAction::Embed(request.query.clone())
        };
        (Search { table_name, metric, columns, wants_documents, request, phase }, action)
    }

    /// How many values of a row to read, from its first on.
    pub fn width(&self) -> (width: usize)
        ensures
            width == row_width(self@),
    {
        if self.wants_documents {
            self.columns.len()
        } else {
            1
        }
    }

    /// The position of the score in a row.
    pub fn score_index(&self) -> (index: i32)
        ensures
            index == if row_width(self@) <= i32::MAX {
                row_width(self@) as int
            } else {
                0
            },
    {
        let width = self.width();
        if width <= i32::MAX as usize {
            width as i32
        } else {
            0
        }
    }

    /// Whether the event is a reply of the kind that the search waits for.
    pub fn accepts(&self, event: &SearchEvent) -> (accepted: bool)
        ensures
            accepted == expects(self@, *event),
    {
        match (&self.phase, event) {
            (SearchPhase::Embedding, SearchEvent::Embedded(_)) => true,
            (SearchPhase::Counting { .. }, SearchEvent::Counted(_)) => true,
            (SearchPhase::Querying, SearchEvent::Running) => true,
            (SearchPhase::Reading, SearchEvent::Row(_, values)) => values.len() == self.width(),
            (SearchPhase::Reading, SearchEvent::NoRow) => true,
            _ => false,
        }
    }

    /// Takes the reply to the last action, and says what to do next.
    pub fn next(&mut self, event: SearchEvent) -> (action: SearchAction)
        requires
            under_way(old(self)@),
            expects(old(self)@, event),
        ensures
            search_steps(old(self)@, event, final(self)@, action@),
            under_way(final(self)@),
    {
        let mut phase = SearchPhase::Finished;
        std::mem::swap(&mut phase, &mut self.phase);
        match (phase, event) {
            (SearchPhase::Embedding, SearchEvent::Embedded(vector)) => match render_search_filters(
                &self.request,
                "ranked.__rig_score",
            ) {
                Err(error) => SearchAction::Fail(StoreError::Filter(error)),
                Ok(filter) => {
                    let query_blob = query_to_le_bytes(&vector);
                    self.phase = SearchPhase::Counting { query_blob, filter };
                    SearchAction::Count(counts_query(self.table_name))
                },
            },
            (SearchPhase::Counting { query_blob, filter }, SearchEvent::Counted(row)) => {
                let counts = match embedding_counts(row) {
                    Ok(known) => Some(known),
                    Err(_) => None,
                };
                let candidates = candidate_limit(counts, self.request.samples, filter.has_filters);
                self.phase = SearchPhase::Querying;
                SearchAction::Query(
                    build_top_n_query(
                        self.table_name,
                        self.metric,
                        query_blob,
                        filter,
                        &self.columns,
                        self.wants_documents,
                        candidates,
                        self.request.samples,
                    ),
                )
            },
            (SearchPhase::Querying, SearchEvent::Running) => {
                if id_position(&self.columns).is_none() {
                    return SearchAction::Fail(
                        StoreError::MissingId(
                            LibsqlMissingIdColumn { table_name: self.table_name.to_owned() },
                        ),
                    );
                }
                self.phase = SearchPhase::Reading;
                SearchAction::NextRow
            },
            (SearchPhase::Reading, SearchEvent::Row(score, values)) => {
                match self.read_row(score, &values) {
                    Ok(hit) => {
                        self.phase = SearchPhase::Reading;
                        SearchAction::Deliver(hit)
                    },
                    Err(error) => SearchAction::Fail(error),
                }
            },
            _ => SearchAction::Finish,
        }
    }

    /// Reads a row of the result.
    fn read_row(&self, score: u64, values: &Vec<LibsqlValue>) -> (hit: Result<SearchHit, StoreError>)
        requires
            has_id_column(self@.columns),
            values.len() == row_width(self@),
        ensures
            delivers(
                self@.columns,
                self@.wants_documents,
                score,
                sql_views(values@),
                hit_action(hit),
            ),
    {
        let found = id_position(&self.columns);
        let at: usize = match found {
            Some(position) => position,
            None => 0,
        };
        assert(is_id_position(self@.columns, at as int));
        if !self.wants_documents {
            assert(sql_views(values@)[0] == values@[0]@);
            let id = id_to_string(0, &self.columns[at], &values[0])?;
            return Ok(SearchHit { score, id, document: None });
        }
        let object = row_document(&self.columns, values)?;
        assert(sql_views(values@)[at as int] == values@[at as int]@);
        assert(holds_columns(self@.columns, sql_views(values@), object_entries(object)));
        let id = id_to_string(at as i32, &self.columns[at], &values[at])?;
        let document = JsonValue::Object(object).into_serde();
        Ok(SearchHit { score, id, document: Some(document) })
    }
}

/// The results whose document could be decoded, in their order.
pub open spec fn decoded<S, D>(rows: Seq<(S, String, Option<D>)>) -> Seq<(S, String, D)>
    decreases rows.len(),
{
    if rows.len() == 0 {
        Seq::empty()
    } else {
        match rows.last().2 {
            Some(document) => decoded(rows.drop_last()).push(
                (rows.last().0, rows.last().1, document),
            ),
            None => decoded(rows.drop_last()),
        }
    }
}

/// Leaves out the results whose document could not be decoded.
pub fn keep_decoded<S, D>(rows: Vec<(S, String, Option<D>)>) -> (kept: Vec<(S, String, D)>)
    ensures
        kept@ == decoded(rows@),
{
    let mut kept: Vec<(S, String, D)> = Vec::new();
    let ghost all = rows@;
    for row in it: rows
        invariant
            it.seq() == all,
            kept@ == decoded(all.take(it.index())),
    {
        proof {
            let taken = all.take(it.index() + 1);
            assert(taken.drop_last() =~= all.take(it.index()));
            assert(taken.last() == row);
        }
        let (score, id, document) = row;
        if let Some(d) = document {
            kept.push((score, id, d));
        }
    }
    assert(all.take(all.len() as int) =~= all);
    kept
}

/// A search for no samples asks for nothing.
pub proof fn law_no_samples_no_work(state: SearchView)
    requires
        state.samples == 0,
    ensures
        search_start(state).1 == SearchActionView::Finish,
        forall|event: SearchEvent| !expects(search_start(state).0, event),
{
}

/// The course of a search up to its rows: the query text is embedded, the embeddings are
/// counted, and the one query that is run binds the embedding, scores by the store's
/// metric, and takes as many candidates as the counts and the filters call for.
pub proof fn law_search_course(state: SearchView, vector: Seq<u32>, row: Option<(i64, i64)>)
    requires
        state.samples > 0,
        has_id_column(state.columns),
        search_filters(state.threshold, state.filter, score_column()) is Ok,
    ensures
        ({
            let filter = search_filters(state.threshold, state.filter, score_column())->Ok_0;
            let (embedding, first) = search_start(state);
            let (counting, second) = after_embedding(embedding, vector);
            let (querying, third) = after_count(counting, le_blob(vector), filter, row);
            let (reading, fourth) = after_query(querying);
            &&& first == SearchActionView::Embed(state.query)
            &&& second == SearchActionView::Count(counts_sql(state.table_name))
            &&& counting.phase == SearchPhaseView::Counting { query_blob: le_blob(vector), filter }
            &&& third == SearchActionView::Query(
                top_n_statement(
                    state.table_name,
                    state.metric,
                    le_blob(vector),
                    filter,
                    state.columns,
                    state.wants_documents,
                    candidates_taken(
                        row,
                        state.samples,
                        state.threshold is Some || state.filter is Some,
                    ),
                    state.samples,
                ),
            )
            &&& fourth == SearchActionView::NextRow
            &&& reading.phase is Reading
        }),
{
}

/// Of one row of the store, both searches deliver the same score and the same id: where the
/// search for documents delivers the row, the search for ids, whose row is the id alone, does
/// too.
pub proof fn law_ids_and_documents_agree(
    columns: Seq<ColumnView>,
    score: u64,
    values: Seq<SqlView>,
    at: int,
    id: Seq<char>,
    document: serde_json::Value,
    action: SearchActionView,
)
    requires
        is_id_position(columns, at),
        delivers(
            columns,
            true,
            score,
            values,
            SearchActionView::Deliver { score, id, document: Some(document) },
        ),
        delivers(columns, false, score, seq![values[at]], action),
    ensures
        action == (SearchActionView::Deliver { score, id, document: None }),
{
    assert forall|other: int| #[trigger] is_id_position(columns, other) implies other == at by {
        if other < at {
            assert(columns[other].name == "id"@);
        } else if other > at {
            assert(columns[at].name == "id"@);
        }
    }
}

/// What a search for documents and one for ids deliver of the same rows, score by score and
/// id by id: `documents` are the actions that the one takes on the rows, `ids` those that the
/// other takes on their ids.
pub proof fn law_searches_return_the_same_documents(
    columns: Seq<ColumnView>,
    at: int,
    scores: Seq<u64>,
    rows: Seq<Seq<SqlView>>,
    documents: Seq<SearchActionView>,
    ids: Seq<SearchActionView>,
)
    requires
        is_id_position(columns, at),
        rows.len() == scores.len(),
        documents.len() == rows.len(),
        ids.len() == rows.len(),
        forall|i: int|
            0 <= i < rows.len() ==> documents[i] is Deliver && #[trigger] delivers(
                columns,
                true,
                scores[i],
                rows[i],
                documents[i],
            ),
        forall|i: int|
            0 <= i < rows.len() ==> #[trigger] delivers(
                columns,
                false,
                scores[i],
                seq![rows[i][at]],
                ids[i],
            ),
    ensures
        forall|i: int|
            0 <= i < rows.len() ==> (#[trigger] documents[i] matches SearchActionView::Deliver {
                score,
                id,
                ..
            } && ids[i] == (SearchActionView::Deliver { score, id, document: None })),
{
    assert forall|i: int| 0 <= i < rows.len() implies (
    #[trigger] documents[i] matches SearchActionView::Deliver { score, id, .. } && ids[i] == (
    SearchActionView::Deliver { score, id, document: None })) by {
        assert(delivers(columns, true, scores[i], rows[i], documents[i]));
        assert(delivers(columns, false, scores[i], seq![rows[i][at]], ids[i]));
        if let SearchActionView::Deliver { score, id, document: Some(document) } = documents[i] {
            law_ids_and_documents_agree(columns, scores[i], rows[i], at, id, document, ids[i]);
        }
    }
}

/// A filter that cannot be rendered fails the search before the database is asked.
pub proof fn law_bad_filter_asks_no_database(state: SearchView, vector: Seq<u32>)
    requires
        search_filters(state.threshold, state.filter, score_column()) is Err,
    ensures
        ({
            let error = search_filters(state.threshold, state.filter, score_column())->Err_0;
            let (after, action) = after_embedding(state, vector);
            &&& action == SearchActionView::Fail(StoreErrorView::Filter(error))
            &&& forall|event: SearchEvent| !expects(after, event)
        }),
{
}

} // verus!
