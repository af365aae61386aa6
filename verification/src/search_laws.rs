//! What holds of the query that a search runs, and of the rows that it delivers.

use vstd::prelude::*;
use vstd::string::*;

use crate::candidates::{
    law_candidates_hold_the_samples, law_first_documents_are_candidates, owner_count,
};
use crate::column::{column_views, has_id_column, is_id_position, reads_column, Column};
use crate::column_laws::{lemma_refused, refuses};
use crate::embedding::law_blob_is_little_endian;
use crate::error::{FilterError, StoreError, StoreErrorView};
use crate::filter::{clause_result, rendered, LibsqlSearchFilter};
use crate::insert::StatementView;
use crate::json::{json_view, JsonView};
use crate::metric::LibsqlDistanceMetric;
use crate::query::{
    filter_clause, filter_expr, filters_result, ranked_sql, render_search_filters, scored_sql,
    search_filters, selected, LibsqlRenderedFilter, SearchRequest,
};
use crate::round_trip::{gives_back, law_document_gives_back_its_columns};
use crate::row::{fails_at, id_text, id_to_string, readable, text_result};
use crate::search::{
    keep_decoded, score_column, search_steps, Search, SearchAction, SearchActionView, SearchEvent,
    SearchView,
};
use crate::text::{denotes, law_signed_decimals_denote_their_integer, lemma_flat};
use crate::value::{real_text, sql_views, LibsqlValue, SqlView};

verus! {

/// Whether a search in `state`, which waits for the embedding of its text, runs this query
/// once the text is embedded as `vector` and `row` is what the count returned.
pub open spec fn runs(
    state: SearchView,
    vector: Vec<u32>,
    row: Option<(i64, i64)>,
    query: StatementView,
) -> bool {
    exists|counting: SearchView, count: SearchActionView, querying: SearchView|
        {
            &&& #[trigger] search_steps(state, SearchEvent::Embedded(vector), counting, count)
            &&& count is Count
            &&& #[trigger] search_steps(
                counting,
                SearchEvent::Counted(row),
                querying,
                SearchActionView::Query(query),
            )
        }
}

/// With a threshold or a filter, the query takes every stored embedding as a candidate, and no
/// fewer candidates than documents are asked for.
pub proof fn law_conditions_see_every_embedding(
    state: SearchView,
    vector: Vec<u32>,
    embeddings: i64,
    documents: i64,
    query: StatementView,
)
    requires
        state.phase is Embedding,
        state.threshold is Some || state.filter is Some,
        state.samples > 0,
        runs(state, vector, Some((embeddings, documents)), query),
    ensures
        query.params.len() >= 4,
        query.params[2] matches SqlView::Integer(candidates) && candidates >= embeddings && (candidates
            >= state.samples || candidates == i64::MAX),
{
}

/// Without a threshold and a filter, the candidates that the query takes hold as many documents
/// as were asked for, or all there are, whichever embeddings rank first: `owners` names the
/// owner of each stored embedding, in the order of the vector index.
pub proof fn law_query_takes_enough_candidates(
    state: SearchView,
    vector: Vec<u32>,
    owners: Seq<int>,
    query: StatementView,
)
    requires
        state.phase is Embedding,
        state.threshold is None,
        state.filter is None,
        owners.len() <= i64::MAX,
        runs(
            state,
            vector,
            Some((owners.len() as i64, owner_count(owners) as i64)),
            query,
        ),
    ensures
        query.params.len() == 4,
        query.params[2] matches SqlView::Integer(candidates) && candidates >= 0 && ({
            let taken = owners.take(
                if candidates < owners.len() {
                    candidates as int
                } else {
                    owners.len() as int
                },
            );
            owner_count(taken) >= state.samples || owner_count(taken) == owner_count(owners)
        }),
{
    owners.lemma_cardinality_of_set();
    law_candidates_hold_the_samples(owners, state.samples);
}

/// Without a threshold and a filter, the first embedding of each of the first documents that
/// are asked for is among the candidates that the query takes.
pub proof fn law_query_takes_the_first_documents(
    state: SearchView,
    vector: Vec<u32>,
    owners: Seq<int>,
    rank: int,
    query: StatementView,
)
    requires
        state.phase is Embedding,
        state.threshold is None,
        state.filter is None,
        owners.len() <= i64::MAX,
        0 <= rank < owners.len(),
        !owners.take(rank).contains(owners[rank]),
        owner_count(owners.take(rank)) < state.samples,
        runs(
            state,
            vector,
            Some((owners.len() as i64, owner_count(owners) as i64)),
            query,
        ),
    ensures
        query.params[2] matches SqlView::Integer(candidates) && rank < candidates,
{
    owners.lemma_cardinality_of_set();
    law_first_documents_are_candidates(owners, state.samples, rank);
}

/// Where nothing is known of the store, the query takes as many candidates as documents are
/// asked for.
pub proof fn law_unknown_counts_leave_the_samples(
    state: SearchView,
    vector: Vec<u32>,
    query: StatementView,
)
    requires
        state.phase is Embedding,
        runs(state, vector, None, query),
    ensures
        query.params[2] matches SqlView::Integer(candidates) && (candidates == state.samples || (
        candidates == i64::MAX && state.samples > i64::MAX)),
{
}

/// The query never takes more candidates than there are embeddings or documents asked for.
pub proof fn law_query_takes_no_more_than_needed(
    state: SearchView,
    vector: Vec<u32>,
    embeddings: i64,
    documents: i64,
    query: StatementView,
)
    requires
        state.phase is Embedding,
        runs(state, vector, Some((embeddings, documents)), query),
    ensures
        query.params[2] matches SqlView::Integer(candidates) && (candidates <= embeddings || candidates
            <= state.samples),
{
}

/// The query binds the embedding of the text twice, for the score and for the index: the
/// components one after the other, each by its four bytes, the least significant byte first. It
/// returns at most as many documents as were asked for.
pub proof fn law_query_binds_the_vector_and_the_limit(
    state: SearchView,
    vector: Vec<u32>,
    row: Option<(i64, i64)>,
    query: StatementView,
)
    requires
        state.phase is Embedding,
        runs(state, vector, row, query),
    ensures
        query.params.len() >= 4,
        query.params[1] == query.params[0],
        query.params[0] matches SqlView::Blob(bytes) && bytes.len() == 4 * vector@.len() && forall|i: int|
            0 <= i < vector@.len() ==> #[trigger] vector@[i] == bytes[4 * i] + 0x100 * bytes[4 * i
                + 1] + 0x1_0000 * bytes[4 * i + 2] + 0x100_0000 * bytes[4 * i + 3],
        query.params.last() matches SqlView::Integer(limit) && (limit == state.samples || (limit
            == i64::MAX && state.samples > i64::MAX)),
{
    law_blob_is_little_endian(vector@);
}

proof fn lemma_threshold_condition()
    ensures
        "\n         WHERE ranked.__rig_rank = 1 AND ranked.__rig_score >= ?"@
            == "\n         WHERE ranked.__rig_rank = 1"@ + (" AND "@ + score_column() + " >= ?"@),
{
    reveal_strlit("\n         WHERE ranked.__rig_rank = 1");
    reveal_strlit(" AND ");
    reveal_strlit("ranked.__rig_score");
    reveal_strlit(" >= ?");
    reveal_strlit("\n         WHERE ranked.__rig_rank = 1 AND ranked.__rig_score >= ?");
    assert("\n         WHERE ranked.__rig_rank = 1 AND ranked.__rig_score >= ?"@
        =~= "\n         WHERE ranked.__rig_rank = 1"@ + (" AND "@ + score_column() + " >= ?"@));
}

/// A threshold is bound as it is, whatever its sign, and compared with the score: the query
/// asks for the best row of each document whose score reaches the parameter that follows those
/// of the candidates.
pub proof fn law_query_compares_the_score_with_the_threshold(
    state: SearchView,
    vector: Vec<u32>,
    row: Option<(i64, i64)>,
    threshold: u64,
    query: StatementView,
)
    requires
        state.phase is Embedding,
        state.threshold == Some(threshold),
        runs(state, vector, row, query),
    ensures
        query.params.len() >= 5,
        query.params[3] == SqlView::Real(threshold),
        exists|before: Seq<char>, behind: Seq<char>|
            query.sql == #[trigger] (before
                + "\n         WHERE ranked.__rig_rank = 1 AND ranked.__rig_score >= ?"@ + behind),
{
    let filter = search_filters(state.threshold, state.filter, score_column())->Ok_0;
    let columns = selected(state.columns, state.wants_documents);
    let clause = filter_clause(state.filter)->Ok_0.condition;
    let before = scored_sql(state.table_name, state.metric) + ranked_sql() + ("\n         SELECT "@
        + columns + ", ranked.__rig_score"@ + "\n         FROM ranked\n         JOIN "@
        + state.table_name + " d ON ranked.__rig_document_rowid = d.rowid"@);
    let behind = clause + "\n         ORDER BY ranked.__rig_score DESC, d.id ASC"@
        + "\n         LIMIT ?"@;
    let condition = "\n         WHERE ranked.__rig_rank = 1 AND ranked.__rig_score >= ?"@;
    lemma_threshold_condition();
    assert(query.sql == before + condition + behind) by {
        broadcast use lemma_flat;

        assert(condition == "\n         WHERE ranked.__rig_rank = 1"@ + (" AND "@ + score_column()
            + " >= ?"@));
    }
}

/// Two searches that differ in the threshold alone run queries that differ in its condition and
/// its parameter alone.
pub proof fn law_threshold_adds_its_condition(
    score_column: &str,
    plain: SearchRequest,
    bounded: SearchRequest,
    without: LibsqlRenderedFilter,
    with: LibsqlRenderedFilter,
)
    requires
        plain.threshold is None,
        bounded.threshold is Some,
        filter_expr(plain.filter) == filter_expr(bounded.filter),
        call_ensures(
            render_search_filters,
            (&plain, score_column),
            Ok::<LibsqlRenderedFilter, FilterError>(without),
        ),
        call_ensures(
            render_search_filters,
            (&bounded, score_column),
            Ok::<LibsqlRenderedFilter, FilterError>(with),
        ),
    ensures
        with.document_clause@ == " AND "@ + score_column@ + " >= ?"@ + without.document_clause@,
        with.params@.len() == 1 + without.params@.len(),
        with.params@[0]@ == SqlView::Real(bounded.threshold->Some_0),
        forall|i: int|
            0 <= i < without.params@.len() ==> (#[trigger] with.params@[1 + i])@
                == without.params@[i]@,
        with.has_filters,
        plain.filter is None ==> without.document_clause@.len() == 0 && without.params@.len() == 0
            && !without.has_filters,
        plain.filter is Some ==> without.has_filters,
{
    let first = sql_views(with.params@);
    let second = sql_views(without.params@);
    assert(with@.params == first && without@.params == second);
    assert(first =~= seq![SqlView::Real(bounded.threshold->Some_0)] + second);
    assert(first[0] == with.params@[0]@);
    assert forall|i: int| 0 <= i < without.params@.len() implies (#[trigger] with.params@[1
        + i])@ == without.params@[i]@ by {
        assert(first[1 + i] == with.params@[1 + i]@);
        assert(second[i] == without.params@[i]@);
    }
    assert(with.document_clause@ =~= " AND "@ + score_column@ + " >= ?"@
        + without.document_clause@);
}

/// A search goes by the steps that the laws here speak of.
pub proof fn law_searching_goes_by_its_steps(
    search: &mut Search,
    event: SearchEvent,
    action: SearchAction,
)
    requires
        call_ensures(Search::next, (search, event), action),
    ensures
        search_steps(old(search)@, event, final(search)@, action@),
{
}

/// Whether some column is named `id`.
pub open spec fn names_an_id(columns: Seq<Column>) -> bool {
    exists|i: int| 0 <= i < columns.len() && (#[trigger] columns[i])@.name == "id"@
}

/// A search asks for what was requested, of the table and in the metric that it was started
/// with: it starts by having the text embedded, whole, unless no documents are asked for, or
/// documents of a table without an id.
pub proof fn law_searching_starts_as_requested(
    table_name: &'static str,
    metric: LibsqlDistanceMetric,
    columns: Vec<Column>,
    wants_documents: bool,
    request: SearchRequest,
    started: (Search, SearchAction),
)
    requires
        call_ensures(
            Search::start,
            (table_name, metric, columns, wants_documents, request),
            started,
        ),
    ensures
        started.0@.table_name == table_name@,
        started.0@.metric == metric,
        started.0@.columns.len() == columns@.len(),
        forall|i: int|
            0 <= i < columns@.len() ==> started.0@.columns[i] == (#[trigger] columns@[i])@,
        started.0@.wants_documents == wants_documents,
        started.0@.query == request.query@,
        started.0@.samples == request.samples,
        started.0@.threshold == request.threshold,
        match request.filter {
            Some(filter) => started.0@.filter == Some(filter.expr),
            None => started.0@.filter is None,
        },
        request.samples == 0 ==> started.1 is Finish,
        request.samples > 0 && wants_documents && !names_an_id(columns@) ==> started.1@
            == SearchActionView::Fail(StoreErrorView::MissingId(table_name@)),
        request.samples > 0 && (!wants_documents || names_an_id(columns@)) ==> started.1@
            == SearchActionView::Embed(request.query@) && started.0@.phase is Embedding,
{
    let views = column_views(columns@);
    assert forall|i: int| 0 <= i < views.len() implies #[trigger] views[i] == columns@[i]@ by {}
    if names_an_id(columns@) {
        let i = choose|i: int| 0 <= i < columns@.len() && (#[trigger] columns@[i])@.name == "id"@;
        assert(views[i].name == "id"@);
    }
    if has_id_column(views) {
        let i = choose|i: int| 0 <= i < views.len() && (#[trigger] views[i]).name == "id"@;
        assert(columns@[i]@.name == "id"@);
    }
}

/// A search reads as many values of a row as it selects, each column or the id alone, and the
/// score behind them; it takes a row only with all of them.
pub proof fn law_rows_are_as_wide_as_the_selection(
    search: Search,
    width: usize,
    index: i32,
    score: u64,
    values: Vec<LibsqlValue>,
    accepted: bool,
)
    requires
        call_ensures(Search::width, (&search,), width),
        call_ensures(Search::score_index, (&search,), index),
        call_ensures(
            Search::accepts,
            (&search, &SearchEvent::Row(score, values)),
            accepted,
        ),
    ensures
        search@.wants_documents ==> width == search@.columns.len(),
        !search@.wants_documents ==> width == 1,
        width <= i32::MAX ==> index == width,
        accepted <==> search@.phase is Reading && values@.len() == width,
{
}

/// The query once run, its rows are read until there are none: then the search is finished.
pub proof fn law_rows_are_read_to_the_end(
    state: SearchView,
    event: SearchEvent,
    after: SearchView,
    action: SearchActionView,
)
    requires
        search_steps(state, event, after, action),
    ensures
        event is NoRow ==> action is Finish && after.phase is Finished,
        action is Finish ==> event is NoRow,
        event is Running ==> if exists|i: int|
            0 <= i < state.columns.len() && (#[trigger] state.columns[i]).name == "id"@ {
            action is NextRow && after.phase is Reading
        } else {
            action == SearchActionView::Fail(StoreErrorView::MissingId(state.table_name))
        },
        after.table_name == state.table_name && after.metric == state.metric && after.columns
            == state.columns && after.wants_documents == state.wants_documents && after.query
            == state.query && after.samples == state.samples && after.threshold == state.threshold
            && after.filter == state.filter,
{
}

/// Whether the text is what the stored value reads as where it is an id: text as it is, and an
/// integer by its decimal digits.
pub open spec fn identifies(value: LibsqlValue, id: Seq<char>) -> bool {
    match value {
        LibsqlValue::Text(text) => id == text@,
        LibsqlValue::Integer(i) => denotes(id, i as int),
        LibsqlValue::Real(bits) => id == real_text(bits),
        LibsqlValue::Null => false,
        LibsqlValue::Blob(_) => false,
    }
}

/// No row is passed over, and none is altered: of each row the search delivers the very score
/// and the id that the row holds, and the document just where documents were asked for, with
/// an entry for every column and no other; the last column of a name gives back what the row
/// holds of it. Else it fails and ends:
/// only for an id that is null or a blob, or, where documents are asked for, for a value that
/// its column refuses.
pub proof fn law_every_row_is_delivered(
    state: SearchView,
    score: u64,
    values: Vec<LibsqlValue>,
    at: int,
    after: SearchView,
    action: SearchActionView,
)
    requires
        state.phase is Reading,
        state.wants_documents ==> values@.len() == state.columns.len(),
        !state.wants_documents ==> values@.len() == 1,
        0 <= at < state.columns.len(),
        state.columns[at].name == "id"@,
        forall|i: int| 0 <= i < at ==> (#[trigger] state.columns[i]).name != "id"@,
        search_steps(state, SearchEvent::Row(score, values), after, action),
    ensures
        ({
            let stored = values@[if state.wants_documents {
                at
            } else {
                0
            }];
            match action {
                SearchActionView::Deliver { score: delivered, id, document } => {
                    &&& delivered == score
                    &&& identifies(stored, id)
                    &&& after.phase is Reading
                    &&& document is Some <==> state.wants_documents
                    &&& document matches Some(value) ==> (json_view(value) matches JsonView::Object(
                        entries,
                    ) && forall|i: int|
                        0 <= i < state.columns.len() ==> entries.contains_key(
                            (#[trigger] state.columns[i]).name,
                        ) && ((forall|k: int|
                            i < k < state.columns.len() ==> (#[trigger] state.columns[k]).name
                                != state.columns[i].name) ==> gives_back(
                            state.columns[i],
                            values@[i]@,
                            json_view(entries[state.columns[i].name]),
                        )) && !refuses(state.columns[i], values@[i]@))
                    &&& document matches Some(value) ==> (json_view(value) matches JsonView::Object(
                        entries,
                    ) && forall|key: Seq<char>| #[trigger]
                        entries.contains_key(key) ==> exists|i: int|
                            0 <= i < state.columns.len() && (#[trigger] state.columns[i]).name
                                == key)
                },
                SearchActionView::Fail(_) => {
                    &&& after.phase is Finished
                    &&& stored is Null || stored is Blob || state.wants_documents && exists|i: int|
                        0 <= i < state.columns.len() && refuses(
                            #[trigger] state.columns[i],
                            values@[i]@,
                        )
                },
                _ => false,
            }
        }),
{
    let views = sql_views(values@);
    assert(is_id_position(state.columns, at));
    assert forall|other: int| #[trigger] is_id_position(state.columns, other) implies other
        == at by {
        if other < at {
            assert(state.columns[other].name == "id"@);
        } else if other > at {
            assert(state.columns[at].name == "id"@);
        }
    }
    assert forall|i: int| 0 <= i < values@.len() implies #[trigger] views[i] == values@[i]@ by {}
    let which = if state.wants_documents {
        at
    } else {
        0
    };
    assert(views[which] == values@[which]@);
    if let LibsqlValue::Integer(i) = values@[which] {
        law_signed_decimals_denote_their_integer(i as int);
    }
    if let SearchActionView::Deliver { score: delivered, id, document: Some(value) } = action {
        if let JsonView::Object(entries) = json_view(value) {
            assert forall|i: int| 0 <= i < state.columns.len() implies entries.contains_key(
                (#[trigger] state.columns[i]).name,
            ) && ((forall|k: int|
                i < k < state.columns.len() ==> (#[trigger] state.columns[k]).name
                    != state.columns[i].name) ==> gives_back(
                state.columns[i],
                values@[i]@,
                json_view(entries[state.columns[i].name]),
            )) && !refuses(state.columns[i], values@[i]@) by {
                assert(readable(state.columns, views, i));
                let view = choose|view: JsonView| #[trigger]
                    reads_column(
                        i as nat,
                        state.columns[i],
                        views[i],
                        Ok::<JsonView, StoreErrorView>(view),
                    );
                lemma_refused(i as nat, state.columns[i], views[i], Ok(view));
                assert(views[i] == values@[i]@);
                if forall|k: int|
                    i < k < state.columns.len() ==> (#[trigger] state.columns[k]).name
                        != state.columns[i].name {
                    law_document_gives_back_its_columns(state.columns, views, entries, i);
                }
            }
        }
    }
    if let SearchActionView::Fail(error) = action {
        if state.wants_documents && exists|k: int| fails_at(state.columns, views, error, k) {
            let k = choose|k: int| fails_at(state.columns, views, error, k);
            lemma_refused(k as nat, state.columns[k], views[k], Err(error));
            assert(views[k] == values@[k]@);
            assert(refuses(state.columns[k], values@[k]@));
        }
    }
}

/// An id is read from what is stored, whatever the position and the column; only null and blobs
/// are none.
pub proof fn law_ids_are_read_whole(
    row_index: i32,
    id_column: Column,
    value: LibsqlValue,
    id: Result<String, StoreError>,
)
    requires
        call_ensures(id_to_string, (row_index, &id_column, &value), id),
    ensures
        id is Err <==> value is Null || value is Blob,
        id matches Ok(text) ==> identifies(value, text@),
        id matches Err(error) ==> (error@ matches StoreErrorView::ColumnValue(named)
            && named.column_name == id_column@.name && (row_index >= 0 ==> named.index
            == row_index)),
{
    if let LibsqlValue::Integer(i) = value {
        law_signed_decimals_denote_their_integer(i as int);
    }
    assert(text_result(id) == id_text(row_index as int, id_column@, value@));
}

/// The filter of a request is joined by `AND` to what stands before, as it is rendered, in
/// parentheses where it may be a disjunction; its parameters come as it binds them. A filter
/// that cannot be rendered is an error, and nothing else is.
pub proof fn law_filter_joins_the_conditions(
    score_column: &str,
    request: SearchRequest,
    filter: LibsqlSearchFilter,
    clause: Result<(String, Vec<LibsqlValue>), FilterError>,
    result: Result<LibsqlRenderedFilter, FilterError>,
)
    requires
        request.filter == Some(filter),
        request.threshold is None,
        call_ensures(LibsqlSearchFilter::render, (&filter,), clause),
        call_ensures(render_search_filters, (&request, score_column), result),
    ensures
        result is Ok <==> clause is Ok,
        clause matches Err(error) ==> result->Err_0@ == error@,
        clause matches Ok((condition, params)) ==> ({
            let joined = result->Ok_0;
            &&& joined.has_filters
            &&& sql_views(joined.params@) == sql_views(params@)
            &&& joined.document_clause@ == " AND "@ + condition@ || joined.document_clause@
                == " AND ("@ + condition@ + ")"@
            &&& filter.expr is Or || filter.expr is Raw ==> joined.document_clause@ == " AND ("@
                + condition@ + ")"@
        }),
{
    assert(filters_result(result) == search_filters(
        request.threshold,
        filter_expr(request.filter),
        score_column@,
    ));
    assert(clause_result(clause) == rendered(filter.expr));
    if let Ok((condition, params)) = clause {
        let joined = result->Ok_0;
        assert(joined@.params =~= sql_views(params@));
        assert(joined@.document_clause == joined.document_clause@);
    }
}

/// The query of a search holds the conditions of its request behind the condition that the row is
/// the best of its document, and binds their parameters between those of the candidates and the
/// limit.
pub proof fn law_query_holds_the_conditions(
    state: SearchView,
    vector: Vec<u32>,
    row: Option<(i64, i64)>,
    query: StatementView,
    request: SearchRequest,
    conditions: LibsqlRenderedFilter,
)
    requires
        state.phase is Embedding,
        state.threshold == request.threshold,
        match request.filter {
            Some(filter) => state.filter == Some(filter.expr),
            None => state.filter is None,
        },
        call_ensures(
            render_search_filters,
            (&request, "ranked.__rig_score"),
            Ok::<LibsqlRenderedFilter, FilterError>(conditions),
        ),
        runs(state, vector, row, query),
    ensures
        query.params.len() == conditions.params@.len() + 4,
        forall|i: int|
            0 <= i < conditions.params@.len() ==> query.params[3 + i] == (
            #[trigger] conditions.params@[i])@,
        exists|before: Seq<char>|
            query.sql == #[trigger] (before + "\n         WHERE ranked.__rig_rank = 1"@)
                + conditions.document_clause@
                + ("\n         ORDER BY ranked.__rig_score DESC, d.id ASC"@
                + "\n         LIMIT ?"@),
{
    let filter = search_filters(state.threshold, state.filter, score_column())->Ok_0;
    assert(filters_result(Ok::<LibsqlRenderedFilter, FilterError>(conditions)) == search_filters(
        request.threshold,
        filter_expr(request.filter),
        "ranked.__rig_score"@,
    ));
    assert(filter == conditions@);
    let views = sql_views(conditions.params@);
    assert(filter.params == views);
    assert forall|i: int| 0 <= i < conditions.params@.len() implies query.params[3 + i] == (
    #[trigger] conditions.params@[i])@ by {
        assert(views[i] == conditions.params@[i]@);
    }
    let before = scored_sql(state.table_name, state.metric) + ranked_sql() + ("\n         SELECT "@
        + selected(state.columns, state.wants_documents) + ", ranked.__rig_score"@
        + "\n         FROM ranked\n         JOIN "@ + state.table_name
        + " d ON ranked.__rig_document_rowid = d.rowid"@);
    assert(query.sql == (before + "\n         WHERE ranked.__rig_rank = 1"@)
        + conditions.document_clause@ + ("\n         ORDER BY ranked.__rig_score DESC, d.id ASC"@
        + "\n         LIMIT ?"@)) by {
        broadcast use lemma_flat;

    }
}

/// Rows whose document could be decoded are all kept, in their order and as they are, and no
/// others: one row more is one result more just where its document could be decoded.
pub proof fn law_decoded_rows_are_kept<S, D>(
    rows: Vec<(S, String, Option<D>)>,
    more: Vec<(S, String, Option<D>)>,
    row: (S, String, Option<D>),
    kept: Vec<(S, String, D)>,
    longer: Vec<(S, String, D)>,
)
    requires
        more@ == rows@.push(row),
        call_ensures(keep_decoded::<S, D>, (rows,), kept),
        call_ensures(keep_decoded::<S, D>, (more,), longer),
    ensures
        rows@.len() == 0 ==> kept@.len() == 0,
        match row.2 {
            Some(document) => longer@ == kept@.push((row.0, row.1, document)),
            None => longer@ == kept@,
        },
{
    assert(more@.drop_last() =~= rows@);
}

/// A search takes a reply of the kind that it waits for, and no other.
pub proof fn law_searching_takes_the_reply_to_its_action(
    search: Search,
    event: SearchEvent,
    accepted: bool,
)
    requires
        call_ensures(Search::accepts, (&search, &event), accepted),
    ensures
        match event {
            SearchEvent::Embedded(_) => accepted <==> search@.phase is Embedding,
            SearchEvent::Counted(_) => accepted <==> search@.phase is Counting,
            SearchEvent::Running => accepted <==> search@.phase is Querying,
            SearchEvent::Row(_, values) => accepted ==> search@.phase is Reading,
            SearchEvent::NoRow => accepted <==> search@.phase is Reading,
        },
{
}

} // verus!
