//! What holds of the texts of the statements, whatever the table is named and declared.

use vstd::prelude::*;
use vstd::string::*;

use crate::candidates::{counts_query, counts_sql};
use crate::column::{column_views, Column, ColumnView};
use crate::error::{FilterError, LibsqlMissingIdColumn, StoreErrorView};
use crate::insert::{
    add_rows_step, awaits, drop_embeddings_statement, drop_map_statement, find_statement,
    in_progress, insert_document_statement, insert_embedding_statement, map_statement, ActionView,
    AddRowsView, DocumentView, Statement, StoreEvent,
};
use crate::metric::{score_sql, LibsqlDistanceMetric};
use crate::query::{
    build_top_n_query, filter_expr, filters_result, ranked_sql, render_search_filters,
    search_filters, selected, selected_column, top_n_statement, LibsqlRenderedFilter,
    RenderedFilterView, SearchRequest,
};
use crate::schema::{
    column_line, create_documents_sql, create_embeddings_sql, create_map_sql,
    embedding_map_table_name, embeddings_index_name, embeddings_table_name, index_documents_sql,
    index_embeddings_sql, index_map_sql, schema_batch, schema_sql, schema_statements,
};
use crate::search::{search_steps, SearchActionView, SearchEvent, SearchView};
use crate::text::{
    decimal, digits_value, is_decimal, joined, law_signed_decimals_denote_their_integer,
    lemma_flat, lemma_nothing_before, woven,
};

verus! {

/// Whether the text is the pieces with the name between each two of them, whatever the name.
pub open spec fn is_template(
    pieces: Seq<Seq<char>>,
    text: spec_fn(Seq<char>) -> Seq<char>,
) -> bool {
    forall|name: Seq<char>| #[trigger] text(name) == woven(pieces, name)
}

/// Whether the text holds the name so many times, and is the same for every name but for that.
pub open spec fn follows_name(text: spec_fn(Seq<char>) -> Seq<char>, times: nat) -> bool {
    exists|pieces: Seq<Seq<char>>|
        pieces.len() == times + 1 && #[trigger] is_template(pieces, text)
}

/// The pieces of two texts one behind the other: the last of the one and the first of the other
/// become one.
spec fn together(first: Seq<Seq<char>>, second: Seq<Seq<char>>) -> Seq<Seq<char>> {
    first.drop_last().push(first.last() + second[0]) + second.skip(1)
}

proof fn lemma_together(first: Seq<Seq<char>>, second: Seq<Seq<char>>, name: Seq<char>)
    requires
        first.len() > 0,
        second.len() > 0,
    ensures
        woven(together(first, second), name) == woven(first, name) + woven(second, name),
    decreases second.len(),
{
    let all = together(first, second);
    reveal_with_fuel(woven, 2);
    if second.len() == 1 {
        assert(all.drop_last() =~= first.drop_last());
        assert(all.last() == first.last() + second[0]);
        assert(woven(all, name) =~= woven(first, name) + woven(second, name));
    } else {
        let fewer = second.drop_last();
        lemma_together(first, fewer, name);
        assert(all.drop_last() =~= together(first, fewer));
        assert(all.last() == second.last());
        assert(woven(all, name) =~= woven(first, name) + woven(second, name));
    }
}

/// A text that does not depend on the name holds it no times.
proof fn lemma_constant(text: Seq<char>)
    ensures
        follows_name(|name: Seq<char>| text, 0),
{
    let constant = |name: Seq<char>| text;
    assert(is_template(seq![text], constant));
}

/// The name with a constant text on each side holds it once.
proof fn lemma_name(before: Seq<char>, behind: Seq<char>)
    ensures
        follows_name(|name: Seq<char>| before + name + behind, 1),
{
    let text = |name: Seq<char>| before + name + behind;
    let pieces = seq![before, behind];
    reveal_with_fuel(woven, 3);
    assert(pieces.drop_last() =~= seq![before]);
    assert(is_template(pieces, text));
}

/// One text behind another holds the name as often as both together.
proof fn lemma_one_behind_the_other(
    first: spec_fn(Seq<char>) -> Seq<char>,
    m: nat,
    second: spec_fn(Seq<char>) -> Seq<char>,
    n: nat,
    both: spec_fn(Seq<char>) -> Seq<char>,
)
    requires
        follows_name(first, m),
        follows_name(second, n),
        forall|name: Seq<char>| #[trigger] both(name) == first(name) + second(name),
    ensures
        follows_name(both, m + n),
{
    let p = choose|p: Seq<Seq<char>>| p.len() == m + 1 && #[trigger] is_template(p, first);
    let q = choose|q: Seq<Seq<char>>| q.len() == n + 1 && #[trigger] is_template(q, second);
    let pieces = together(p, q);
    assert forall|name: Seq<char>| #[trigger] both(name) == woven(pieces, name) by {
        assert(first(name) == woven(p, name));
        assert(second(name) == woven(q, name));
        lemma_together(p, q, name);
    }
    assert(is_template(pieces, both));
}

/// A text with the name once, by its two pieces.
proof fn lemma_one(a: Seq<char>, b: Seq<char>, text: spec_fn(Seq<char>) -> Seq<char>)
    requires
        forall|name: Seq<char>| #[trigger] text(name) == a + name + b,
    ensures
        follows_name(text, 1),
{
    lemma_name(a, b);
    lemma_constant(Seq::empty());
    lemma_one_behind_the_other(
        |name: Seq<char>| a + name + b,
        1,
        |name: Seq<char>| Seq::<char>::empty(),
        0,
        text,
    );
}

/// A text with the name twice, by its three pieces.
proof fn lemma_two(
    a: Seq<char>,
    b: Seq<char>,
    c: Seq<char>,
    text: spec_fn(Seq<char>) -> Seq<char>,
)
    requires
        forall|name: Seq<char>| #[trigger] text(name) == a + name + b + name + c,
    ensures
        follows_name(text, 2),
{
    lemma_name(a, b);
    lemma_name(Seq::empty(), c);
    let first = |name: Seq<char>| a + name + b;
    let second = |name: Seq<char>| Seq::<char>::empty() + name + c;
    assert forall|name: Seq<char>| #[trigger] text(name) == first(name) + second(name) by {
        assert(text(name) =~= first(name) + second(name));
    }
    lemma_one_behind_the_other(first, 1, second, 1, text);
}

/// The query for the counts names the table twice, whatever its name.
pub proof fn law_counts_follow_the_table()
    ensures
        follows_name(|name: Seq<char>| counts_sql(name), 2),
        forall|table_name: &str, sql: String| #[trigger]
            call_ensures(counts_query, (table_name,), sql) ==> sql@ == counts_sql(table_name@),
{
    let text = |name: Seq<char>| counts_sql(name);
    let a = "SELECT\n                        (SELECT COUNT(*) FROM "@;
    let b = "_embeddings"@
        + "),\n                        (SELECT COUNT(DISTINCT document_rowid) FROM "@;
    let c = "_embedding_map"@ + ")"@;
    assert forall|name: Seq<char>| #[trigger] text(name) == a + name + b + name + c by {
        assert(text(name) =~= a + name + b + name + c);
    }
    lemma_two(a, b, c, text);
}

/// The statements of an insertion name the table, whatever its name, and bind the same for every
/// name.
pub proof fn law_insertion_follows_the_table(
    document: DocumentView,
    vector: Seq<u32>,
    embedding_rowid: i64,
    document_rowid: i64,
)
    ensures
        follows_name(|name: Seq<char>| find_statement(name, document).sql, 1),
        follows_name(|name: Seq<char>| drop_embeddings_statement(name, document).sql, 3),
        follows_name(|name: Seq<char>| drop_map_statement(name, document).sql, 2),
        follows_name(|name: Seq<char>| insert_document_statement(name, document).sql, 1),
        follows_name(|name: Seq<char>| insert_embedding_statement(name, vector).sql, 1),
        follows_name(
            |name: Seq<char>| map_statement(name, embedding_rowid, document_rowid).sql,
            1,
        ),
        forall|name: Seq<char>, other: Seq<char>|
            #![trigger insert_document_statement(name, document), insert_document_statement(other, document)]
            insert_document_statement(name, document).params == insert_document_statement(
                other,
                document,
            ).params,
{
    assert(follows_name(|name: Seq<char>| find_statement(name, document).sql, 1)) by {
        let text = |name: Seq<char>| find_statement(name, document).sql;
        let a = "SELECT rowid FROM "@;
        let b = " WHERE id = ?"@;
        lemma_one(a, b, text);
    }
    assert(follows_name(|name: Seq<char>| drop_embeddings_statement(name, document).sql, 3)) by {
        let text = |name: Seq<char>| drop_embeddings_statement(name, document).sql;
        let a = "DELETE FROM "@;
        let b = "_embeddings"@ + "\n                         WHERE rowid IN ("@
            + "\n                             SELECT embedding_rowid FROM "@;
        let c = "_embedding_map"@ + "\n                             WHERE document_rowid IN ("@
            + "\n                                 SELECT rowid FROM "@;
        let d = " WHERE id = ?"@ + "\n                             )"@
            + "\n                         )"@;
        let first = |name: Seq<char>| a + name + b + name + c;
        let second = |name: Seq<char>| Seq::<char>::empty() + name + d;
        lemma_two(a, b, c, first);
        lemma_name(Seq::empty(), d);
        assert forall|name: Seq<char>| #[trigger] text(name) == first(name) + second(name) by {
            assert(text(name) =~= first(name) + second(name));
        }
        lemma_one_behind_the_other(first, 2, second, 1, text);
    }
    assert(follows_name(|name: Seq<char>| drop_map_statement(name, document).sql, 2)) by {
        let text = |name: Seq<char>| drop_map_statement(name, document).sql;
        let a = "DELETE FROM "@;
        let b = "_embedding_map"@ + "\n                         WHERE document_rowid IN ("@
            + "\n                             SELECT rowid FROM "@;
        let c = " WHERE id = ?"@ + "\n                         )"@;
        assert forall|name: Seq<char>| #[trigger] text(name) == a + name + b + name + c by {
            assert(text(name) =~= a + name + b + name + c);
        }
        lemma_two(a, b, c, text);
    }
    assert(follows_name(|name: Seq<char>| insert_document_statement(name, document).sql, 1)) by {
        let text = |name: Seq<char>| insert_document_statement(name, document).sql;
        let whole = text(Seq::empty());
        let a = "INSERT OR REPLACE INTO "@;
        let b = whole.skip(a.len() as int);
        assert forall|name: Seq<char>| #[trigger] text(name) == a + name + b by {
            assert(text(name) =~= a + name + b);
        }
        lemma_one(a, b, text);
    }
    assert(follows_name(|name: Seq<char>| insert_embedding_statement(name, vector).sql, 1)) by {
        let text = |name: Seq<char>| insert_embedding_statement(name, vector).sql;
        let a = "INSERT INTO "@;
        let b = "_embeddings"@ + " (embedding) VALUES (vector(?)) RETURNING rowid"@;
        assert forall|name: Seq<char>| #[trigger] text(name) == a + name + b by {
            assert(text(name) =~= a + name + b);
        }
        lemma_one(a, b, text);
    }
    assert(follows_name(
        |name: Seq<char>| map_statement(name, embedding_rowid, document_rowid).sql,
        1,
    )) by {
        let text = |name: Seq<char>| map_statement(name, embedding_rowid, document_rowid).sql;
        let a = "INSERT INTO "@;
        let b = "_embedding_map"@ + " (embedding_rowid, document_rowid) VALUES (?, ?)"@;
        assert forall|name: Seq<char>| #[trigger] text(name) == a + name + b by {
            assert(text(name) =~= a + name + b);
        }
        lemma_one(a, b, text);
    }
}

/// The query of a search names the table four times, whatever its name, and binds the same for
/// every name.
pub proof fn law_query_follows_the_table(
    metric: LibsqlDistanceMetric,
    query_blob: Seq<u8>,
    filter: RenderedFilterView,
    columns: Seq<ColumnView>,
    include_document: bool,
    candidates: u64,
    samples: u64,
)
    ensures
        follows_name(
            |name: Seq<char>|
                top_n_statement(
                    name,
                    metric,
                    query_blob,
                    filter,
                    columns,
                    include_document,
                    candidates,
                    samples,
                ).sql,
            4,
        ),
{
    let text = |name: Seq<char>|
        top_n_statement(
            name,
            metric,
            query_blob,
            filter,
            columns,
            include_document,
            candidates,
            samples,
        ).sql;
    let a = "WITH scored_raw AS ("@ + "\n            SELECT m.document_rowid AS __rig_document_rowid,"@ + "\n                   "@ + score_sql(metric, "?"@, "e.embedding"@) + " AS __rig_score\n            FROM "@;
    let b = "_embeddings"@ + " e\n            JOIN "@;
    let c = "_embedding_map"@ + " m ON e.rowid = m.embedding_rowid"@
        + "\n            WHERE e.rowid IN ("@
        + "\n                SELECT rowid FROM vector_top_k('"@;
    let d = "_embeddings_idx"@ + "', vector(?), ?)"@ + "\n            )\n         ),"@ + ranked_sql()
        + ("\n         SELECT "@ + selected(columns, include_document) + ", ranked.__rig_score"@
        + "\n         FROM ranked\n         JOIN "@);
    let e = " d ON ranked.__rig_document_rowid = d.rowid"@
        + "\n         WHERE ranked.__rig_rank = 1"@ + filter.document_clause
        + "\n         ORDER BY ranked.__rig_score DESC, d.id ASC"@ + "\n         LIMIT ?"@;
    let first = |name: Seq<char>| a + name + b + name + c;
    let second = |name: Seq<char>| Seq::<char>::empty() + name + d + name + e;
    lemma_two(a, b, c, first);
    lemma_two(Seq::empty(), d, e, second);
    assert forall|name: Seq<char>| #[trigger] text(name) == first(name) + second(name) by {
        broadcast use {lemma_flat, lemma_nothing_before};

        assert(text(name) == first(name) + second(name));
    }
    lemma_one_behind_the_other(first, 2, second, 2, text);
}


/// The columns as a query selects them, each under its own name.
pub open spec fn listed(columns: Seq<ColumnView>) -> Seq<char>
    decreases columns.len(),
{
    if columns.len() == 0 {
        Seq::empty()
    } else {
        let before = columns.drop_last();
        let name = columns.last().name;
        if before.len() == 0 {
            "d."@ + name + " AS "@ + name
        } else {
            listed(before) + ", "@ + ("d."@ + name + " AS "@ + name)
        }
    }
}

proof fn lemma_listed(columns: Seq<ColumnView>)
    ensures
        selected(columns, true) == listed(columns),
    decreases columns.len(),
{
    let all = columns.map_values(|c: ColumnView| selected_column(c));
    if columns.len() > 0 {
        let before = columns.drop_last();
        lemma_listed(before);
        assert(all.drop_last() =~= before.map_values(|c: ColumnView| selected_column(c)));
        assert(all.last() == selected_column(columns.last()));
    }
}

/// The score as the metric gives it: one minus the cosine distance, or the euclidean distance
/// negated, so that the higher score is the nearer one.
pub open spec fn scored_by(metric: LibsqlDistanceMetric) -> Seq<char> {
    match metric {
        LibsqlDistanceMetric::Cosine => "(1 - vector_distance_cos(?, e.embedding))"@,
        LibsqlDistanceMetric::Euclidean => "(-vector_distance_l2(?, e.embedding))"@,
    }
}

/// Whether the query of every search of the table is `start`, the score, `middle`, what is
/// selected, `condition`, the conditions of the search, and the end, which puts the best score
/// first and the smaller id first among equals.
pub open spec fn is_put_together(
    table_name: &str,
    start: Seq<char>,
    middle: Seq<char>,
    condition: Seq<char>,
) -> bool {
    forall|
        metric: LibsqlDistanceMetric,
        query_blob: Vec<u8>,
        filter: LibsqlRenderedFilter,
        columns: Vec<Column>,
        include_document: bool,
        candidates: u64,
        samples: u64,
        statement: Statement,
    | #[trigger]
        call_ensures(
            build_top_n_query,
            (
                table_name,
                metric,
                query_blob,
                filter,
                &columns,
                include_document,
                candidates,
                samples,
            ),
            statement,
        ) ==> statement.sql@ == start + scored_by(metric) + middle + (if include_document {
            listed(column_views(columns@))
        } else {
            "d.id"@
        }) + condition + filter.document_clause@
            + "\n         ORDER BY ranked.__rig_score DESC, d.id ASC\n         LIMIT ?"@
}

/// The query of a search differs from another search's of the same table only in the score of its
/// metric, in what it selects, which is each column under its name or the id alone, and in the
/// conditions. These stand behind the condition that the row is the best of its document, and
/// before the order and the limit.
pub proof fn law_query_is_put_together(table_name: &str)
    ensures
        exists|start: Seq<char>, middle: Seq<char>, condition: Seq<char>| #[trigger]
            is_put_together(table_name, start, middle, condition)
                && "\n         WHERE ranked.__rig_rank = 1"@.is_suffix_of(condition),
{
    let t = table_name@;
    let start = "WITH scored_raw AS ("@
        + "\n            SELECT m.document_rowid AS __rig_document_rowid,"@
        + "\n                   "@;
    let middle = " AS __rig_score\n            FROM "@ + t + "_embeddings"@
        + " e\n            JOIN "@ + t + "_embedding_map"@
        + " m ON e.rowid = m.embedding_rowid"@ + "\n            WHERE e.rowid IN ("@
        + "\n                SELECT rowid FROM vector_top_k('"@ + t + "_embeddings_idx"@
        + "', vector(?), ?)"@ + "\n            )\n         ),"@ + ranked_sql()
        + "\n         SELECT "@;
    let first = ", ranked.__rig_score"@ + "\n         FROM ranked\n         JOIN "@ + t
        + " d ON ranked.__rig_document_rowid = d.rowid"@;
    let condition = first + "\n         WHERE ranked.__rig_rank = 1"@;
    let end = "\n         ORDER BY ranked.__rig_score DESC, d.id ASC"@ + "\n         LIMIT ?"@;
    reveal_strlit("\n         ORDER BY ranked.__rig_score DESC, d.id ASC");
    reveal_strlit("\n         LIMIT ?");
    reveal_strlit("\n         ORDER BY ranked.__rig_score DESC, d.id ASC\n         LIMIT ?");
    assert(end
        =~= "\n         ORDER BY ranked.__rig_score DESC, d.id ASC\n         LIMIT ?"@);
    assert forall|metric: LibsqlDistanceMetric| scored_by(metric) == #[trigger] score_sql(
        metric,
        "?"@,
        "e.embedding"@,
    ) by {
        lemma_scored_by(metric);
    }
    assert forall|
        metric: LibsqlDistanceMetric,
        query_blob: Vec<u8>,
        filter: LibsqlRenderedFilter,
        columns: Vec<Column>,
        include_document: bool,
        candidates: u64,
        samples: u64,
        statement: Statement,
    | #[trigger]
        call_ensures(
            build_top_n_query,
            (
                table_name,
                metric,
                query_blob,
                filter,
                &columns,
                include_document,
                candidates,
                samples,
            ),
            statement,
        ) implies statement.sql@ == start + scored_by(metric) + middle + (if include_document {
        listed(column_views(columns@))
    } else {
        "d.id"@
    }) + condition + filter.document_clause@
        + "\n         ORDER BY ranked.__rig_score DESC, d.id ASC\n         LIMIT ?"@ by {
        lemma_listed(column_views(columns@));
        let selection = selected(column_views(columns@), include_document);
        assert(score_sql(metric, "?"@, "e.embedding"@) == scored_by(metric));
        assert(statement@.sql == statement.sql@);
        assert(statement.sql@ == start + scored_by(metric) + middle + selection + condition
            + filter.document_clause@ + end) by {
            broadcast use lemma_flat;

        }
    }
    assert(is_put_together(table_name, start, middle, condition));
    let order = "\n         WHERE ranked.__rig_rank = 1"@;
    assert(condition.subrange(condition.len() - order.len(), condition.len() as int) =~= order);
}

proof fn lemma_scored_by(metric: LibsqlDistanceMetric)
    ensures
        scored_by(metric) == score_sql(metric, "?"@, "e.embedding"@),
{
    reveal_strlit("(1 - ");
    reveal_strlit("(-");
    reveal_strlit("vector_distance_cos");
    reveal_strlit("vector_distance_l2");
    reveal_strlit("(");
    reveal_strlit("?");
    reveal_strlit(", ");
    reveal_strlit("e.embedding");
    reveal_strlit("))");
    reveal_strlit("(1 - vector_distance_cos(?, e.embedding))");
    reveal_strlit("(-vector_distance_l2(?, e.embedding))");
    assert(scored_by(metric) =~= score_sql(metric, "?"@, "e.embedding"@));
}

/// The score of the metric is that of the two vectors it is asked for, and of no others.
pub proof fn law_score_takes_both_vectors(
    metric: LibsqlDistanceMetric,
    query_param: &str,
    embedding_expr: &str,
    function: &'static str,
    expression: String,
)
    requires
        call_ensures(LibsqlDistanceMetric::distance_function, (metric,), function),
        call_ensures(
            LibsqlDistanceMetric::score_expression,
            (metric, query_param, embedding_expr),
            expression,
        ),
    ensures
        metric is Cosine ==> function@ == "vector_distance_cos"@,
        metric is Euclidean ==> function@ == "vector_distance_l2"@,
        expression@ == (if metric is Cosine {
            "(1 - "@
        } else {
            "(-"@
        }) + function@ + "("@ + query_param@ + ", "@ + embedding_expr@ + "))"@,
{
}

proof fn lemma_schema_text(table_name: Seq<char>, columns: Seq<ColumnView>, dims: nat)
    ensures
        schema_sql(table_name, columns, dims) == create_documents_sql(table_name, columns)
            + ";\n             "@ + index_documents_sql(table_name) + ";\n             "@
            + create_embeddings_sql(table_name, dims) + ";\n             "@
            + index_embeddings_sql(table_name) + ";\n             "@ + create_map_sql(table_name)
            + ";\n             "@ + index_map_sql(table_name) + ";"@,
{
    let all = schema_statements(table_name, columns, dims);
    reveal_with_fuel(joined, 7);
    assert(all.drop_last().last() == create_map_sql(table_name));
    assert(all.drop_last().drop_last().last() == index_embeddings_sql(table_name));
    assert(all.drop_last().drop_last().drop_last().last() == create_embeddings_sql(
        table_name,
        dims,
    ));
    assert(all.drop_last().drop_last().drop_last().drop_last().last() == index_documents_sql(
        table_name,
    ));
}

/// The statements that create the store's tables name the document table nine times, whatever
/// its name.
pub proof fn law_schema_follows_the_table(columns: Seq<ColumnView>, dims: nat)
    ensures
        follows_name(|name: Seq<char>| schema_sql(name, columns, dims), 9),
{
    let text = |name: Seq<char>| schema_sql(name, columns, dims);
    let lines = joined(columns.map_values(|c: ColumnView| column_line(c)), ","@);
    let a = "CREATE TABLE IF NOT EXISTS "@;
    let b = " ("@ + lines + "\n)"@ + ";\n             "@ + "CREATE INDEX IF NOT EXISTS "@ + "idx_"@;
    let c = "_id ON "@;
    let d = "(id)"@ + ";\n             "@ + "CREATE TABLE IF NOT EXISTS "@;
    let e = "_embeddings"@ + " (\n                 embedding FLOAT32("@ + decimal(dims)
        + ")\n             )"@ + ";\n             "@ + "CREATE INDEX IF NOT EXISTS "@;
    let f = "_embeddings_idx"@ + "\n                 ON "@;
    let g = "_embeddings"@ + " (libsql_vector_idx(embedding))"@ + ";\n             "@
        + "CREATE TABLE IF NOT EXISTS "@;
    let h = "_embedding_map"@ + " (\n                 embedding_rowid INTEGER PRIMARY KEY,"@
        + "\n                 document_rowid INTEGER NOT NULL\n             )"@
        + ";\n             "@ + "CREATE INDEX IF NOT EXISTS "@ + "idx_"@;
    let i = "_embedding_map_document_rowid\n                 ON "@;
    let j = "_embedding_map"@ + "(document_rowid)"@ + ";"@;
    let none = Seq::<char>::empty();
    let first = |name: Seq<char>| a + name + b + name + c;
    let second = |name: Seq<char>| none + name + d + name + e;
    let third = |name: Seq<char>| none + name + f + name + g;
    let fourth = |name: Seq<char>| none + name + h + name + i;
    let fifth = |name: Seq<char>| none + name + j;
    lemma_two(a, b, c, first);
    lemma_two(none, d, e, second);
    lemma_two(none, f, g, third);
    lemma_two(none, h, i, fourth);
    lemma_name(none, j);
    let of_two = |name: Seq<char>| first(name) + second(name);
    let of_three = |name: Seq<char>| of_two(name) + third(name);
    let of_four = |name: Seq<char>| of_three(name) + fourth(name);
    lemma_one_behind_the_other(first, 2, second, 2, of_two);
    lemma_one_behind_the_other(of_two, 4, third, 2, of_three);
    lemma_one_behind_the_other(of_three, 6, fourth, 2, of_four);
    assert forall|name: Seq<char>| #[trigger] text(name) == of_four(name) + fifth(name) by {
        broadcast use {lemma_flat, lemma_nothing_before};

        lemma_schema_text(name, columns, dims);
        assert(text(name) == of_four(name) + fifth(name));
    }
    lemma_one_behind_the_other(of_four, 8, fifth, 1, text);
}

/// The declarations of the columns, one line for each.
pub open spec fn declared(columns: Seq<ColumnView>) -> Seq<char>
    decreases columns.len(),
{
    if columns.len() == 0 {
        Seq::empty()
    } else {
        let before = columns.drop_last();
        let line = "\n    "@ + columns.last().name + " "@ + columns.last().col_type;
        if before.len() == 0 {
            line
        } else {
            declared(before) + ","@ + line
        }
    }
}

proof fn lemma_declared(columns: Seq<ColumnView>)
    ensures
        joined(columns.map_values(|c: ColumnView| column_line(c)), ","@) == declared(columns),
    decreases columns.len(),
{
    let all = columns.map_values(|c: ColumnView| column_line(c));
    if columns.len() > 0 {
        let before = columns.drop_last();
        lemma_declared(before);
        assert(all.drop_last() =~= before.map_values(|c: ColumnView| column_line(c)));
        assert(all.last() == column_line(columns.last()));
    }
}

/// Whether the schema of every table of this name is `start`, the declarations of its columns,
/// `middle`, the dimension of its vectors, and `end`.
pub open spec fn is_schema(
    table_name: &str,
    start: Seq<char>,
    middle: Seq<char>,
    end: Seq<char>,
) -> bool {
    forall|columns: Vec<Column>, dims: usize, batch: Result<String, LibsqlMissingIdColumn>|
     #[trigger]
        call_ensures(schema_batch, (table_name, &columns, dims), batch) ==> {
            &&& batch is Ok <==> exists|i: int|
                0 <= i < columns@.len() && (#[trigger] columns@[i])@.name == "id"@
            &&& batch matches Err(error) ==> error.table_name@ == table_name@
            &&& batch matches Ok(sql) ==> exists|digits: Seq<char>| #[trigger]
                is_decimal(digits) && digits_value(digits) == dims && sql@ == start + declared(
                    column_views(columns@),
                ) + middle + digits + end
        }
}

/// A schema declares every column with its type, and vectors of the dimension asked for; there is
/// one just where a column is named `id`. The schemas of two tables of one name differ in nothing
/// else.
pub proof fn law_schema_declares_every_column(table_name: &str)
    ensures
        exists|start: Seq<char>, middle: Seq<char>, end: Seq<char>| #[trigger]
            is_schema(table_name, start, middle, end)
                && "embedding FLOAT32("@.is_suffix_of(middle),
{
    let t = table_name@;
    let start = "CREATE TABLE IF NOT EXISTS "@ + t + " ("@;
    let middle = "\n)"@ + ";\n             "@ + index_documents_sql(t) + ";\n             "@
        + "CREATE TABLE IF NOT EXISTS "@ + t + "_embeddings"@
        + " (\n                 embedding FLOAT32("@;
    let end = ")\n             )"@ + ";\n             "@ + index_embeddings_sql(t)
        + ";\n             "@ + create_map_sql(t) + ";\n             "@ + index_map_sql(t) + ";"@;
    assert forall|columns: Vec<Column>, dims: usize, batch: Result<String, LibsqlMissingIdColumn>|
     #[trigger]
        call_ensures(schema_batch, (table_name, &columns, dims), batch) implies {
        &&& batch is Ok <==> exists|i: int|
            0 <= i < columns@.len() && (#[trigger] columns@[i])@.name == "id"@
        &&& batch matches Err(error) ==> error.table_name@ == table_name@
        &&& batch matches Ok(sql) ==> exists|digits: Seq<char>| #[trigger]
            is_decimal(digits) && digits_value(digits) == dims && sql@ == start + declared(
                column_views(columns@),
            ) + middle + digits + end
    } by {
        let views = column_views(columns@);
        assert forall|i: int| 0 <= i < views.len() implies #[trigger] views[i] == columns@[i]@ by {}
        if batch is Ok {
            let i = choose|i: int| 0 <= i < views.len() && (#[trigger] views[i]).name == "id"@;
            assert(columns@[i]@.name == "id"@);
            lemma_schema_text(t, views, dims as nat);
            lemma_declared(views);
            law_signed_decimals_denote_their_integer(dims as int);
            let digits = decimal(dims as nat);
            assert(batch->Ok_0@ == start + declared(views) + middle + digits + end) by {
                broadcast use lemma_flat;

            }
            assert(is_decimal(digits));
        } else {
            assert forall|i: int| 0 <= i < columns@.len() implies (
            #[trigger] columns@[i])@.name != "id"@ by {
                assert(views[i].name != "id"@);
            }
        }
    }
    assert(is_schema(table_name, start, middle, end));
    let last = "embedding FLOAT32("@;
    reveal_strlit("embedding FLOAT32(");
    reveal_strlit(" (\n                 embedding FLOAT32(");
    assert(middle.subrange(middle.len() - last.len(), middle.len() as int) =~= last);
}

/// The statement that deletes the embeddings of the documents with an id.
pub open spec fn deletes_embeddings(table_name: Seq<char>) -> Seq<char> {
    "DELETE FROM "@ + table_name
        + "_embeddings\n                         WHERE rowid IN (\n                             SELECT embedding_rowid FROM "@
        + table_name
        + "_embedding_map\n                             WHERE document_rowid IN (\n                                 SELECT rowid FROM "@
        + table_name
        + " WHERE id = ?\n                             )\n                         )"@
}

/// The statement that deletes the entries of the documents with an id in the map.
pub open spec fn deletes_entries(table_name: Seq<char>) -> Seq<char> {
    "DELETE FROM "@ + table_name
        + "_embedding_map\n                         WHERE document_rowid IN (\n                             SELECT rowid FROM "@
        + table_name + " WHERE id = ?\n                         )"@
}

proof fn lemma_deletes_embeddings(table_name: Seq<char>, document: DocumentView)
    ensures
        drop_embeddings_statement(table_name, document).sql == deletes_embeddings(table_name),
{
    broadcast use lemma_flat;

    assert("_embeddings\n                         WHERE rowid IN (\n                             SELECT embedding_rowid FROM "@
        == "_embeddings"@ + "\n                         WHERE rowid IN ("@
        + "\n                             SELECT embedding_rowid FROM "@) by {
        reveal_strlit("_embeddings\n                         WHERE rowid IN (\n                             SELECT embedding_rowid FROM ");
        reveal_strlit("_embeddings");
        reveal_strlit("\n                         WHERE rowid IN (");
        reveal_strlit("\n                             SELECT embedding_rowid FROM ");
    }
    assert("_embedding_map\n                             WHERE document_rowid IN (\n                                 SELECT rowid FROM "@
        == "_embedding_map"@ + "\n                             WHERE document_rowid IN ("@
        + "\n                                 SELECT rowid FROM "@) by {
        reveal_strlit("_embedding_map\n                             WHERE document_rowid IN (\n                                 SELECT rowid FROM ");
        reveal_strlit("_embedding_map");
        reveal_strlit("\n                             WHERE document_rowid IN (");
        reveal_strlit("\n                                 SELECT rowid FROM ");
    }
    assert(" WHERE id = ?\n                             )\n                         )"@
        == " WHERE id = ?"@ + "\n                             )"@ + "\n                         )"@) by {
        reveal_strlit(" WHERE id = ?\n                             )\n                         )");
        reveal_strlit(" WHERE id = ?");
        reveal_strlit("\n                             )");
        reveal_strlit("\n                         )");
    }
    assert(drop_embeddings_statement(table_name, document).sql == deletes_embeddings(table_name));
}

proof fn lemma_deletes_entries(table_name: Seq<char>, document: DocumentView)
    ensures
        drop_map_statement(table_name, document).sql == deletes_entries(table_name),
{
    broadcast use lemma_flat;

    assert("_embedding_map\n                         WHERE document_rowid IN (\n                             SELECT rowid FROM "@
        == "_embedding_map"@ + "\n                         WHERE document_rowid IN ("@
        + "\n                             SELECT rowid FROM "@) by {
        reveal_strlit("_embedding_map\n                         WHERE document_rowid IN (\n                             SELECT rowid FROM ");
        reveal_strlit("_embedding_map");
        reveal_strlit("\n                         WHERE document_rowid IN (");
        reveal_strlit("\n                             SELECT rowid FROM ");
    }
    assert(" WHERE id = ?\n                         )"@ == " WHERE id = ?"@
        + "\n                         )"@) by {
        reveal_strlit(" WHERE id = ?\n                         )");
        reveal_strlit(" WHERE id = ?");
        reveal_strlit("\n                         )");
    }
    assert(drop_map_statement(table_name, document).sql == deletes_entries(table_name));
}

/// What each step of an insertion asks of the database, whatever the document: a stored document
/// with its id is looked for; where there is one, the embeddings of all such documents are
/// deleted, and then their entries in the map; then the document is stored in place of any that
/// it conflicts with, and each of its embeddings is stored and mapped.
pub proof fn law_each_step_runs_its_statement(state: AddRowsView, event: StoreEvent)
    requires
        in_progress(state),
        awaits(state.phase, event),
    ensures
        ({
            let t = state.table_name;
            match add_rows_step(state, event).1 {
                ActionView::Find(statement) => statement.sql == "SELECT rowid FROM "@ + t
                    + " WHERE id = ?"@,
                ActionView::Execute(statement) => {
                    &&& state.phase is Finding ==> statement.sql == deletes_embeddings(t)
                    &&& state.phase is DroppingEmbeddings ==> statement.sql == deletes_entries(t)
                    &&& state.phase is Embedding ==> statement.sql == "INSERT INTO "@ + t
                        + "_embedding_map (embedding_rowid, document_rowid) VALUES (?, ?)"@
                    &&& state.phase is Finding || state.phase is DroppingEmbeddings
                        || state.phase is Embedding
                },
                ActionView::InsertDocument(statement) => ("INSERT OR REPLACE INTO "@ + t
                    + " ("@).is_prefix_of(statement.sql),
                ActionView::InsertEmbedding(statement) => statement.sql == "INSERT INTO "@ + t
                    + "_embeddings (embedding) VALUES (vector(?)) RETURNING rowid"@,
                _ => true,
            }
        }),
{
    let t = state.table_name;
    let document = state.documents[state.document as int];
    match add_rows_step(state, event).1 {
        ActionView::Execute(statement) => {
            if state.phase is Finding {
                lemma_deletes_embeddings(t, document);
            } else if state.phase is DroppingEmbeddings {
                lemma_deletes_entries(t, document);
            } else {
                reveal_strlit("_embedding_map");
                reveal_strlit(" (embedding_rowid, document_rowid) VALUES (?, ?)");
                reveal_strlit("_embedding_map (embedding_rowid, document_rowid) VALUES (?, ?)");
                assert("_embedding_map (embedding_rowid, document_rowid) VALUES (?, ?)"@
                    =~= "_embedding_map"@ + " (embedding_rowid, document_rowid) VALUES (?, ?)"@);
                assert(statement.sql == "INSERT INTO "@ + t
                    + "_embedding_map (embedding_rowid, document_rowid) VALUES (?, ?)"@) by {
                    broadcast use lemma_flat;

                }
            }
        },
        ActionView::InsertDocument(statement) => {
            let start = "INSERT OR REPLACE INTO "@ + t + " ("@;
            assert(statement == insert_document_statement(t, document));
            assert(statement.sql.subrange(0, start.len() as int) =~= start);
        },
        ActionView::InsertEmbedding(statement) => {
            reveal_strlit("_embeddings");
            reveal_strlit(" (embedding) VALUES (vector(?)) RETURNING rowid");
            reveal_strlit("_embeddings (embedding) VALUES (vector(?)) RETURNING rowid");
            assert("_embeddings (embedding) VALUES (vector(?)) RETURNING rowid"@
                =~= "_embeddings"@ + " (embedding) VALUES (vector(?)) RETURNING rowid"@);
            assert(statement.sql == "INSERT INTO "@ + t
                + "_embeddings (embedding) VALUES (vector(?)) RETURNING rowid"@) by {
                broadcast use lemma_flat;

            }
        },
        _ => {},
    }
}

/// Once the text is embedded, the search counts the embeddings and the documents that have one,
/// in the tables of its store; only filters that cannot be rendered fail it. Once they are
/// counted, the query is run, whatever the counts are.
pub proof fn law_searching_counts_before_it_queries(
    state: SearchView,
    event: SearchEvent,
    after: SearchView,
    action: SearchActionView,
    request: SearchRequest,
    conditions: Result<LibsqlRenderedFilter, FilterError>,
)
    requires
        search_steps(state, event, after, action),
        state.threshold == request.threshold,
        match request.filter {
            Some(filter) => state.filter == Some(filter.expr),
            None => state.filter is None,
        },
        call_ensures(render_search_filters, (&request, "ranked.__rig_score"), conditions),
    ensures
        event is Embedded ==> match conditions {
            Ok(_) => action == SearchActionView::Count(
                "SELECT\n                        (SELECT COUNT(*) FROM "@ + state.table_name
                    + "_embeddings"@
                    + "),\n                        (SELECT COUNT(DISTINCT document_rowid) FROM "@
                    + state.table_name + "_embedding_map"@ + ")"@,
            ),
            Err(error) => action == SearchActionView::Fail(StoreErrorView::Filter(error@))
                && after.phase is Finished,
        },
        event is Counted ==> action is Query && after.phase is Querying,
{
    assert(filters_result(conditions) == search_filters(
        request.threshold,
        filter_expr(request.filter),
        "ranked.__rig_score"@,
    ));
    broadcast use lemma_flat;

}

/// The tables of embeddings, their map and their index are named after the document table.
pub proof fn law_tables_are_named_after_the_documents(
    table_name: &str,
    embeddings: String,
    map: String,
    index: String,
)
    requires
        call_ensures(embeddings_table_name, (table_name,), embeddings),
        call_ensures(embedding_map_table_name, (table_name,), map),
        call_ensures(embeddings_index_name, (table_name,), index),
    ensures
        embeddings@ == table_name@ + "_embeddings"@,
        map@ == table_name@ + "_embedding_map"@,
        index@ == table_name@ + "_embeddings_idx"@,
{
}

} // verus!
