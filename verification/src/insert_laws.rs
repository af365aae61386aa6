//! What an insertion asks of the database from its beginning to its end.

use vstd::prelude::*;
use vstd::string::*;

use crate::embedding::{law_blob_is_little_endian, le_blob};
use crate::error::StoreErrorView;
use crate::insert::{
    add_rows_start, add_rows_step, awaits, drop_embeddings_statement, drop_map_statement,
    find_statement, in_progress, insert_document_statement, insert_embedding_statement,
    lookup_value, map_statement, numbered_placeholder, turn_to_document, turn_to_embedding,
    turn_to_storing, ActionView, AddRows, AddRowsPhase, AddRowsView, DocumentView, StatementView,
    StoreEvent,
};
use crate::placeholder::{lemma_no_marks, lemma_placeholders_add, marks_before, placeholders};
use crate::schema::{embedding_map_table, embeddings_table};
use crate::text::{decimal, digit, joined};
use crate::value::SqlView;

verus! {

/// What the database replies while one document is inserted: the rowid of a stored
/// document with the same id, the rowid that the document gets, and the rowid that
/// each of its embeddings gets.
pub struct DocumentReplies {
    pub existing: Option<i64>,
    pub rowid: i64,
    pub embedding_rowids: Seq<i64>,
}

/// Whether there are replies for each document and for each of its embeddings.
pub open spec fn replies_fit(documents: Seq<DocumentView>, replies: Seq<DocumentReplies>) -> bool {
    &&& replies.len() == documents.len()
    &&& forall|i: int|
        0 <= i < replies.len() ==> (#[trigger] replies[i]).embedding_rowids.len()
            == documents[i].embeddings.len()
}

/// The replies to inserting and mapping a document's embeddings from the one at
/// position `at` on.
pub open spec fn embedding_events(rowids: Seq<i64>, at: int) -> Seq<StoreEvent>
    decreases rowids.len() - at,
{
    if at < 0 || at >= rowids.len() {
        Seq::empty()
    } else {
        seq![StoreEvent::Returned(Some(rowids[at])), StoreEvent::Done] + embedding_events(
            rowids,
            at + 1,
        )
    }
}

/// The replies while one document is inserted.
pub open spec fn document_events(replies: DocumentReplies) -> Seq<StoreEvent> {
    seq![StoreEvent::Found(replies.existing)] + match replies.existing {
        Some(_) => seq![StoreEvent::Done, StoreEvent::Done],
        None => Seq::empty(),
    } + seq![StoreEvent::Inserted(replies.rowid)] + embedding_events(replies.embedding_rowids, 0)
}

/// The replies while the documents from position `at` on are inserted, and to the
/// commit.
pub open spec fn events_from(replies: Seq<DocumentReplies>, at: int) -> Seq<StoreEvent>
    decreases replies.len() - at,
{
    if at < 0 || at >= replies.len() {
        seq![StoreEvent::Done]
    } else {
        document_events(replies[at]) + events_from(replies, at + 1)
    }
}

/// What is asked for to insert and map a document's embeddings from the one at
/// position `at` on: each embedding is inserted, and mapped to its document under the
/// rowid that it got.
pub open spec fn embedding_script(
    table_name: Seq<char>,
    vectors: Seq<Seq<u32>>,
    replies: DocumentReplies,
    at: int,
) -> Seq<ActionView>
    decreases vectors.len() - at,
{
    if at < 0 || at >= vectors.len() {
        Seq::empty()
    } else {
        seq![
            ActionView::InsertEmbedding(insert_embedding_statement(table_name, vectors[at])),
            ActionView::Execute(
                map_statement(table_name, replies.embedding_rowids[at], replies.rowid),
            ),
        ] + embedding_script(table_name, vectors, replies, at + 1)
    }
}

/// What is asked for to insert one document: a stored document with the same id is
/// looked up; where there is one, the embeddings of every document with that id are deleted
/// and taken out of the map; the document is stored; its embeddings are inserted and mapped
/// to it.
pub open spec fn document_script(
    table_name: Seq<char>,
    document: DocumentView,
    replies: DocumentReplies,
) -> Seq<ActionView> {
    seq![ActionView::Find(find_statement(table_name, document))] + match replies.existing {
        Some(_) => seq![
            ActionView::Execute(drop_embeddings_statement(table_name, document)),
            ActionView::Execute(drop_map_statement(table_name, document)),
        ],
        None => Seq::empty(),
    } + seq![ActionView::InsertDocument(insert_document_statement(table_name, document))]
        + embedding_script(table_name, document.embeddings, replies, 0)
}

/// What is asked for to insert the documents from position `at` on and to commit them.
pub open spec fn script_from(
    table_name: Seq<char>,
    documents: Seq<DocumentView>,
    replies: Seq<DocumentReplies>,
    at: int,
) -> Seq<ActionView>
    decreases documents.len() - at,
{
    if at < 0 || at >= documents.len() {
        seq![ActionView::Commit, ActionView::Finish]
    } else {
        document_script(table_name, documents[at], replies[at]) + script_from(
            table_name,
            documents,
            replies,
            at + 1,
        )
    }
}

/// What an insertion in this state asks for while it is handed the events one after
/// the other.
pub open spec fn asked_for(state: AddRowsView, events: Seq<StoreEvent>) -> Seq<ActionView>
    decreases events.len(),
{
    if events.len() == 0 {
        Seq::empty()
    } else {
        let (next, action) = add_rows_step(state, events[0]);
        seq![action] + asked_for(next, events.drop_first())
    }
}

proof fn lemma_one_event(state: AddRowsView, event: StoreEvent, rest: Seq<StoreEvent>)
    ensures
        asked_for(state, seq![event] + rest) == seq![add_rows_step(state, event).1] + asked_for(
            add_rows_step(state, event).0,
            rest,
        ),
{
    assert((seq![event] + rest).drop_first() =~= rest);
    assert((seq![event] + rest)[0] == event);
}

proof fn lemma_two_events(
    state: AddRowsView,
    first: StoreEvent,
    second: StoreEvent,
    rest: Seq<StoreEvent>,
)
    ensures
        ({
            let (middle, action) = add_rows_step(state, first);
            let (next, reaction) = add_rows_step(middle, second);
            asked_for(state, seq![first, second] + rest) == seq![action, reaction] + asked_for(
                next,
                rest,
            )
        }),
{
    let (middle, action) = add_rows_step(state, first);
    let (next, reaction) = add_rows_step(middle, second);
    assert(seq![first, second] + rest =~= seq![first] + (seq![second] + rest));
    lemma_one_event(state, first, seq![second] + rest);
    lemma_one_event(middle, second, rest);
    assert(seq![action] + (seq![reaction] + asked_for(next, rest)) =~= seq![action, reaction]
        + asked_for(next, rest));
}

/// From the embedding at position `at` of the current document on.
proof fn lemma_from_embedding(state: AddRowsView, replies: Seq<DocumentReplies>, at: int)
    requires
        replies_fit(state.documents, replies),
        state.document < state.documents.len(),
        0 <= at <= state.documents[state.document as int].embeddings.len(),
    ensures
        ({
            let document = state.document as int;
            let (next, action) = turn_to_embedding(state, at as nat, replies[document].rowid);
            seq![action] + asked_for(
                next,
                embedding_events(replies[document].embedding_rowids, at) + events_from(
                    replies,
                    document + 1,
                ),
            ) == embedding_script(
                state.table_name,
                state.documents[document].embeddings,
                replies[document],
                at,
            ) + script_from(state.table_name, state.documents, replies, document + 1)
        }),
    decreases
            state.documents.len() - state.document,
            state.documents[state.document as int].embeddings.len() - at,
{
    let document = state.document as int;
    let reply = replies[document];
    let vectors = state.documents[document].embeddings;
    let (next, action) = turn_to_embedding(state, at as nat, reply.rowid);
    let after = events_from(replies, document + 1);
    let ending = script_from(state.table_name, state.documents, replies, document + 1);
    if at < vectors.len() {
        let tail = embedding_events(reply.embedding_rowids, at + 1) + after;
        let inserted = StoreEvent::Returned(Some(reply.embedding_rowids[at]));
        assert(embedding_events(reply.embedding_rowids, at) + after =~= seq![
            inserted,
            StoreEvent::Done,
        ] + tail);
        lemma_two_events(next, inserted, StoreEvent::Done, tail);
        let (mapping, linked) = add_rows_step(next, inserted);
        let (later, reaction) = add_rows_step(mapping, StoreEvent::Done);
        lemma_from_embedding(mapping, replies, at + 1);
        let remaining = embedding_script(state.table_name, vectors, reply, at + 1) + ending;
        assert(seq![reaction] + asked_for(later, tail) == remaining);
        assert(seq![action] + (seq![linked, reaction] + asked_for(later, tail)) =~= seq![
            action,
            linked,
        ] + (seq![reaction] + asked_for(later, tail)));
        assert(seq![action, linked] + remaining =~= embedding_script(
            state.table_name,
            vectors,
            reply,
            at,
        ) + ending);
    } else {
        assert(embedding_events(reply.embedding_rowids, at) + after =~= after);
        assert(embedding_script(state.table_name, vectors, reply, at) + ending =~= ending);
        lemma_from_document(state, replies, document + 1);
    }
}

/// From the document at position `at` on.
proof fn lemma_from_document(state: AddRowsView, replies: Seq<DocumentReplies>, at: int)
    requires
        replies_fit(state.documents, replies),
        0 <= at <= state.documents.len(),
    ensures
        ({
            let (next, action) = turn_to_document(state, at as nat);
            seq![action] + asked_for(next, events_from(replies, at)) == script_from(
                state.table_name,
                state.documents,
                replies,
                at,
            )
        }),
    decreases state.documents.len() - at, state.documents[at].embeddings.len() + 1,
{
    let (finding, look) = turn_to_document(state, at as nat);
    let table = state.table_name;
    if at < state.documents.len() {
        let reply = replies[at];
        let after = events_from(replies, at + 1);
        let embedded = embedding_events(reply.embedding_rowids, 0) + after;
        let stored = seq![StoreEvent::Inserted(reply.rowid)] + embedded;
        let found = StoreEvent::Found(reply.existing);
        let (second, reaction) = add_rows_step(finding, found);
        // The state that waits for the document's rowid, and what is asked for up to
        // there.
        let storing = turn_to_storing(finding).0;
        let insert = turn_to_storing(finding).1;
        lemma_one_event(storing, StoreEvent::Inserted(reply.rowid), embedded);
        lemma_from_embedding(storing, replies, 0);
        let remaining = embedding_script(table, state.documents[at].embeddings, reply, 0)
            + script_from(table, state.documents, replies, at + 1);
        assert(asked_for(storing, stored) == remaining);
        match reply.existing {
            Some(_) => {
                let tail = seq![StoreEvent::Done, StoreEvent::Done] + stored;
                assert(events_from(replies, at) =~= seq![found] + tail);
                lemma_one_event(finding, found, tail);
                lemma_two_events(second, StoreEvent::Done, StoreEvent::Done, stored);
                let (third, drop) = add_rows_step(second, StoreEvent::Done);
                assert(add_rows_step(third, StoreEvent::Done) == (storing, insert));
                assert(seq![look] + (seq![reaction] + (seq![drop, insert] + remaining))
                    =~= script_from(table, state.documents, replies, at));
            },
            None => {
                assert(events_from(replies, at) =~= seq![found] + stored);
                lemma_one_event(finding, found, stored);
                assert((second, reaction) == (storing, insert));
                assert(seq![look] + (seq![insert] + remaining) =~= script_from(
                    table,
                    state.documents,
                    replies,
                    at,
                ));
            },
        }
    } else {
        let none = Seq::<StoreEvent>::empty();
        assert(seq![StoreEvent::Done] + none =~= events_from(replies, at));
        lemma_one_event(finding, StoreEvent::Done, none);
        assert(seq![look] + (seq![ActionView::Finish] + asked_for(
            add_rows_step(finding, StoreEvent::Done).0,
            none,
        )) =~= seq![ActionView::Commit, ActionView::Finish]);
    }
}

/// The whole course of an insertion, whatever rowids the database hands out: one
/// transaction is opened; for each document in turn, a stored document with the same
/// id is looked up, where there is one the embeddings of every document with that id are
/// deleted and taken out of the map, the document is stored, and each of its embeddings is
/// inserted and mapped to it; then everything is committed.
pub proof fn law_insertion_course(
    table_name: Seq<char>,
    documents: Seq<DocumentView>,
    replies: Seq<DocumentReplies>,
)
    requires
        documents.len() > 0,
        replies_fit(documents, replies),
    ensures
        ({
            let (state, action) = add_rows_start(table_name, documents);
            &&& action == ActionView::Begin
            &&& asked_for(state, seq![StoreEvent::Done] + events_from(replies, 0)) == script_from(
                table_name,
                documents,
                replies,
                0,
            )
        }),
{
    let (state, _) = add_rows_start(table_name, documents);
    lemma_one_event(state, StoreEvent::Done, events_from(replies, 0));
    lemma_from_document(state, replies, 0);
}

/// Without documents nothing is asked for.
pub proof fn law_nothing_to_insert(table_name: Seq<char>, documents: Seq<DocumentView>)
    requires
        documents.len() == 0,
    ensures
        add_rows_start(table_name, documents).1 == ActionView::Finish,
        forall|event: StoreEvent| !awaits(add_rows_start(table_name, documents).0.phase, event),
{
}

/// An embedding that comes back without a rowid ends the insertion: it fails, and
/// waits for nothing more, so nothing is committed.
pub proof fn law_missing_rowid_fails(state: AddRowsView, event: StoreEvent)
    requires
        state.phase is Embedding,
        event == StoreEvent::Returned(None),
    ensures
        add_rows_step(state, event).1 == ActionView::Fail(StoreErrorView::NoEmbeddingRowid),
        forall|later: StoreEvent| !awaits(add_rows_step(state, event).0.phase, later),
{
}

/// A commit is asked for only when every document has been dealt with.
pub proof fn law_commit_comes_last(state: AddRowsView, event: StoreEvent)
    requires
        in_progress(state),
        awaits(state.phase, event),
        add_rows_step(state, event).1 == ActionView::Commit,
    ensures
        add_rows_step(state, event).0.document == state.documents.len(),
{
}

/// The question marks in the words that the statements of an insertion are built from.
proof fn lemma_statement_words()
    ensures
        placeholders("SELECT rowid FROM "@) == 0,
        placeholders(" WHERE id = ?"@) == 1,
        placeholders("DELETE FROM "@) == 0,
        placeholders("\n                         WHERE rowid IN ("@) == 0,
        placeholders("\n                             SELECT embedding_rowid FROM "@) == 0,
        placeholders("\n                             WHERE document_rowid IN ("@) == 0,
        placeholders("\n                                 SELECT rowid FROM "@) == 0,
        placeholders("\n                             )"@) == 0,
        placeholders("\n                         )"@) == 0,
        placeholders("\n                         WHERE document_rowid IN ("@) == 0,
        placeholders("\n                             SELECT rowid FROM "@) == 0,
        placeholders("INSERT OR REPLACE INTO "@) == 0,
        placeholders(" ("@) == 0,
        placeholders(") VALUES ("@) == 0,
        placeholders(")"@) == 0,
        placeholders(", "@) == 0,
        placeholders("?"@) == 1,
        placeholders("INSERT INTO "@) == 0,
        placeholders(" (embedding) VALUES (vector(?)) RETURNING rowid"@) == 1,
        placeholders(" (embedding_rowid, document_rowid) VALUES (?, ?)"@) == 2,
        placeholders("_embeddings"@) == 0,
        placeholders("_embedding_map"@) == 0,
        placeholders(""@) == 0,
{
    reveal_with_fuel(marks_before, 65);
    reveal_strlit("SELECT rowid FROM ");
    reveal_strlit(" WHERE id = ?");
    reveal_strlit("DELETE FROM ");
    reveal_strlit("\n                         WHERE rowid IN (");
    reveal_strlit("\n                             SELECT embedding_rowid FROM ");
    reveal_strlit("\n                             WHERE document_rowid IN (");
    reveal_strlit("\n                                 SELECT rowid FROM ");
    reveal_strlit("\n                             )");
    reveal_strlit("\n                         )");
    reveal_strlit("\n                         WHERE document_rowid IN (");
    reveal_strlit("\n                             SELECT rowid FROM ");
    reveal_strlit("INSERT OR REPLACE INTO ");
    reveal_strlit(" (");
    reveal_strlit(") VALUES (");
    reveal_strlit(")");
    reveal_strlit(", ");
    reveal_strlit("?");
    reveal_strlit("INSERT INTO ");
    reveal_strlit(" (embedding) VALUES (vector(?)) RETURNING rowid");
    reveal_strlit(" (embedding_rowid, document_rowid) VALUES (?, ?)");
    reveal_strlit("_embeddings");
    reveal_strlit("_embedding_map");
    reveal_strlit("");
}

/// A number in decimal holds no question mark.
proof fn lemma_decimal_marks(n: nat)
    ensures
        placeholders(decimal(n)) == 0,
    decreases n,
{
    broadcast use lemma_placeholders_add;

    reveal_with_fuel(marks_before, 3);
    let last = digit((n % 10) as int);
    assert(placeholders(seq![last]) == 0);
    if n < 10 {
        assert(decimal(n) =~= seq![last]);
    } else {
        lemma_decimal_marks(n / 10);
        assert(decimal(n) =~= decimal(n / 10) + seq![last]);
    }
}

/// Texts put together with a separator that holds no question mark hold those of each.
proof fn lemma_joined_marks(parts: Seq<Seq<char>>, each: nat)
    requires
        forall|i: int| 0 <= i < parts.len() ==> placeholders(#[trigger] parts[i]) == each,
    ensures
        placeholders(joined(parts, ", "@)) == each * parts.len(),
    decreases parts.len(),
{
    broadcast use lemma_placeholders_add;

    lemma_statement_words();
    if parts.len() == 0 {
        assert(joined(parts, ", "@) =~= ""@) by {
            reveal_strlit("");
        }
        assert(each * 0 == 0);
    } else if parts.len() == 1 {
        assert(each * 1 == each);
    } else {
        let fewer = parts.drop_last();
        assert forall|i: int| 0 <= i < fewer.len() implies placeholders(#[trigger] fewer[i])
            == each by {
            assert(fewer[i] == parts[i]);
        }
        lemma_joined_marks(fewer, each);
        assert(placeholders(parts.last()) == each);
        assert(each * fewer.len() + each == each * parts.len()) by (nonlinear_arith)
            requires
                fewer.len() + 1 == parts.len(),
        ;
    }
}

/// Whether no name in the document's columns holds a question mark.
pub open spec fn has_plain_columns(document: DocumentView) -> bool {
    forall|i: int|
        0 <= i < document.values.len() ==> !(#[trigger] document.values[i]).0.contains('?')
}

proof fn lemma_document_marks(table_name: Seq<char>, document: DocumentView)
    requires
        !table_name.contains('?'),
        has_plain_columns(document),
    ensures
        binds_every_placeholder(insert_document_statement(table_name, document)),
{
    broadcast use lemma_placeholders_add;

    lemma_statement_words();
    lemma_no_marks(table_name, table_name.len() as int);
    let names = document.values.map_values(|v: (Seq<char>, SqlView)| v.0);
    let marks = Seq::new(document.values.len(), |i: int| numbered_placeholder(i));
    assert forall|i: int| 0 <= i < names.len() implies placeholders(#[trigger] names[i]) == 0 by {
        assert(!document.values[i].0.contains('?'));
        lemma_no_marks(names[i], names[i].len() as int);
    }
    assert forall|i: int| 0 <= i < marks.len() implies placeholders(#[trigger] marks[i]) == 1 by {
        lemma_decimal_marks((i + 1) as nat);
    }
    lemma_joined_marks(names, 0);
    lemma_joined_marks(marks, 1);
}

/// Whether the statement has one parameter for each of its question marks.
pub open spec fn binds_every_placeholder(statement: StatementView) -> bool {
    placeholders(statement.sql) == statement.params.len()
}

/// Every statement that an insertion asks for has one parameter for each of its question
/// marks, where no name holds one.
pub proof fn law_insertion_binds_every_placeholder(state: AddRowsView, event: StoreEvent)
    requires
        in_progress(state),
        awaits(state.phase, event),
        !state.table_name.contains('?'),
        forall|i: int|
            0 <= i < state.documents.len() ==> has_plain_columns(#[trigger] state.documents[i]),
    ensures
        match add_rows_step(state, event).1 {
            ActionView::Find(statement) => binds_every_placeholder(statement),
            ActionView::Execute(statement) => binds_every_placeholder(statement),
            ActionView::InsertDocument(statement) => binds_every_placeholder(statement),
            ActionView::InsertEmbedding(statement) => binds_every_placeholder(statement),
            _ => true,
        },
{
    broadcast use lemma_placeholders_add;

    lemma_statement_words();
    lemma_no_marks(state.table_name, state.table_name.len() as int);
    assert(placeholders(embeddings_table(state.table_name)) == 0);
    assert(placeholders(embedding_map_table(state.table_name)) == 0);
    if state.document < state.documents.len() {
        lemma_document_marks(state.table_name, state.documents[state.document as int]);
    }
}

/// The statement that stores a document binds the value of each of its columns as it is, one
/// parameter for each column and in their order.
pub proof fn law_storing_binds_every_value(state: AddRowsView, event: StoreEvent)
    requires
        in_progress(state),
        awaits(state.phase, event),
    ensures
        add_rows_step(state, event).1 matches ActionView::InsertDocument(statement) ==> ({
            let document = state.documents[state.document as int];
            &&& statement.params.len() == document.values.len()
            &&& forall|i: int|
                0 <= i < document.values.len() ==> #[trigger] statement.params[i]
                    == document.values[i].1
        }),
{
}

/// One column more is one name, one placeholder and one parameter more at the end of the
/// statement that stores the document, and changes nothing else of it.
pub proof fn law_each_column_is_named_and_bound(
    table_name: Seq<char>,
    document: DocumentView,
    name: Seq<char>,
    value: SqlView,
)
    requires
        document.values.len() > 0,
    ensures
        ({
            let longer = DocumentView { values: document.values.push((name, value)), ..document };
            let before = insert_document_statement(table_name, document);
            let after = insert_document_statement(table_name, longer);
            &&& after.params == before.params.push(value)
            &&& exists|names: Seq<char>, marks: Seq<char>|
                before.sql == #[trigger] (names + ") VALUES ("@ + marks + ")"@) && after.sql
                    == names + (", "@ + name) + ") VALUES ("@ + (marks + ", ?"@ + decimal(
                    longer.values.len(),
                )) + ")"@
        }),
{
    let longer = DocumentView { values: document.values.push((name, value)), ..document };
    let before = insert_document_statement(table_name, document);
    let after = insert_document_statement(table_name, longer);
    let names = document.values.map_values(|v: (Seq<char>, SqlView)| v.0);
    let marks = Seq::new(document.values.len(), |i: int| numbered_placeholder(i));
    let longer_names = longer.values.map_values(|v: (Seq<char>, SqlView)| v.0);
    let longer_marks = Seq::new(longer.values.len(), |i: int| numbered_placeholder(i));
    assert(after.params =~= before.params.push(value));
    assert(longer_names.drop_last() =~= names);
    assert(longer_marks.drop_last() =~= marks);
    let listed = "INSERT OR REPLACE INTO "@ + table_name + " ("@ + joined(names, ", "@);
    assert(before.sql == listed + ") VALUES ("@ + joined(marks, ", "@) + ")"@);
    reveal_strlit(", ?");
    reveal_strlit(", ");
    reveal_strlit("?");
    assert(", ?"@ =~= ", "@ + "?"@);
    assert(joined(longer_names, ", "@) =~= joined(names, ", "@) + (", "@ + name));
    assert(joined(longer_marks, ", "@) =~= joined(marks, ", "@) + ", ?"@ + decimal(
        longer.values.len(),
    ));
    assert(after.sql =~= listed + (", "@ + name) + ") VALUES ("@ + (joined(marks, ", "@) + ", ?"@
        + decimal(longer.values.len())) + ")"@);
}

/// A document of one column is stored by naming it, and binding its value to the first
/// placeholder.
pub proof fn law_one_column_is_named_and_bound(
    table_name: Seq<char>,
    id: Seq<char>,
    name: Seq<char>,
    value: SqlView,
    embeddings: Seq<Seq<u32>>,
)
    ensures
        insert_document_statement(
            table_name,
            DocumentView { id, values: seq![(name, value)], embeddings },
        ) == (StatementView {
            sql: "INSERT OR REPLACE INTO "@ + table_name + " ("@ + name + ") VALUES (?1)"@,
            params: seq![value],
        }),
{
    let values = seq![(name, value)];
    let names = values.map_values(|v: (Seq<char>, SqlView)| v.0);
    let marks = Seq::new(values.len(), |i: int| numbered_placeholder(i));
    assert(names =~= seq![name]);
    assert(marks =~= seq![numbered_placeholder(0)]);
    reveal_strlit("?");
    reveal_strlit(") VALUES (");
    reveal_strlit(")");
    reveal_strlit(") VALUES (?1)");
    assert(decimal(1) =~= seq!['1']);
    assert(") VALUES (?1)"@ =~= ") VALUES ("@ + ("?"@ + decimal(1)) + ")"@);
    let statement = insert_document_statement(table_name, DocumentView { id, values, embeddings });
    assert(statement.params =~= seq![value]);
    assert(statement.sql =~= "INSERT OR REPLACE INTO "@ + table_name + " ("@ + name
        + ") VALUES (?1)"@);
}

/// Whether the document is looked up by `value`: by that of its first column named `id`, or by
/// its id as text where no column has that name.
pub open spec fn is_looked_up_by(document: DocumentView, value: SqlView) -> bool {
    ||| exists|at: int|
        0 <= at < document.values.len() && (#[trigger] document.values[at]).0 == "id"@
            && document.values[at].1 == value && forall|k: int|
            0 <= k < at ==> (#[trigger] document.values[k]).0 != "id"@
    ||| value == SqlView::Text(document.id) && forall|k: int|
        0 <= k < document.values.len() ==> (#[trigger] document.values[k]).0 != "id"@
}

proof fn lemma_looked_up(document: DocumentView, at: int)
    requires
        0 <= at <= document.values.len(),
        forall|k: int| 0 <= k < at ==> (#[trigger] document.values[k]).0 != "id"@,
    ensures
        is_looked_up_by(document, lookup_value(document, at)),
    decreases document.values.len() - at,
{
    if at < document.values.len() && document.values[at].0 != "id"@ {
        lemma_looked_up(document, at + 1);
    }
}

/// The statements that look for stored documents and delete their embeddings all bind the one
/// value by which the document is looked up, and nothing else.
pub proof fn law_replacing_goes_by_the_id(state: AddRowsView, event: StoreEvent)
    requires
        in_progress(state),
        awaits(state.phase, event),
    ensures
        ({
            let (next, action) = add_rows_step(state, event);
            let document = next.documents[next.document as int];
            &&& action matches ActionView::Find(statement) ==> statement.params.len() == 1
                && is_looked_up_by(document, statement.params[0])
            &&& state.phase is Finding || state.phase is DroppingEmbeddings ==> (
            action matches ActionView::Execute(statement) ==> statement.params.len() == 1
                && is_looked_up_by(document, statement.params[0]))
            &&& state.phase is Finding && event is Found ==> (action is Execute <==> event
                != StoreEvent::Found(None))
        }),
{
    let (next, action) = add_rows_step(state, event);
    lemma_looked_up(next.documents[next.document as int], 0);
}

/// Each embedding is bound as it is: its components one after the other, each by its four
/// bytes, the least significant byte first.
pub proof fn law_embeddings_are_bound_whole(state: AddRowsView, event: StoreEvent)
    requires
        in_progress(state),
        awaits(state.phase, event),
    ensures
        add_rows_step(state, event).1 matches ActionView::InsertEmbedding(statement) ==> ({
            let next = add_rows_step(state, event).0;
            let vector = next.documents[next.document as int].embeddings[next.embedding as int];
            &&& statement.params.len() == 1
            &&& statement.params[0] matches SqlView::Blob(bytes) && bytes.len() == 4 * vector.len()
                && forall|i: int|
                0 <= i < vector.len() ==> #[trigger] vector[i] == bytes[4 * i] + 0x100 * bytes[4
                    * i + 1] + 0x1_0000 * bytes[4 * i + 2] + 0x100_0000 * bytes[4 * i + 3]
        }),
{
    let (next, action) = add_rows_step(state, event);
    if let ActionView::InsertEmbedding(statement) = action {
        let vector = next.documents[next.document as int].embeddings[next.embedding as int];
        assert(statement == insert_embedding_statement(state.table_name, vector));
        assert(statement.params[0] == SqlView::Blob(le_blob(vector)));
        law_blob_is_little_endian(vector);
    }
}

/// Once a document is stored under a rowid, its embeddings follow one after the other, from
/// the first to the last, and each is mapped to that rowid under the rowid that it got itself.
pub proof fn law_embeddings_are_mapped_to_their_document(state: AddRowsView, event: StoreEvent)
    requires
        in_progress(state),
        awaits(state.phase, event),
    ensures
        ({
            let (next, action) = add_rows_step(state, event);
            let count = state.documents[state.document as int].embeddings.len();
            &&& next.documents == state.documents && next.table_name == state.table_name
            &&& state.phase is Storing ==> (event matches StoreEvent::Inserted(rowid) && if count
                > 0 {
                next.phase == AddRowsPhase::Embedding(rowid) && next.embedding == 0 && next.document
                    == state.document && action is InsertEmbedding
            } else {
                next.document == state.document + 1
            })
            &&& state.phase matches AddRowsPhase::Embedding(rowid) ==> (
            event matches StoreEvent::Returned(Some(embedding_rowid)) ==> next.phase
                == AddRowsPhase::Mapping(rowid) && next.embedding == state.embedding
                && next.document == state.document && (
            action matches ActionView::Execute(statement) && statement.params.len() == 2
                && statement.params[0] == SqlView::Integer(embedding_rowid) && statement.params[1]
                == SqlView::Integer(rowid)))
            &&& state.phase matches AddRowsPhase::Mapping(rowid) ==> if state.embedding + 1
                < count {
                next.phase == AddRowsPhase::Embedding(rowid) && next.embedding == state.embedding
                    + 1 && next.document == state.document && action is InsertEmbedding
            } else {
                next.document == state.document + 1
            }
        }),
{
}

/// Every document has its turn, from the first to the last: turning from one document to the
/// next looks the next one up, and after the last one everything is committed. What a stored
/// document with its id has is deleted before the document is stored: its embeddings, and then
/// their entries in the map.
pub proof fn law_every_document_has_its_turn(state: AddRowsView, event: StoreEvent)
    requires
        in_progress(state),
        awaits(state.phase, event),
    ensures
        ({
            let (next, action) = add_rows_step(state, event);
            &&& next.document == state.document || next.document == state.document + 1
            &&& state.phase is Opening || next.document != state.document ==> if next.document
                < state.documents.len() {
                action is Find && next.phase is Finding
            } else {
                action is Commit && next.phase is Committing
            }
            &&& event matches StoreEvent::Found(Some(_)) ==> action is Execute
                && next.phase is DroppingEmbeddings
            &&& event == StoreEvent::Found(None) ==> action is InsertDocument
                && next.phase is Storing
            &&& state.phase is DroppingEmbeddings ==> action is Execute
                && next.phase is DroppingMap
            &&& state.phase is DroppingMap ==> action is InsertDocument && next.phase is Storing
            &&& state.phase is Committing ==> action is Finish
            &&& action is Finish ==> state.phase is Committing
            &&& action is Fail ==> event == StoreEvent::Returned(None)
        }),
{
}

/// An insertion takes a reply of the kind that it waits for, whatever the reply says, and no
/// other.
pub proof fn law_insertion_takes_the_reply_to_its_action(
    rows: AddRows,
    event: StoreEvent,
    accepted: bool,
)
    requires
        call_ensures(AddRows::accepts, (&rows, &event), accepted),
    ensures
        match event {
            StoreEvent::Found(_) => accepted <==> rows@.phase is Finding,
            StoreEvent::Inserted(_) => accepted <==> rows@.phase is Storing,
            StoreEvent::Returned(_) => accepted <==> rows@.phase is Embedding,
            StoreEvent::Done => accepted <==> !(rows@.phase is Finding || rows@.phase is Storing
                || rows@.phase is Embedding || rows@.phase is Finished),
        },
{
}

} // verus!
