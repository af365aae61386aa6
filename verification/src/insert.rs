//! Inserting documents with their embeddings.
//!
//! [`AddRows`] decides what to ask of the database and in which order; whoever owns
//! the connection carries out each [`StoreAction`] and hands the reply back as a
//! [`StoreEvent`]. Everything between [`StoreAction::Begin`] and
//! [`StoreAction::Commit`] belongs to one transaction.

use vstd::prelude::*;
use vstd::string::*;

use crate::embedding::{embedding_to_le_bytes, le_blob, Embedding};
use crate::error::{StoreError, StoreErrorView};
use crate::schema::{
    embedding_map_table, embedding_map_table_name, embeddings_table, embeddings_table_name,
};
use crate::text::{decimal, decimal_text, join, joined, same_text, views};
use crate::value::{sql_views, LibsqlValue, SqlView};

verus! {

/// An SQL statement with its parameters.
#[derive(Debug, PartialEq, Eq)]
pub struct Statement {
    pub sql: String,
    pub params: Vec<LibsqlValue>,
}

/// What a [`Statement`] stands for.
#[verifier::ext_equal]
pub struct StatementView {
    pub sql: Seq<char>,
    pub params: Seq<SqlView>,
}

impl View for Statement {
    type V = StatementView;

    open spec fn view(&self) -> StatementView {
        StatementView { sql: self.sql@, params: sql_views(self.params@) }
    }
}

/// A document to insert: its id, the value of each of its columns, and its
/// embeddings.
#[derive(Debug, PartialEq, Eq)]
pub struct DocumentRow {
    pub id: String,
    pub values: Vec<(&'static str, LibsqlValue)>,
    pub embeddings: Vec<Embedding>,
}

/// What a [`DocumentRow`] stands for.
#[verifier::ext_equal]
pub struct DocumentView {
    pub id: Seq<char>,
    pub values: Seq<(Seq<char>, SqlView)>,
    pub embeddings: Seq<Seq<u32>>,
}

impl View for DocumentRow {
    type V = DocumentView;

    open spec fn view(&self) -> DocumentView {
        DocumentView {
            id: self.id@,
            values: self.values@.map_values(|v: (&'static str, LibsqlValue)| (v.0@, v.1@)),
            embeddings: self.embeddings@.map_values(|e: Embedding| e.vec@),
        }
    }
}

/// What the database is asked to do next.
#[derive(Debug)]
pub enum StoreAction {
    /// Open a transaction.
    Begin,
    /// Run the query; the reply is the first column of its first row.
    Find(Statement),
    /// Run the statement.
    Execute(Statement),
    /// Run the statement; the reply is the rowid that it inserted.
    InsertDocument(Statement),
    /// Run the query; the reply is the rowid in its first row.
    InsertEmbedding(Statement),
    /// Commit the transaction.
    Commit,
    /// Nothing: all documents are stored.
    Finish,
    /// Nothing: give the transaction up.
    Fail(StoreError),
}

/// What a [`StoreAction`] stands for.
#[verifier::ext_equal]
pub enum ActionView {
    Begin,
    Find(StatementView),
    Execute(StatementView),
    InsertDocument(StatementView),
    InsertEmbedding(StatementView),
    Commit,
    Finish,
    Fail(StoreErrorView),
}

impl View for StoreAction {
    type V = ActionView;

    open spec fn view(&self) -> ActionView {
        match self {
            StoreAction::Begin => ActionView::Begin,
            StoreAction::Find(statement) => ActionView::Find(statement@),
            StoreAction::Execute(statement) => ActionView::Execute(statement@),
            StoreAction::InsertDocument(statement) => ActionView::InsertDocument(statement@),
            StoreAction::InsertEmbedding(statement) => ActionView::InsertEmbedding(statement@),
            StoreAction::Commit => ActionView::Commit,
            StoreAction::Finish => ActionView::Finish,
            StoreAction::Fail(error) => ActionView::Fail(error@),
        }
    }
}

/// What the database replied.
#[derive(Clone, Copy, Debug, PartialEq, Eq, Structural)]
pub enum StoreEvent {
    /// The transaction is open, the statement has run, or the commit is done.
    Done,
    /// The query found this rowid, or no row with one.
    Found(Option<i64>),
    /// The document was inserted under this rowid.
    Inserted(i64),
    /// The embedding was inserted under this rowid; `None` where no row came back.
    Returned(Option<i64>),
}

/// How far an insertion has come, by the reply that it waits for.
#[derive(Clone, Copy, Debug, PartialEq, Eq, Structural)]
pub enum AddRowsPhase {
    /// To opening the transaction.
    Opening,
    /// To looking for a stored document with the same id.
    Finding,
    /// To deleting the embeddings of the stored documents with the same id.
    DroppingEmbeddings,
    /// To deleting the entries of these documents in the map.
    DroppingMap,
    /// To inserting the document.
    Storing,
    /// To inserting an embedding of the document with this rowid.
    Embedding(i64),
    /// To mapping the embedding to the document with this rowid.
    Mapping(i64),
    /// To committing the transaction.
    Committing,
    /// To nothing.
    Finished,
}

/// The value by which a document is looked up: that of its first column named `id`
/// from position `at` on, or else its id as text.
pub open spec fn lookup_value(document: DocumentView, at: int) -> SqlView
    decreases document.values.len() - at,
{
    if at < 0 || at >= document.values.len() {
        SqlView::Text(document.id)
    } else if document.values[at].0 == "id"@ {
        document.values[at].1
    } else {
        lookup_value(document, at + 1)
    }
}

/// The query for the rowid of a stored document with the same id: whether there is one.
pub open spec fn find_statement(table_name: Seq<char>, document: DocumentView) -> StatementView {
    StatementView {
        sql: "SELECT rowid FROM "@ + table_name + " WHERE id = ?"@,
        params: seq![lookup_value(document, 0)],
    }
}

/// The statement that deletes the embeddings of every stored document with the same id.
pub open spec fn drop_embeddings_statement(
    table_name: Seq<char>,
    document: DocumentView,
) -> StatementView {
    StatementView {
        sql: "DELETE FROM "@ + embeddings_table(table_name)
            + "\n                         WHERE rowid IN ("@
            + "\n                             SELECT embedding_rowid FROM "@ + embedding_map_table(
            table_name,
        ) + "\n                             WHERE document_rowid IN ("@
            + "\n                                 SELECT rowid FROM "@ + table_name
            + " WHERE id = ?"@ + "\n                             )"@
            + "\n                         )"@,
        params: seq![lookup_value(document, 0)],
    }
}

/// The statement that deletes the entries of every stored document with the same id in the
/// map.
pub open spec fn drop_map_statement(table_name: Seq<char>, document: DocumentView) -> StatementView {
    StatementView {
        sql: "DELETE FROM "@ + embedding_map_table(table_name)
            + "\n                         WHERE document_rowid IN ("@
            + "\n                             SELECT rowid FROM "@ + table_name
            + " WHERE id = ?"@ + "\n                         )"@,
        params: seq![lookup_value(document, 0)],
    }
}

/// The numbered placeholder for the value at position `at`, counted from one.
pub open spec fn numbered_placeholder(at: int) -> Seq<char> {
    "?"@ + decimal((at + 1) as nat)
}

/// The statement that inserts a document, or replaces the stored one.
pub open spec fn insert_document_statement(
    table_name: Seq<char>,
    document: DocumentView,
) -> StatementView {
    StatementView {
        sql: "INSERT OR REPLACE INTO "@ + table_name + " ("@ + joined(
            document.values.map_values(|v: (Seq<char>, SqlView)| v.0),
            ", "@,
        ) + ") VALUES ("@ + joined(
            Seq::new(document.values.len(), |i: int| numbered_placeholder(i)),
            ", "@,
        ) + ")"@,
        params: document.values.map_values(|v: (Seq<char>, SqlView)| v.1),
    }
}

/// The query that inserts an embedding and returns its rowid.
pub open spec fn insert_embedding_statement(
    table_name: Seq<char>,
    vector: Seq<u32>,
) -> StatementView {
    StatementView {
        sql: "INSERT INTO "@ + embeddings_table(table_name)
            + " (embedding) VALUES (vector(?)) RETURNING rowid"@,
        params: seq![SqlView::Blob(le_blob(vector))],
    }
}

/// The statement that maps an embedding to its document.
pub open spec fn map_statement(
    table_name: Seq<char>,
    embedding_rowid: i64,
    document_rowid: i64,
) -> StatementView {
    StatementView {
        sql: "INSERT INTO "@ + embedding_map_table(table_name)
            + " (embedding_rowid, document_rowid) VALUES (?, ?)"@,
        params: seq![SqlView::Integer(embedding_rowid), SqlView::Integer(document_rowid)],
    }
}

/// A statement with one parameter.
fn statement_1(sql: String, param: LibsqlValue) -> (statement: Statement)
    ensures
        statement@ == (StatementView { sql: sql@, params: seq![param@] }),
{
    let params = vec![param];
    assert(sql_views(params@) =~= seq![param@]);
    Statement { sql, params }
}

/// The value by which a document is looked up.
fn lookup(document: &DocumentRow) -> (value: LibsqlValue)
    ensures
        value@ == lookup_value(document@, 0),
{
    let mut i: usize = 0;
    while i < document.values.len()
        invariant
            i <= document.values.len(),
            lookup_value(document@, 0) == lookup_value(document@, i as int),
        decreases document.values.len() - i,
    {
        assert(document@.values[i as int].0 == document.values@[i as int].0@);
        if same_text(document.values[i].0, "id") {
            return document.values[i].1.clone();
        }
        i += 1;
    }
    LibsqlValue::Text(document.id.clone())
}

fn find(table_name: &str, document: &DocumentRow) -> (statement: Statement)
    ensures
        statement@ == find_statement(table_name@, document@),
{
    let mut sql = "SELECT rowid FROM ".to_owned();
    sql.append(table_name);
    sql.append(" WHERE id = ?");
    statement_1(sql, lookup(document))
}

fn drop_embeddings(table_name: &str, document: &DocumentRow) -> (statement: Statement)
    ensures
        statement@ == drop_embeddings_statement(table_name@, document@),
{
    let mut sql = "DELETE FROM ".to_owned();
    sql.append(embeddings_table_name(table_name).as_str());
    sql.append("\n                         WHERE rowid IN (");
    sql.append("\n                             SELECT embedding_rowid FROM ");
    sql.append(embedding_map_table_name(table_name).as_str());
    sql.append("\n                             WHERE document_rowid IN (");
    sql.append("\n                                 SELECT rowid FROM ");
    sql.append(table_name);
    sql.append(" WHERE id = ?");
    sql.append("\n                             )");
    sql.append("\n                         )");
    statement_1(sql, lookup(document))
}

fn drop_map(table_name: &str, document: &DocumentRow) -> (statement: Statement)
    ensures
        statement@ == drop_map_statement(table_name@, document@),
{
    let mut sql = "DELETE FROM ".to_owned();
    sql.append(embedding_map_table_name(table_name).as_str());
    sql.append("\n                         WHERE document_rowid IN (");
    sql.append("\n                             SELECT rowid FROM ");
    sql.append(table_name);
    sql.append(" WHERE id = ?");
    sql.append("\n                         )");
    statement_1(sql, lookup(document))
}

fn insert_document(table_name: &str, document: &DocumentRow) -> (statement: Statement)
    ensures
        statement@ == insert_document_statement(table_name@, document@),
{
    let ghost values = document@.values;
    let ghost all_names = values.map_values(|v: (Seq<char>, SqlView)| v.0);
    let ghost all_marks = Seq::new(values.len(), |i: int| numbered_placeholder(i));
    let ghost all_params = values.map_values(|v: (Seq<char>, SqlView)| v.1);
    let mut names: Vec<String> = Vec::new();
    let mut marks: Vec<String> = Vec::new();
    let mut params: Vec<LibsqlValue> = Vec::new();
    let mut i: usize = 0;
    while i < document.values.len()
        invariant
            i <= document.values.len(),
            values == document@.values,
            all_names == values.map_values(|v: (Seq<char>, SqlView)| v.0),
            all_marks == Seq::new(values.len(), |i: int| numbered_placeholder(i)),
            all_params == values.map_values(|v: (Seq<char>, SqlView)| v.1),
            views(names@) == all_names.take(i as int),
            views(marks@) == all_marks.take(i as int),
            sql_views(params@) == all_params.take(i as int),
        decreases document.values.len() - i,
    {
        let ghost names_before = names@;
        let ghost marks_before = marks@;
        let ghost params_before = params@;
        let name = document.values[i].0.to_owned();
        let mut mark = "?".to_owned();
        mark.append(decimal_text(i as u64 + 1).as_str());
        let param = document.values[i].1.clone();
        names.push(name);
        marks.push(mark);
        params.push(param);
        proof {
            assert(values[i as int].0 == name@);
            assert(values[i as int].1 == param@);
            assert(views(names@) =~= views(names_before).push(name@));
            assert(views(marks@) =~= views(marks_before).push(mark@));
            assert(sql_views(params@) =~= sql_views(params_before).push(param@));
            assert(all_names.take(i + 1) =~= all_names.take(i as int).push(all_names[i as int]));
            assert(all_marks.take(i + 1) =~= all_marks.take(i as int).push(all_marks[i as int]));
            assert(all_params.take(i + 1) =~= all_params.take(i as int).push(
                all_params[i as int],
            ));
        }
        i += 1;
    }
    proof {
        assert(all_names.take(i as int) =~= all_names);
        assert(all_marks.take(i as int) =~= all_marks);
        assert(all_params.take(i as int) =~= all_params);
    }
    let mut sql = "INSERT OR REPLACE INTO ".to_owned();
    sql.append(table_name);
    sql.append(" (");
    sql.append(join(&names, ", ").as_str());
    sql.append(") VALUES (");
    sql.append(join(&marks, ", ").as_str());
    sql.append(")");
    Statement { sql, params }
}

fn insert_embedding(table_name: &str, embedding: &Embedding) -> (statement: Statement)
    ensures
        statement@ == insert_embedding_statement(table_name@, embedding.vec@),
{
    let mut sql = "INSERT INTO ".to_owned();
    sql.append(embeddings_table_name(table_name).as_str());
    sql.append(" (embedding) VALUES (vector(?)) RETURNING rowid");
    statement_1(sql, LibsqlValue::Blob(embedding_to_le_bytes(embedding)))
}

fn map_embedding(table_name: &str, embedding_rowid: i64, document_rowid: i64) -> (statement:
    Statement)
    ensures
        statement@ == map_statement(table_name@, embedding_rowid, document_rowid),
{
    let mut sql = "INSERT INTO ".to_owned();
    sql.append(embedding_map_table_name(table_name).as_str());
    sql.append(" (embedding_rowid, document_rowid) VALUES (?, ?)");
    let params = vec![LibsqlValue::Integer(embedding_rowid), LibsqlValue::Integer(document_rowid)];
    proof {
        assert(sql_views(params@) =~= seq![
            SqlView::Integer(embedding_rowid),
            SqlView::Integer(document_rowid),
        ]);
    }
    Statement { sql, params }
}

/// The state of an insertion: the table, the documents, the document and the
/// embedding that it is at, and the reply that it waits for.
#[verifier::ext_equal]
pub struct AddRowsView {
    pub table_name: Seq<char>,
    pub documents: Seq<DocumentView>,
    pub document: nat,
    pub embedding: nat,
    pub phase: AddRowsPhase,
}

/// Whether the state is at a document, and at an embedding, that there is.
pub open spec fn in_progress(state: AddRowsView) -> bool {
    &&& match state.phase {
        AddRowsPhase::Finding
        | AddRowsPhase::DroppingEmbeddings
        | AddRowsPhase::DroppingMap
        | AddRowsPhase::Storing
        | AddRowsPhase::Embedding(_)
        | AddRowsPhase::Mapping(_) => state.document < state.documents.len(),
        _ => state.document <= state.documents.len(),
    }
    &&& match state.phase {
        AddRowsPhase::Embedding(_) | AddRowsPhase::Mapping(_) => state.embedding
            < state.documents[state.document as int].embeddings.len(),
        _ => true,
    }
}

/// Whether the event is a reply of the kind that the phase waits for.
pub open spec fn awaits(phase: AddRowsPhase, event: StoreEvent) -> bool {
    match phase {
        AddRowsPhase::Opening
        | AddRowsPhase::DroppingEmbeddings
        | AddRowsPhase::DroppingMap
        | AddRowsPhase::Mapping(_)
        | AddRowsPhase::Committing => event is Done,
        AddRowsPhase::Finding => event is Found,
        AddRowsPhase::Storing => event is Inserted,
        AddRowsPhase::Embedding(_) => event is Returned,
        AddRowsPhase::Finished => false,
    }
}

/// Turning to a document: it is looked up, or, where none is left, all is committed.
pub open spec fn turn_to_document(state: AddRowsView, document: nat) -> (AddRowsView, ActionView) {
    if document < state.documents.len() {
        (
            AddRowsView { document, embedding: 0, phase: AddRowsPhase::Finding, ..state },
            ActionView::Find(find_statement(state.table_name, state.documents[document as int])),
        )
    } else {
        (
            AddRowsView { document, embedding: 0, phase: AddRowsPhase::Committing, ..state },
            ActionView::Commit,
        )
    }
}

/// Turning to an embedding of the document stored under `rowid`: it is inserted, or,
/// where none is left, the next document has its turn.
pub open spec fn turn_to_embedding(state: AddRowsView, embedding: nat, rowid: i64) -> (
    AddRowsView,
    ActionView,
) {
    let embeddings = state.documents[state.document as int].embeddings;
    if embedding < embeddings.len() {
        (
            AddRowsView { embedding, phase: AddRowsPhase::Embedding(rowid), ..state },
            ActionView::InsertEmbedding(
                insert_embedding_statement(state.table_name, embeddings[embedding as int]),
            ),
        )
    } else {
        turn_to_document(state, state.document + 1)
    }
}

/// Storing the document that the state is at.
pub open spec fn turn_to_storing(state: AddRowsView) -> (AddRowsView, ActionView) {
    (
        AddRowsView { phase: AddRowsPhase::Storing, ..state },
        ActionView::InsertDocument(
            insert_document_statement(state.table_name, state.documents[state.document as int]),
        ),
    )
}

/// The first state of an insertion, and what is asked for first: nothing where there
/// is no document.
pub open spec fn add_rows_start(table_name: Seq<char>, documents: Seq<DocumentView>) -> (
    AddRowsView,
    ActionView,
) {
    if documents.len() == 0 {
        (
            AddRowsView {
                table_name,
                documents,
                document: 0,
                embedding: 0,
                phase: AddRowsPhase::Finished,
            },
            ActionView::Finish,
        )
    } else {
        (
            AddRowsView {
                table_name,
                documents,
                document: 0,
                embedding: 0,
                phase: AddRowsPhase::Opening,
            },
            ActionView::Begin,
        )
    }
}

/// The state after a reply, and what is asked for next. An embedding that comes back without
/// a rowid fails the insertion; so would a reply of another kind than [`awaits`] admits.
pub open spec fn add_rows_step(state: AddRowsView, event: StoreEvent) -> (
    AddRowsView,
    ActionView,
) {
    match (state.phase, event) {
        (AddRowsPhase::Opening, StoreEvent::Done) => turn_to_document(state, state.document),
        (AddRowsPhase::Finding, StoreEvent::Found(Some(_))) => (
            AddRowsView { phase: AddRowsPhase::DroppingEmbeddings, ..state },
            ActionView::Execute(
                drop_embeddings_statement(state.table_name, state.documents[state.document as int]),
            ),
        ),
        (AddRowsPhase::Finding, StoreEvent::Found(None)) => turn_to_storing(state),
        (AddRowsPhase::DroppingEmbeddings, StoreEvent::Done) => (
            AddRowsView { phase: AddRowsPhase::DroppingMap, ..state },
            ActionView::Execute(
                drop_map_statement(state.table_name, state.documents[state.document as int]),
            ),
        ),
        (AddRowsPhase::DroppingMap, StoreEvent::Done) => turn_to_storing(state),
        (AddRowsPhase::Storing, StoreEvent::Inserted(rowid)) => turn_to_embedding(state, 0, rowid),
        (AddRowsPhase::Embedding(rowid), StoreEvent::Returned(Some(embedding_rowid))) => (
            AddRowsView { phase: AddRowsPhase::Mapping(rowid), ..state },
            ActionView::Execute(map_statement(state.table_name, embedding_rowid, rowid)),
        ),
        (AddRowsPhase::Mapping(rowid), StoreEvent::Done) => turn_to_embedding(
            state,
            state.embedding + 1,
            rowid,
        ),
        (AddRowsPhase::Committing, StoreEvent::Done) => (
            AddRowsView { phase: AddRowsPhase::Finished, ..state },
            ActionView::Finish,
        ),
        _ => (
            AddRowsView { phase: AddRowsPhase::Finished, ..state },
            ActionView::Fail(StoreErrorView::NoEmbeddingRowid),
        ),
    }
}

/// The insertion of documents with their precomputed embeddings, replacing any
/// previous embeddings for documents that share the same `id`.
pub struct AddRows {
    table_name: &'static str,
    documents: Vec<DocumentRow>,
    document: usize,
    embedding: usize,
    phase: AddRowsPhase,
}

impl View for AddRows {
    type V = AddRowsView;

    closed spec fn view(&self) -> AddRowsView {
        AddRowsView {
            table_name: self.table_name@,
            documents: document_views(self.documents@),
            document: self.document as nat,
            embedding: self.embedding as nat,
            phase: self.phase,
        }
    }
}

/// The views of `documents`, in their order.
pub open spec fn document_views(documents: Seq<DocumentRow>) -> Seq<DocumentView> {
    documents.map_values(|d: DocumentRow| d@)
}

impl AddRows {
    /// Starts an insertion into the table of this name.
    pub fn start(table_name: &'static str, documents: Vec<DocumentRow>) -> (started: (
        Self,
        StoreAction,
    ))
        ensures
            (started.0@, started.1@) == add_rows_start(table_name@, document_views(documents@)),
            in_progress(started.0@),
    {
        if documents.len() == 0 {
            (
                AddRows {
                    table_name,
                    documents,
                    document: 0,
                    embedding: 0,
                    phase: AddRowsPhase::Finished,
                },
                StoreAction::Finish,
            )
        } else {
            (
                AddRows {
                    table_name,
                    documents,
                    document: 0,
                    embedding: 0,
                    phase: AddRowsPhase::Opening,
                },
                StoreAction::Begin,
            )
        }
    }

    /// Whether the event is a reply of the kind that the insertion waits for.
    pub fn accepts(&self, event: &StoreEvent) -> (accepted: bool)
        ensures
            accepted == awaits(self@.phase, *event),
    {
        match (self.phase, event) {
            (AddRowsPhase::Opening, StoreEvent::Done) => true,
            (AddRowsPhase::Finding, StoreEvent::Found(_)) => true,
            (AddRowsPhase::DroppingEmbeddings, StoreEvent::Done) => true,
            (AddRowsPhase::DroppingMap, StoreEvent::Done) => true,
            (AddRowsPhase::Storing, StoreEvent::Inserted(_)) => true,
            (AddRowsPhase::Embedding(_), StoreEvent::Returned(_)) => true,
            (AddRowsPhase::Mapping(_), StoreEvent::Done) => true,
            (AddRowsPhase::Committing, StoreEvent::Done) => true,
            _ => false,
        }
    }

    /// Takes the reply to the last action, and says what to do next.
    pub fn next(&mut self, event: StoreEvent) -> (action: StoreAction)
        requires
            in_progress(old(self)@),
            awaits(old(self)@.phase, event),
        ensures
            (final(self)@, action@) == add_rows_step(old(self)@, event),
            in_progress(final(self)@),
    {
        match (self.phase, event) {
            (AddRowsPhase::Opening, StoreEvent::Done) => self.visit_document(),
            (AddRowsPhase::Finding, StoreEvent::Found(Some(_))) => {
                self.phase = AddRowsPhase::DroppingEmbeddings;
                StoreAction::Execute(
                    drop_embeddings(self.table_name, &self.documents[self.document]),
                )
            },
            (AddRowsPhase::Finding, StoreEvent::Found(None)) => self.store_document(),
            (AddRowsPhase::DroppingEmbeddings, StoreEvent::Done) => {
                self.phase = AddRowsPhase::DroppingMap;
                StoreAction::Execute(drop_map(self.table_name, &self.documents[self.document]))
            },
            (AddRowsPhase::DroppingMap, StoreEvent::Done) => self.store_document(),
            (AddRowsPhase::Storing, StoreEvent::Inserted(rowid)) => {
                self.embedding = 0;
                self.visit_embedding(rowid)
            },
            (AddRowsPhase::Embedding(rowid), StoreEvent::Returned(Some(embedding_rowid))) => {
                self.phase = AddRowsPhase::Mapping(rowid);
                StoreAction::Execute(map_embedding(self.table_name, embedding_rowid, rowid))
            },
            (AddRowsPhase::Mapping(rowid), StoreEvent::Done) => {
                assert(self.embedding < self.documents[self.document as int].embeddings.len());
                self.embedding = self.embedding + 1;
                self.visit_embedding(rowid)
            },
            (AddRowsPhase::Committing, StoreEvent::Done) => {
                self.phase = AddRowsPhase::Finished;
                StoreAction::Finish
            },
            _ => {
                self.phase = AddRowsPhase::Finished;
                StoreAction::Fail(StoreError::NoEmbeddingRowid)
            },
        }
    }

    /// Turns to the document that the insertion is at.
    fn visit_document(&mut self) -> (action: StoreAction)
        requires
            old(self)@.document <= old(self)@.documents.len(),
        ensures
            (final(self)@, action@) == turn_to_document(old(self)@, old(self)@.document),
            in_progress(final(self)@),
    {
        self.embedding = 0;
        if self.document < self.documents.len() {
            self.phase = AddRowsPhase::Finding;
            StoreAction::Find(find(self.table_name, &self.documents[self.document]))
        } else {
            self.phase = AddRowsPhase::Committing;
            StoreAction::Commit
        }
    }

    /// Stores the document that the insertion is at.
    fn store_document(&mut self) -> (action: StoreAction)
        requires
            old(self)@.document < old(self)@.documents.len(),
        ensures
            (final(self)@, action@) == turn_to_storing(old(self)@),
            in_progress(final(self)@),
    {
        self.phase = AddRowsPhase::Storing;
        StoreAction::InsertDocument(
            insert_document(self.table_name, &self.documents[self.document]),
        )
    }

    /// Turns to the embedding that the insertion is at.
    fn visit_embedding(&mut self, rowid: i64) -> (action: StoreAction)
        requires
            old(self)@.document < old(self)@.documents.len(),
        ensures
            (final(self)@, action@) == turn_to_embedding(
                old(self)@,
                old(self)@.embedding,
                rowid,
            ),
            in_progress(final(self)@),
    {
        if self.embedding < self.documents[self.document].embeddings.len() {
            self.phase = AddRowsPhase::Embedding(rowid);
            StoreAction::InsertEmbedding(
                insert_embedding(
                    self.table_name,
                    &self.documents[self.document].embeddings[self.embedding],
                ),
            )
        } else {
            assert(self.document < self.documents.len());
            self.document = self.document + 1;
            self.visit_document()
        }
    }
}

} // verus!
