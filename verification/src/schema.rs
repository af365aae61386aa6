//! The tables of a vector store and the SQL that creates them.
//!
//! Beside the document table, which its user declares, a store has a table of
//! embeddings with a vector index, and a table that maps each embedding to its
//! document.

use vstd::prelude::*;
use vstd::string::*;

use crate::column::{column_views, has_id_column, id_position, Column, ColumnView};
use crate::error::LibsqlMissingIdColumn;
use crate::text::{decimal, decimal_text, digit, join, joined, views};

verus! {

/// The name of the table of embeddings.
pub open spec fn embeddings_table(table_name: Seq<char>) -> Seq<char> {
    table_name + "_embeddings"@
}

/// The name of the table that maps embeddings to documents.
pub open spec fn embedding_map_table(table_name: Seq<char>) -> Seq<char> {
    table_name + "_embedding_map"@
}

/// The name of the vector index.
pub open spec fn embeddings_index(table_name: Seq<char>) -> Seq<char> {
    table_name + "_embeddings_idx"@
}

/// The name of the table of embeddings.
pub fn embeddings_table_name(table_name: &str) -> (name: String)
    ensures
        name@ == embeddings_table(table_name@),
{
    let mut name = table_name.to_owned();
    name.append("_embeddings");
    name
}

/// The name of the table that maps embeddings to documents.
pub fn embedding_map_table_name(table_name: &str) -> (name: String)
    ensures
        name@ == embedding_map_table(table_name@),
{
    let mut name = table_name.to_owned();
    name.append("_embedding_map");
    name
}

/// The name of the vector index.
pub fn embeddings_index_name(table_name: &str) -> (name: String)
    ensures
        name@ == embeddings_index(table_name@),
{
    let mut name = table_name.to_owned();
    name.append("_embeddings_idx");
    name
}

/// The line that declares a column.
pub open spec fn column_line(column: ColumnView) -> Seq<char> {
    "\n    "@ + column.name + " "@ + column.col_type
}

/// The statement that creates the document table.
pub open spec fn create_documents_sql(table_name: Seq<char>, columns: Seq<ColumnView>) -> Seq<
    char,
> {
    "CREATE TABLE IF NOT EXISTS "@ + table_name + " ("@ + joined(
        columns.map_values(|c: ColumnView| column_line(c)),
        ","@,
    ) + "\n)"@
}

/// The statement that creates the document table's index on `id`.
pub open spec fn index_documents_sql(table_name: Seq<char>) -> Seq<char> {
    "CREATE INDEX IF NOT EXISTS "@ + "idx_"@ + table_name + "_id ON "@ + table_name + "(id)"@
}

/// The statement that creates the table of embeddings, for vectors of `dims` components.
pub open spec fn create_embeddings_sql(table_name: Seq<char>, dims: nat) -> Seq<char> {
    "CREATE TABLE IF NOT EXISTS "@ + embeddings_table(table_name)
        + " (\n                 embedding FLOAT32("@ + decimal(dims) + ")\n             )"@
}

/// The statement that creates the vector index.
pub open spec fn index_embeddings_sql(table_name: Seq<char>) -> Seq<char> {
    "CREATE INDEX IF NOT EXISTS "@ + embeddings_index(table_name) + "\n                 ON "@
        + embeddings_table(table_name) + " (libsql_vector_idx(embedding))"@
}

/// The statement that creates the map from embeddings to documents.
pub open spec fn create_map_sql(table_name: Seq<char>) -> Seq<char> {
    "CREATE TABLE IF NOT EXISTS "@ + embedding_map_table(table_name)
        + " (\n                 embedding_rowid INTEGER PRIMARY KEY,"@
        + "\n                 document_rowid INTEGER NOT NULL\n             )"@
}

/// The statement that creates the map's index on the document.
pub open spec fn index_map_sql(table_name: Seq<char>) -> Seq<char> {
    "CREATE INDEX IF NOT EXISTS "@ + "idx_"@ + table_name
        + "_embedding_map_document_rowid\n                 ON "@ + embedding_map_table(table_name)
        + "(document_rowid)"@
}

/// The statements that create the store's tables and indexes, in their order.
pub open spec fn schema_statements(
    table_name: Seq<char>,
    columns: Seq<ColumnView>,
    dims: nat,
) -> Seq<Seq<char>> {
    seq![
        create_documents_sql(table_name, columns),
        index_documents_sql(table_name),
        create_embeddings_sql(table_name, dims),
        index_embeddings_sql(table_name),
        create_map_sql(table_name),
        index_map_sql(table_name),
    ]
}

/// The statements that create the store's tables and indexes, as one text: each on a line of
/// its own, and each ended by a semicolon.
pub open spec fn schema_sql(
    table_name: Seq<char>,
    columns: Seq<ColumnView>,
    dims: nat,
) -> Seq<char> {
    joined(schema_statements(table_name, columns, dims), ";\n             "@) + ";"@
}

/// The statement that creates the document table.
fn create_documents(table_name: &str, columns: &Vec<Column>) -> (sql: String)
    ensures
        sql@ == create_documents_sql(table_name@, column_views(columns@)),
{
    let ghost lines = column_views(columns@).map_values(|c: ColumnView| column_line(c));
    let mut declared: Vec<String> = Vec::new();
    let mut i: usize = 0;
    while i < columns.len()
        invariant
            i <= columns.len(),
            lines == column_views(columns@).map_values(|c: ColumnView| column_line(c)),
            views(declared@) == lines.take(i as int),
        decreases columns.len() - i,
    {
        let ghost before = declared@;
        let mut line = "\n    ".to_owned();
        line.append(columns[i].name());
        line.append(" ");
        line.append(columns[i].col_type());
        declared.push(line);
        proof {
            assert(views(declared@) =~= views(before).push(line@));
            assert(lines.take(i + 1) =~= lines.take(i as int).push(lines[i as int]));
        }
        i += 1;
    }
    assert(lines.take(i as int) =~= lines);
    let mut sql = "CREATE TABLE IF NOT EXISTS ".to_owned();
    sql.append(table_name);
    sql.append(" (");
    sql.append(join(&declared, ",").as_str());
    sql.append("\n)");
    sql
}

fn index_documents(table_name: &str) -> (sql: String)
    ensures
        sql@ == index_documents_sql(table_name@),
{
    let mut sql = "CREATE INDEX IF NOT EXISTS ".to_owned();
    sql.append("idx_");
    sql.append(table_name);
    sql.append("_id ON ");
    sql.append(table_name);
    sql.append("(id)");
    sql
}

fn create_embeddings(table_name: &str, dims: usize) -> (sql: String)
    ensures
        sql@ == create_embeddings_sql(table_name@, dims as nat),
{
    let mut sql = "CREATE TABLE IF NOT EXISTS ".to_owned();
    sql.append(embeddings_table_name(table_name).as_str());
    sql.append(" (\n                 embedding FLOAT32(");
    sql.append(decimal_text(dims as u64).as_str());
    sql.append(")\n             )");
    sql
}

fn index_embeddings(table_name: &str) -> (sql: String)
    ensures
        sql@ == index_embeddings_sql(table_name@),
{
    let mut sql = "CREATE INDEX IF NOT EXISTS ".to_owned();
    sql.append(embeddings_index_name(table_name).as_str());
    sql.append("\n                 ON ");
    sql.append(embeddings_table_name(table_name).as_str());
    sql.append(" (libsql_vector_idx(embedding))");
    sql
}

fn create_map(table_name: &str) -> (sql: String)
    ensures
        sql@ == create_map_sql(table_name@),
{
    let mut sql = "CREATE TABLE IF NOT EXISTS ".to_owned();
    sql.append(embedding_map_table_name(table_name).as_str());
    sql.append(" (\n                 embedding_rowid INTEGER PRIMARY KEY,");
    sql.append("\n                 document_rowid INTEGER NOT NULL\n             )");
    sql
}

fn index_map(table_name: &str) -> (sql: String)
    ensures
        sql@ == index_map_sql(table_name@),
{
    let mut sql = "CREATE INDEX IF NOT EXISTS ".to_owned();
    sql.append("idx_");
    sql.append(table_name);
    sql.append("_embedding_map_document_rowid\n                 ON ");
    sql.append(embedding_map_table_name(table_name).as_str());
    sql.append("(document_rowid)");
    sql
}

/// The statements that create the store's tables and indexes. The document table must
/// have a column named `id`.
pub fn schema_batch(table_name: &str, columns: &Vec<Column>, dims: usize) -> (batch: Result<
    String,
    LibsqlMissingIdColumn,
>)
    ensures
        match batch {
            Ok(sql) => has_id_column(column_views(columns@)) && sql@ == schema_sql(
                table_name@,
                column_views(columns@),
                dims as nat,
            ),
            Err(error) => !has_id_column(column_views(columns@)) && error.table_name@
                == table_name@,
        },
{
    if id_position(columns).is_none() {
        return Err(LibsqlMissingIdColumn { table_name: table_name.to_owned() });
    }
    let statements = vec![
        create_documents(table_name, columns),
        index_documents(table_name),
        create_embeddings(table_name, dims),
        index_embeddings(table_name),
        create_map(table_name),
        index_map(table_name),
    ];
    assert(views(statements@) =~= schema_statements(
        table_name@,
        column_views(columns@),
        dims as nat,
    ));
    let mut sql = join(&statements, ";\n             ");
    sql.append(";");
    Ok(sql)
}

/// Whether the statement creates a table or an index, and only where there is none of its
/// name.
pub open spec fn creates_where_missing(statement: Seq<char>) -> bool {
    ||| "CREATE TABLE IF NOT EXISTS "@.is_prefix_of(statement)
    ||| "CREATE INDEX IF NOT EXISTS "@.is_prefix_of(statement)
}

broadcast proof fn lemma_prefix_of_longer(prefix: Seq<char>, text: Seq<char>, more: Seq<char>)
    requires
        prefix.is_prefix_of(text),
    ensures
        #[trigger] prefix.is_prefix_of(text + more),
{
    assert((text + more).subrange(0, prefix.len() as int) =~= text.subrange(
        0,
        prefix.len() as int,
    ));
}

proof fn lemma_prefix_of_itself(text: Seq<char>)
    ensures
        text.is_prefix_of(text),
{
    assert(text.subrange(0, text.len() as int) =~= text);
}

broadcast proof fn lemma_contains_either(a: Seq<char>, b: Seq<char>, c: char)
    ensures
        #[trigger] (a + b).contains(c) ==> a.contains(c) || b.contains(c),
{
    if (a + b).contains(c) {
        let i = choose|i: int| 0 <= i < (a + b).len() && (a + b)[i] == c;
        if i < a.len() {
            assert(a[i] == c);
        } else {
            assert(b[i - a.len()] == c);
        }
    }
}

proof fn lemma_decimal_has_no_semicolon(n: nat)
    ensures
        !decimal(n).contains(';'),
    decreases n,
{
    if n >= 10 {
        lemma_decimal_has_no_semicolon(n / 10);
        assert(decimal(n) =~= decimal(n / 10) + seq![digit((n % 10) as int)]);
        lemma_contains_either(decimal(n / 10), seq![digit((n % 10) as int)], ';');
    }
}

proof fn lemma_joined_has_no_semicolon(parts: Seq<Seq<char>>, separator: Seq<char>)
    requires
        !separator.contains(';'),
        forall|i: int| 0 <= i < parts.len() ==> !(#[trigger] parts[i]).contains(';'),
    ensures
        !joined(parts, separator).contains(';'),
    decreases parts.len(),
{
    if parts.len() > 1 {
        let fewer = parts.drop_last();
        assert forall|i: int| 0 <= i < fewer.len() implies !(#[trigger] fewer[i]).contains(';') by {
            assert(fewer[i] == parts[i]);
        }
        lemma_joined_has_no_semicolon(fewer, separator);
        lemma_contains_either(joined(fewer, separator), separator, ';');
        lemma_contains_either(joined(fewer, separator) + separator, parts.last(), ';');
    }
}

/// The words of the schema's statements hold no semicolon.
proof fn lemma_words_have_no_semicolon()
    ensures
        !"CREATE TABLE IF NOT EXISTS "@.contains(';'),
        !"CREATE INDEX IF NOT EXISTS "@.contains(';'),
        !" ("@.contains(';'),
        !"\n)"@.contains(';'),
        !","@.contains(';'),
        !"\n    "@.contains(';'),
        !" "@.contains(';'),
        !"idx_"@.contains(';'),
        !"_id ON "@.contains(';'),
        !"(id)"@.contains(';'),
        !"_embeddings"@.contains(';'),
        !"_embedding_map"@.contains(';'),
        !"_embeddings_idx"@.contains(';'),
        !" (\n                 embedding FLOAT32("@.contains(';'),
        !")\n             )"@.contains(';'),
        !"\n                 ON "@.contains(';'),
        !" (libsql_vector_idx(embedding))"@.contains(';'),
        !" (\n                 embedding_rowid INTEGER PRIMARY KEY,"@.contains(';'),
        !"\n                 document_rowid INTEGER NOT NULL\n             )"@.contains(';'),
        !"_embedding_map_document_rowid\n                 ON "@.contains(';'),
        !"(document_rowid)"@.contains(';'),
{
    reveal_strlit("CREATE TABLE IF NOT EXISTS ");
    reveal_strlit("CREATE INDEX IF NOT EXISTS ");
    reveal_strlit(" (");
    reveal_strlit("\n)");
    reveal_strlit(",");
    reveal_strlit("\n    ");
    reveal_strlit(" ");
    reveal_strlit("idx_");
    reveal_strlit("_id ON ");
    reveal_strlit("(id)");
    reveal_strlit("_embeddings");
    reveal_strlit("_embedding_map");
    reveal_strlit("_embeddings_idx");
    reveal_strlit(" (\n                 embedding FLOAT32(");
    reveal_strlit(")\n             )");
    reveal_strlit("\n                 ON ");
    reveal_strlit(" (libsql_vector_idx(embedding))");
    reveal_strlit(" (\n                 embedding_rowid INTEGER PRIMARY KEY,");
    reveal_strlit("\n                 document_rowid INTEGER NOT NULL\n             )");
    reveal_strlit("_embedding_map_document_rowid\n                 ON ");
    reveal_strlit("(document_rowid)");
}

/// Whether no name and no type of the table holds a semicolon.
pub open spec fn has_plain_names(table_name: Seq<char>, columns: Seq<ColumnView>) -> bool {
    &&& !table_name.contains(';')
    &&& forall|i: int|
        0 <= i < columns.len() ==> !(#[trigger] columns[i]).name.contains(';')
            && !columns[i].col_type.contains(';')
}

proof fn lemma_statements_have_no_semicolon(
    table_name: Seq<char>,
    columns: Seq<ColumnView>,
    dims: nat,
)
    requires
        has_plain_names(table_name, columns),
    ensures
        forall|i: int|
            0 <= i < schema_statements(table_name, columns, dims).len()
                ==> !(#[trigger] schema_statements(table_name, columns, dims)[i]).contains(';'),
{
    broadcast use lemma_contains_either;

    lemma_words_have_no_semicolon();
    lemma_decimal_has_no_semicolon(dims);
    let lines = columns.map_values(|c: ColumnView| column_line(c));
    assert forall|i: int| 0 <= i < lines.len() implies !(#[trigger] lines[i]).contains(';') by {
        assert(!columns[i].name.contains(';'));
    }
    lemma_joined_has_no_semicolon(lines, ","@);
    assert(!create_documents_sql(table_name, columns).contains(';'));
    assert(!index_documents_sql(table_name).contains(';'));
    assert(!create_embeddings_sql(table_name, dims).contains(';'));
    assert(!index_embeddings_sql(table_name).contains(';'));
    assert(!create_map_sql(table_name).contains(';'));
    assert(!index_map_sql(table_name).contains(';'));
}

/// Every statement of the schema creates a table or an index, and only where there is none of
/// its name: the batch is these statements, each ended by a semicolon, and no other semicolon
/// stands in it, where no name and no type holds one. So running it against an existing store
/// creates nothing anew and deletes nothing.
pub proof fn law_schema_creates_only_what_is_missing(
    table_name: Seq<char>,
    columns: Seq<ColumnView>,
    dims: nat,
)
    requires
        has_plain_names(table_name, columns),
    ensures
        ({
            let statements = schema_statements(table_name, columns, dims);
            &&& schema_sql(table_name, columns, dims) == joined(statements, ";\n             "@)
                + ";"@
            &&& forall|i: int|
                0 <= i < statements.len() ==> creates_where_missing(#[trigger] statements[i])
                    && !statements[i].contains(';')
        }),
{
    broadcast use lemma_prefix_of_longer;

    lemma_prefix_of_itself("CREATE TABLE IF NOT EXISTS "@);
    lemma_prefix_of_itself("CREATE INDEX IF NOT EXISTS "@);
    lemma_statements_have_no_semicolon(table_name, columns, dims);
    assert(creates_where_missing(create_documents_sql(table_name, columns)));
    assert(creates_where_missing(index_documents_sql(table_name)));
    assert(creates_where_missing(create_embeddings_sql(table_name, dims)));
    assert(creates_where_missing(index_embeddings_sql(table_name)));
    assert(creates_where_missing(create_map_sql(table_name)));
    assert(creates_where_missing(index_map_sql(table_name)));
}

} // verus!
