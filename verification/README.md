# rig-libsql

A [Rig](https://github.com/0xPlaygrounds/rig) vector store backed by
[libSQL](https://github.com/tursodatabase/libsql), with its logic verified by
[Verus](https://github.com/verus-lang/verus). It uses libSQL's built-in native vector support
(`FLOAT32(N)` columns, `libsql_vector_idx` indexes, and the `vector_top_k` /
`vector_distance_*` SQL functions), so there is no extension to load.

## Layout

- `src/` is the verified library. It decides what to ask of the database and what its replies
  mean, and holds no connection:
  - `store`, `table`, `schema`: stores, document types, and the SQL of their tables;
  - `insert`: the statements that insert documents with their embeddings, in one transaction;
  - `search`, `query`, `candidates`: a search, its query, and how many candidates it takes from
    the vector index;
  - `filter`, `metric`: search filters and distance metrics, and the SQL they are rendered as;
  - `column`, `column_value`, `row`, `json`, `value`, `embedding`: values on their way into the
    database and back;
  - `error`, `text`: errors and their words, and operations on text;
  - `insert_laws`, `round_trip`, `conjunct`, with `placeholder` and `nesting`: what holds of
    insertions, of values that are stored and read back, and of the conditions of a search.
- `app/` owns the `libsql::Connection` and the embedding model, carries out what the library
  decides, and implements Rig's traits.
- `tests/` runs the library, on an in-memory libSQL database among others.

Doubles and single-precision floats are held in `src/` by their bit patterns.

What is taken from `serde_json`, `zerocopy` and `std` without proof stands in functions marked
`#[verifier::external_body]`, in `assume_specification`s, and in the names (`uninterp spec fn`)
of what they return.

## Use

Implement `LibsqlVectorStoreTable` to declare the document table. One of its columns must be
named `id`.

```rust
impl LibsqlVectorStoreTable for Document {
    fn name() -> &'static str {
        "documents"
    }

    fn schema() -> Vec<Column> {
        vec![
            Column::new("id", "TEXT PRIMARY KEY"),
            Column::new("text", "TEXT"),
        ]
    }

    fn id(&self) -> String {
        self.id.clone()
    }

    fn column_values(&self) -> Vec<(&'static str, Box<dyn ColumnValue>)> {
        vec![
            ("id", Box::new(self.id.clone())),
            ("text", Box::new(self.text.clone())),
        ]
    }
}
```

JSON metadata goes into columns declared as `JSON`, as `serde_json::Value`. It is written as
JSON text and parsed back when documents are returned.

Filters are conditions on the document table, applied after the candidates have been retrieved.
Keys are plain columns (`category`) or SQLite JSON expressions (`metadata->>'$.source'`).

Scores are always higher-is-better: cosine similarity is `1 - cosine_distance`, and the
euclidean score is the negative distance.
