//! The errors of the store, each with the text that describes it.

use vstd::prelude::*;
use vstd::string::*;

use crate::text::{
    decimal, decimal_text, digits_value, is_decimal, law_signed_decimals_denote_their_integer,
};

verus! {

/// The document table has no column named `id`.
#[derive(Debug, PartialEq, Eq)]
pub struct LibsqlMissingIdColumn {
    pub table_name: String,
}

/// What a [`LibsqlMissingIdColumn`] says of a table of this name.
pub open spec fn missing_id_text(table_name: Seq<char>) -> Seq<char> {
    "libSQL vector store table `"@ + table_name + "` is missing an `id` column"@
}

impl LibsqlMissingIdColumn {
    /// The error in words.
    pub fn describe(&self) -> (text: String)
        ensures
            text@ == missing_id_text(self.table_name@),
    {
        let mut text = "libSQL vector store table `".to_owned();
        text.append(self.table_name.as_str());
        text.append("` is missing an `id` column");
        text
    }
}

/// A stored column value that cannot be converted.
#[derive(Debug, PartialEq, Eq)]
pub struct LibsqlColumnValueError {
    pub column_name: &'static str,
    pub column_type: &'static str,
    pub message: String,
    pub index: usize,
}

/// What a [`LibsqlColumnValueError`] stands for.
#[verifier::ext_equal]
pub struct ColumnErrorView {
    pub column_name: Seq<char>,
    pub column_type: Seq<char>,
    pub message: Seq<char>,
    pub index: nat,
}

impl View for LibsqlColumnValueError {
    type V = ColumnErrorView;

    open spec fn view(&self) -> ColumnErrorView {
        ColumnErrorView {
            column_name: self.column_name@,
            column_type: self.column_type@,
            message: self.message@,
            index: self.index as nat,
        }
    }
}

/// What a [`LibsqlColumnValueError`] says.
pub open spec fn column_error_text(error: ColumnErrorView) -> Seq<char> {
    "could not convert libSQL column `"@ + error.column_name + "` (declared `"@ + error.column_type
        + "`) at index "@ + decimal(error.index) + ": "@ + error.message
}

impl LibsqlColumnValueError {
    /// The error in words.
    pub fn describe(&self) -> (text: String)
        ensures
            text@ == column_error_text(self@),
    {
        let mut text = "could not convert libSQL column `".to_owned();
        text.append(self.column_name);
        text.append("` (declared `");
        text.append(self.column_type);
        text.append("`) at index ");
        text.append(decimal_text(self.index as u64).as_str());
        text.append(": ");
        text.append(self.message.as_str());
        text
    }
}

/// A filter that cannot be turned into SQL.
#[derive(Debug, PartialEq, Eq)]
pub enum FilterError {
    /// A key or a value that the filter cannot express.
    TypeError(String),
    /// A value that cannot be serialized.
    Serialization(String),
}

/// What a [`FilterError`] stands for.
#[verifier::ext_equal]
pub enum FilterErrorView {
    TypeError(Seq<char>),
    Serialization(Seq<char>),
}

impl View for FilterError {
    type V = FilterErrorView;

    open spec fn view(&self) -> FilterErrorView {
        match self {
            FilterError::TypeError(text) => FilterErrorView::TypeError(text@),
            FilterError::Serialization(text) => FilterErrorView::Serialization(text@),
        }
    }
}

/// Why an operation of the store failed, apart from what the database or the
/// embedding model reports itself.
#[derive(Debug)]
pub enum StoreError {
    MissingId(LibsqlMissingIdColumn),
    ColumnValue(LibsqlColumnValueError),
    Filter(FilterError),
    Json(serde_json::Error),
    /// The statement that inserts an embedding returned no row.
    NoEmbeddingRowid,
    /// The query that counts embeddings returned no row.
    NoEmbeddingCounts,
}

/// What a [`StoreError`] stands for.
#[verifier::ext_equal]
pub enum StoreErrorView {
    MissingId(Seq<char>),
    ColumnValue(ColumnErrorView),
    Filter(FilterErrorView),
    Json(serde_json::Error),
    NoEmbeddingRowid,
    NoEmbeddingCounts,
}

impl View for StoreError {
    type V = StoreErrorView;

    open spec fn view(&self) -> StoreErrorView {
        match self {
            StoreError::MissingId(error) => StoreErrorView::MissingId(error.table_name@),
            StoreError::ColumnValue(error) => StoreErrorView::ColumnValue(error@),
            StoreError::Filter(error) => StoreErrorView::Filter(error@),
            StoreError::Json(error) => StoreErrorView::Json(*error),
            StoreError::NoEmbeddingRowid => StoreErrorView::NoEmbeddingRowid,
            StoreError::NoEmbeddingCounts => StoreErrorView::NoEmbeddingCounts,
        }
    }
}

/// What a [`StoreError`] says in this library's own words; filter and JSON errors speak for
/// themselves.
pub open spec fn store_error_text(error: StoreErrorView) -> Option<Seq<char>> {
    match error {
        StoreErrorView::MissingId(table_name) => Some(missing_id_text(table_name)),
        StoreErrorView::ColumnValue(column_error) => Some(column_error_text(column_error)),
        StoreErrorView::NoEmbeddingRowid => Some("libSQL embedding insert returned no rowid"@),
        StoreErrorView::NoEmbeddingCounts => Some("libSQL embedding-count query returned no rows"@),
        StoreErrorView::Filter(_) => None,
        StoreErrorView::Json(_) => None,
    }
}

impl StoreError {
    /// The error in this library's own words, where it has any for it.
    pub fn describe(&self) -> (text: Option<String>)
        ensures
            match text {
                Some(words) => store_error_text(self@) == Some(words@),
                None => store_error_text(self@) is None,
            },
    {
        match self {
            StoreError::MissingId(error) => Some(error.describe()),
            StoreError::ColumnValue(error) => Some(error.describe()),
            StoreError::NoEmbeddingRowid => Some(
                "libSQL embedding insert returned no rowid".to_owned(),
            ),
            StoreError::NoEmbeddingCounts => Some(
                "libSQL embedding-count query returned no rows".to_owned(),
            ),
            StoreError::Filter(_) | StoreError::Json(_) => None,
        }
    }
}

/// What the errors say names the table, or the column with its type, its position and what was
/// wrong with it.
pub proof fn law_errors_name_their_subject(
    missing: LibsqlMissingIdColumn,
    column: LibsqlColumnValueError,
    missing_text: String,
    column_text: String,
)
    requires
        call_ensures(LibsqlMissingIdColumn::describe, (&missing,), missing_text),
        call_ensures(LibsqlColumnValueError::describe, (&column,), column_text),
    ensures
        missing_text@ == "libSQL vector store table `"@ + missing.table_name@
            + "` is missing an `id` column"@,
        exists|position: Seq<char>|
            #![trigger is_decimal(position)]
            is_decimal(position) && digits_value(position) == column.index && column_text@
                == "could not convert libSQL column `"@ + column.column_name@ + "` (declared `"@
                + column.column_type@ + "`) at index "@ + position + ": "@ + column.message@,
{
    law_signed_decimals_denote_their_integer(column.index as int);
    assert(is_decimal(decimal(column.index as nat)));
}

/// An error of the store says what the error that it holds says, and has words of its own just
/// where it holds none that speaks for itself.
pub proof fn law_store_errors_say_what_they_hold(
    error: StoreError,
    words: Option<String>,
    missing_text: String,
    column_text: String,
)
    requires
        call_ensures(StoreError::describe, (&error,), words),
        error matches StoreError::MissingId(held) ==> call_ensures(
            LibsqlMissingIdColumn::describe,
            (&held,),
            missing_text,
        ),
        error matches StoreError::ColumnValue(held) ==> call_ensures(
            LibsqlColumnValueError::describe,
            (&held,),
            column_text,
        ),
    ensures
        words is None <==> error is Filter || error is Json,
        error is MissingId ==> words->Some_0@ == missing_text@,
        error is ColumnValue ==> words->Some_0@ == column_text@,
        error is NoEmbeddingRowid ==> words->Some_0@ == "libSQL embedding insert returned no rowid"@,
        error is NoEmbeddingCounts ==> words->Some_0@
            == "libSQL embedding-count query returned no rows"@,
{
}

} // verus!
