//! Error kinds of a profiling run and the kinds of query it issues.

use vstd::prelude::*;

verus! {

/// Why a profiling run, or the analysis of one column, could not go on.
#[derive(Clone, Copy, Debug, PartialEq, Eq, Structural)]
pub enum ProfileError {
    /// The schema and table pair is not known to the database.
    TableNotFound,
    /// The catalog lacks the precision or scale that the column's type
    /// requires.
    MissingMetadata,
    /// A query failed, or its result did not have the shape that the query
    /// asks for.
    QueryError,
}

/// The queries of a profiling run.
#[derive(Clone, Copy, Debug, PartialEq, Eq, Structural)]
pub enum QueryKind {
    /// Number of rows of the table.
    RowCount,
    /// The table's columns, from the catalog.
    Catalog,
    /// Number of distinct values of one column.
    DistinctCount,
    /// Smallest and largest value of one column.
    MinMax,
    /// The most frequent values of one column.
    TopValues,
    /// The comment attached to one column.
    Comment,
}

impl ProfileError {
    /// A short description of the error kind.
    pub open spec fn text(self) -> Seq<char> {
        match self {
            ProfileError::TableNotFound => "table not found"@,
            ProfileError::MissingMetadata => "metadata unavailable"@,
            ProfileError::QueryError => "query failed"@,
        }
    }

    /// A short description of the error kind.
    pub fn describe(&self) -> (text: String)
        ensures
            text@ == self.text(),
    {
        match self {
            ProfileError::TableNotFound => "table not found".to_owned(),
            ProfileError::MissingMetadata => "metadata unavailable".to_owned(),
            ProfileError::QueryError => "query failed".to_owned(),
        }
    }
}

impl QueryKind {
    /// A short name of the query kind.
    pub open spec fn text(self) -> Seq<char> {
        match self {
            QueryKind::RowCount => "row count"@,
            QueryKind::Catalog => "catalog"@,
            QueryKind::DistinctCount => "distinct count"@,
            QueryKind::MinMax => "min/max"@,
            QueryKind::TopValues => "top values"@,
            QueryKind::Comment => "comment"@,
        }
    }

    /// A short name of the query kind.
    pub fn describe(&self) -> (text: String)
        ensures
            text@ == self.text(),
    {
        match self {
            QueryKind::RowCount => "row count".to_owned(),
            QueryKind::Catalog => "catalog".to_owned(),
            QueryKind::DistinctCount => "distinct count".to_owned(),
            QueryKind::MinMax => "min/max".to_owned(),
            QueryKind::TopValues => "top values".to_owned(),
            QueryKind::Comment => "comment".to_owned(),
        }
    }
}

} // verus!
