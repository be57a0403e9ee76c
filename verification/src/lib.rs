//! Profiling of a single relational table.
//!
//! A profile gives the number of rows of the table and, for each column in
//! the table's column order, the type as the catalog declares it, the number
//! of distinct values, and either the smallest and largest value or the most
//! frequent values, depending on the type and on how many distinct values
//! there are. Every number is the result of an exact aggregate query.
//!
//! The library neither connects to a database nor runs a query. It decides
//! which query comes next and reads the answer; running the query is the
//! caller's part:
//!
//! - [`classify`] maps a column's declared type to the statistics that are
//!   computed for it;
//! - [`query`] holds the text of the queries, and [`identifier`] writes the
//!   names in them;
//! - [`rows`], [`catalog`] and [`stats`] read the answers;
//! - [`profiler`] is the run itself, one query at a time;
//! - [`report`] is the result and its rendering as text;
//! - [`formatter`] turns values of any length into short previews.

pub mod catalog;
pub mod classify;
pub mod error;
pub mod formatter;
pub mod identifier;
pub mod profiler;
pub mod query;
pub mod report;
pub mod rows;
pub mod stats;
pub mod text;
