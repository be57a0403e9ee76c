//! The statistics of one column: what is computed, in which case, and how
//! the result of each query is read.

use vstd::prelude::*;
use crate::classify::{AnalysisPolicy, PolicyView};
use crate::error::ProfileError;
use crate::query::TOP_VALUES;
use crate::rows::{Cell, CellView, lemma_rows_view};

verus! {

/// What was found out about the values of one column.
#[derive(Debug)]
pub struct ColumnStats {
    /// Number of distinct values that are not null; `None` while it has not
    /// been computed.
    pub distinct_count: Option<i64>,
    /// Smallest and largest value as text; `None` if they were not asked for.
    pub min_max: Option<(Option<String>, Option<String>)>,
    /// The most frequent values with their number of rows, most frequent
    /// first; empty if they were not asked for. Null is not counted as a
    /// value, so every value here is present.
    pub top_values: Vec<(Option<String>, i64)>,
}

/// A [`ColumnStats`] over sequences.
pub struct StatsView {
    pub distinct_count: Option<i64>,
    pub min_max: Option<(Option<Seq<char>>, Option<Seq<char>>)>,
    pub top_values: Seq<(Option<Seq<char>>, i64)>,
}

impl View for ColumnStats {
    type V = StatsView;

    open spec fn view(&self) -> StatsView {
        StatsView {
            distinct_count: self.distinct_count,
            min_max: self.min_max.deep_view(),
            top_values: self.top_values.deep_view(),
        }
    }
}

impl DeepView for ColumnStats {
    type V = StatsView;

    open spec fn deep_view(&self) -> StatsView {
        self@
    }
}

/// The values stand by count, largest first.
pub open spec fn by_count_descending(values: Seq<(Option<Seq<char>>, i64)>) -> bool {
    forall|i: int, j: int|
        0 <= i < j < values.len() ==> (#[trigger] values[i]).1 >= (#[trigger] values[j]).1
}

/// No value is null.
pub open spec fn without_null(values: Seq<(Option<Seq<char>>, i64)>) -> bool {
    forall|i: int| 0 <= i < values.len() ==> (#[trigger] values[i]).0 is Some
}

impl StatsView {
    /// Nothing computed yet.
    pub open spec fn empty() -> StatsView {
        StatsView { distinct_count: None, min_max: None, top_values: Seq::empty() }
    }

    /// What holds of the statistics of every column: the distinct count is
    /// not negative; a column without a distinct count, or with none but
    /// null values, has no minimum, no maximum and no frequent values; there
    /// are at most [`TOP_VALUES`] frequent values, none of them null, by count
    /// descending.
    pub open spec fn well_formed(self) -> bool {
        &&& self.distinct_count matches Some(n) ==> n >= 0
        &&& (self.distinct_count is None || self.distinct_count == Some(0i64)) ==> self.min_max is None
            && self.top_values.len() == 0
        &&& self.top_values.len() <= TOP_VALUES
        &&& without_null(self.top_values)
        &&& by_count_descending(self.top_values)
    }

    /// The statistics are those that `policy` asks for: a minimum and a
    /// maximum exactly where [`asks_min_max`] holds, frequent values only
    /// where [`asks_top_values`] holds.
    pub open spec fn follows(self, policy: PolicyView) -> bool {
        &&& self.distinct_count is Some
        &&& self.min_max is Some <==> asks_min_max(policy, self.distinct_count->0)
        &&& self.top_values.len() > 0 ==> asks_top_values(policy, self.distinct_count->0)
    }
}

/// Whether minimum and maximum are asked for: the column has values, the
/// policy allows it, and the frequent values will not already show them,
/// which is the case where there are more than [`TOP_VALUES`] distinct values
/// or the frequent values are not listed at all.
pub open spec fn asks_min_max(policy: PolicyView, distinct_count: i64) -> bool {
    distinct_count != 0 && policy.compute_min_max && (distinct_count > TOP_VALUES
        || !policy.compute_distinct)
}

/// Whether the most frequent values are asked for: the column has values
/// and the policy allows it.
pub open spec fn asks_top_values(policy: PolicyView, distinct_count: i64) -> bool {
    distinct_count != 0 && policy.compute_distinct
}

impl ColumnStats {
    /// The statistics of a column about which nothing has been computed.
    pub fn empty() -> (stats: ColumnStats)
        ensures
            stats@ == StatsView::empty(),
    {
        let stats = ColumnStats { distinct_count: None, min_max: None, top_values: Vec::new() };
        assert(stats.top_values.deep_view() =~= Seq::empty());
        stats
    }
}

/// Whether to ask for minimum and maximum, given the distinct count.
pub fn needs_min_max(policy: &AnalysisPolicy, distinct_count: i64) -> (asked: bool)
    ensures
        asked == asks_min_max(policy@, distinct_count),
{
    distinct_count != 0 && policy.compute_min_max && (distinct_count > TOP_VALUES as i64
        || !policy.compute_distinct)
}

/// Whether to ask for the most frequent values, given the distinct count.
pub fn needs_top_values(policy: &AnalysisPolicy, distinct_count: i64) -> (asked: bool)
    ensures
        asked == asks_top_values(policy@, distinct_count),
{
    distinct_count != 0 && policy.compute_distinct
}

/// The count in the first cell of a row; `None` if there is no such cell,
/// it is no 64-bit integer, or it is negative.
pub open spec fn count_in(row: Seq<CellView>) -> Option<i64> {
    if row.len() >= 1 && row[0].int8() is Some && row[0].int8()->0 >= 0 {
        row[0].int8()
    } else {
        None
    }
}

/// The number of rows of the table in the result of the row count query:
/// `TableNotFound` if there is no row, `QueryError` if the first row holds
/// no count.
pub open spec fn row_count_of(rows: Seq<Seq<CellView>>) -> Result<i64, ProfileError> {
    if rows.len() == 0 {
        Err(ProfileError::TableNotFound)
    } else if count_in(rows[0]) is Some {
        Ok(count_in(rows[0])->0)
    } else {
        Err(ProfileError::QueryError)
    }
}

/// The distinct count in the result of its query: `QueryError` if there is
/// no row or the first row holds no count.
pub open spec fn distinct_count_of(rows: Seq<Seq<CellView>>) -> Result<i64, ProfileError> {
    if rows.len() > 0 && count_in(rows[0]) is Some {
        Ok(count_in(rows[0])->0)
    } else {
        Err(ProfileError::QueryError)
    }
}

/// Minimum and maximum in the result of their query, each null or a text:
/// `QueryError` if there is no row or the first row does not hold the two.
pub open spec fn min_max_of(rows: Seq<Seq<CellView>>) -> Result<
    (Option<Seq<char>>, Option<Seq<char>>),
    ProfileError,
> {
    if rows.len() > 0 && rows[0].len() >= 2 && rows[0][0].optional_text() is Some
        && rows[0][1].optional_text() is Some {
        Ok((rows[0][0].optional_text()->0, rows[0][1].optional_text()->0))
    } else {
        Err(ProfileError::QueryError)
    }
}

/// The value and its count in one row of the frequent values; `None` if the
/// row does not hold a text or null followed by a 64-bit integer.
pub open spec fn top_value_of(row: Seq<CellView>) -> Option<(Option<Seq<char>>, i64)> {
    if row.len() >= 2 && row[0].optional_text() is Some && row[1].int8() is Some {
        Some((row[0].optional_text()->0, row[1].int8()->0))
    } else {
        None
    }
}

/// The values and counts that the rows hold, row by row.
pub open spec fn listed(rows: Seq<Seq<CellView>>) -> Seq<(Option<Seq<char>>, i64)> {
    Seq::new(rows.len(), |i: int| top_value_of(rows[i])->0)
}

/// The frequent values in the result of their query: `QueryError` if there
/// are more than [`TOP_VALUES`] rows, a row holds no value and count, a value
/// is null, which the query leaves out, or the counts are not descending.
pub open spec fn top_values_of(rows: Seq<Seq<CellView>>) -> Result<
    Seq<(Option<Seq<char>>, i64)>,
    ProfileError,
> {
    if rows.len() <= TOP_VALUES && (forall|i: int|
        0 <= i < rows.len() ==> top_value_of(#[trigger] rows[i]) is Some) && without_null(
        listed(rows),
    ) && by_count_descending(listed(rows)) {
        Ok(listed(rows))
    } else {
        Err(ProfileError::QueryError)
    }
}

/// The comment in the result of its query: none if there is no row or the
/// first cell is null; `QueryError` if the first row has no cell or one that
/// is neither null nor a text.
pub open spec fn comment_of(rows: Seq<Seq<CellView>>) -> Result<Option<Seq<char>>, ProfileError> {
    if rows.len() == 0 {
        Ok(None)
    } else if rows[0].len() >= 1 && rows[0][0].optional_text() is Some {
        Ok(rows[0][0].optional_text()->0)
    } else {
        Err(ProfileError::QueryError)
    }
}

fn decode_count(row: &Vec<Cell>) -> (found: Option<i64>)
    ensures
        found == count_in(row.deep_view()),
{
    if row.len() < 1 {
        return None;
    }
    assert(row.deep_view()[0] == row[0]@);
    match row[0].int8() {
        Some(n) => if n >= 0 {
            Some(n)
        } else {
            None
        },
        None => None,
    }
}

/// Reads the result of the row count query.
pub fn decode_row_count(rows: &Vec<Vec<Cell>>) -> (outcome: Result<i64, ProfileError>)
    ensures
        outcome == row_count_of(rows.deep_view()),
{
    proof {
        lemma_rows_view(rows);
    }
    if rows.len() == 0 {
        return Err(ProfileError::TableNotFound);
    }
    match decode_count(&rows[0]) {
        Some(n) => Ok(n),
        None => Err(ProfileError::QueryError),
    }
}

/// Reads the result of the distinct count query.
pub fn decode_distinct_count(rows: &Vec<Vec<Cell>>) -> (outcome: Result<i64, ProfileError>)
    ensures
        outcome == distinct_count_of(rows.deep_view()),
        outcome matches Ok(n) ==> n >= 0,
{
    proof {
        lemma_rows_view(rows);
    }
    if rows.len() == 0 {
        return Err(ProfileError::QueryError);
    }
    match decode_count(&rows[0]) {
        Some(n) => Ok(n),
        None => Err(ProfileError::QueryError),
    }
}

/// Reads the result of the query for minimum and maximum.
pub fn decode_min_max(rows: &Vec<Vec<Cell>>) -> (outcome: Result<
    (Option<String>, Option<String>),
    ProfileError,
>)
    ensures
        match outcome {
            Ok(pair) => Ok::<(Option<Seq<char>>, Option<Seq<char>>), ProfileError>(
                pair.deep_view(),
            ),
            Err(e) => Err::<(Option<Seq<char>>, Option<Seq<char>>), ProfileError>(e),
        } == min_max_of(rows.deep_view()),
{
    proof {
        lemma_rows_view(rows);
    }
    if rows.len() == 0 || rows[0].len() < 2 {
        return Err(ProfileError::QueryError);
    }
    match (rows[0][0].optional_text(), rows[0][1].optional_text()) {
        (Some(min), Some(max)) => Ok((min, max)),
        _ => Err(ProfileError::QueryError),
    }
}

fn decode_top_value(row: &Vec<Cell>) -> (found: Option<(Option<String>, i64)>)
    ensures
        found.deep_view() == top_value_of(row.deep_view()),
{
    if row.len() < 2 {
        return None;
    }
    assert(row.deep_view()[0] == row[0]@);
    assert(row.deep_view()[1] == row[1]@);
    match (row[0].optional_text(), row[1].int8()) {
        (Some(value), Some(count)) => Some((value, count)),
        _ => None,
    }
}

/// Reads the result of the query for the most frequent values.
pub fn decode_top_values(rows: &Vec<Vec<Cell>>) -> (outcome: Result<
    Vec<(Option<String>, i64)>,
    ProfileError,
>)
    ensures
        match outcome {
            Ok(values) => Ok::<Seq<(Option<Seq<char>>, i64)>, ProfileError>(values.deep_view()),
            Err(e) => Err::<Seq<(Option<Seq<char>>, i64)>, ProfileError>(e),
        } == top_values_of(rows.deep_view()),
        outcome matches Ok(values) ==> values.len() <= TOP_VALUES && without_null(
            values.deep_view(),
        ) && by_count_descending(values.deep_view()),
{
    let ghost view = rows.deep_view();
    proof {
        lemma_rows_view(rows);
    }
    if rows.len() > TOP_VALUES {
        return Err(ProfileError::QueryError);
    }
    let mut values: Vec<(Option<String>, i64)> = Vec::new();
    let mut i: usize = 0;
    while i < rows.len()
        invariant
            i <= rows.len(),
            view == rows.deep_view(),
            view.len() == rows.len(),
            values.len() == i,
            forall|k: int| 0 <= k < i ==> top_value_of(#[trigger] view[k]) is Some,
            forall|k: int|
                0 <= k < i ==> (#[trigger] values[k]).deep_view() == top_value_of(view[k])->0,
            by_count_descending(listed(view.take(i as int))),
            without_null(listed(view.take(i as int))),
        decreases rows.len() - i,
    {
        proof {
            lemma_rows_view(rows);
        }
        let ghost before = listed(view.take(i as int));
        let ghost after = listed(view.take(i + 1));
        assert(forall|k: int| 0 <= k < i ==> (#[trigger] after[k]) == before[k]);
        match decode_top_value(&rows[i]) {
            None => {
                assert(top_value_of(view[i as int]) is None);
                return Err(ProfileError::QueryError);
            },
            Some(entry) => {
                assert(entry.deep_view() == top_value_of(view[i as int])->0);
                let descending = i == 0 || values[i - 1].1 >= entry.1;
                let present = entry.0.is_some();
                values.push(entry);
                if !descending || !present {
                    proof {
                        let all = listed(view);
                        assert(all[i as int] == values[i as int].deep_view());
                        if !present {
                            assert(all[i as int].0 is None);
                            assert(!without_null(all));
                        } else {
                            assert(all[i - 1] == values[i - 1].deep_view());
                            assert(all[i - 1].1 < all[i as int].1);
                            assert(!by_count_descending(all));
                        }
                    }
                    return Err(ProfileError::QueryError);
                }
                proof {
                    assert(forall|k: int|
                        0 <= k <= i ==> (#[trigger] after[k]) == values[k].deep_view());
                    assert forall|a: int, b: int| 0 <= a < b < after.len() implies (#[trigger] after[a]).1
                        >= (#[trigger] after[b]).1 by {
                        if b == i {
                            if a < i - 1 {
                                assert(before[a].1 >= before[i - 1].1);
                            }
                        } else {
                            assert(before[a].1 >= before[b].1);
                        }
                    }
                    assert forall|a: int| 0 <= a < after.len() implies (#[trigger] after[a]).0 is Some by {
                        if a < i {
                            assert(before[a].0 is Some);
                        }
                    }
                }
            },
        }
        i += 1;
    }
    proof {
        assert(view.take(rows.len() as int) == view);
        assert(values.deep_view() =~= listed(view));
    }
    Ok(values)
}

/// Reads the result of the query for a column's comment.
pub fn decode_comment(rows: &Vec<Vec<Cell>>) -> (outcome: Result<Option<String>, ProfileError>)
    ensures
        match outcome {
            Ok(comment) => Ok::<Option<Seq<char>>, ProfileError>(comment.deep_view()),
            Err(e) => Err::<Option<Seq<char>>, ProfileError>(e),
        } == comment_of(rows.deep_view()),
{
    proof {
        lemma_rows_view(rows);
    }
    if rows.len() == 0 {
        return Ok(None);
    }
    if rows[0].len() < 1 {
        return Err(ProfileError::QueryError);
    }
    match rows[0][0].optional_text() {
        Some(comment) => Ok(comment),
        None => Err(ProfileError::QueryError),
    }
}

} // verus!
