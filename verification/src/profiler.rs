//! The profiling run as a machine that is driven from outside.
//!
//! A [`TableProfiler`] always waits for the answer to one query, which
//! [`TableProfiler::query`] gives. The caller runs that query and hands the
//! answer to [`TableProfiler::advance`], which decides what comes next:
//! another query, the finished report, or a failure.
//!
//! The run counts the rows of the table, reads its columns from the catalog
//! and then takes the columns in ascending ordinal position. For each column
//! it asks for the distinct count first. If that is zero the column is done.
//! Otherwise minimum and maximum follow where the policy and the count ask
//! for them, then the most frequent values where the policy asks for them,
//! then the column's comment. A column that the classifier cannot classify
//! is reported without statistics and the run goes on with the next one. A
//! query that fails, or an answer of the wrong shape, ends the run.

use vstd::prelude::*;
use crate::catalog::{ColumnDescriptor, ColumnView, columns_of, decode_columns, lemma_columns_of,
    well_formed_columns};
use crate::error::{ProfileError, QueryKind};
use crate::query::{Query, QueryView, TOP_VALUES, catalog_query, comment_query, distinct_query,
    min_max_query, row_count_query, top_values_query};
use crate::report::{ColumnReport, ColumnReportView, TableReport, TableReportView, policy_for};
use crate::rows::{OutcomeView, QueryOutcome};
use crate::stats::{ColumnStats, StatsView, asks_min_max, asks_top_values, comment_of,
    decode_comment, decode_distinct_count, decode_min_max, decode_row_count, decode_top_values,
    distinct_count_of, min_max_of, needs_min_max, needs_top_values, row_count_of, top_values_of};

verus! {

/// Why and where a run ended without a report.
#[derive(Debug)]
pub struct Failure {
    pub error: ProfileError,
    /// The query whose answer ended the run.
    pub kind: QueryKind,
    pub schema: String,
    pub table: String,
    /// The column that the query was about, if it was about one.
    pub column: Option<String>,
    /// The executor's message, empty where the executor reported none.
    pub detail: String,
}

/// A [`Failure`] with its texts as sequences of characters.
pub struct FailureView {
    pub error: ProfileError,
    pub kind: QueryKind,
    pub schema: Seq<char>,
    pub table: Seq<char>,
    pub column: Option<Seq<char>>,
    pub detail: Seq<char>,
}

impl View for Failure {
    type V = FailureView;

    open spec fn view(&self) -> FailureView {
        FailureView {
            error: self.error,
            kind: self.kind,
            schema: self.schema@,
            table: self.table@,
            column: self.column.deep_view(),
            detail: self.detail@,
        }
    }
}

impl FailureView {
    /// The failure in one line: the error, the query, the table, the column
    /// if the query was about one, and the executor's message if it gave one.
    pub open spec fn text(self) -> Seq<char> {
        self.error.text() + ": "@ + self.kind.text() + " on "@ + self.schema + "."@ + self.table
            + match self.column {
            Some(name) => ", column "@ + name,
            None => Seq::empty(),
        } + if self.detail.len() > 0 {
            ": "@ + self.detail
        } else {
            Seq::empty()
        }
    }
}

impl Failure {
    /// The failure in one line.
    pub fn describe(&self) -> (text: String)
        ensures
            text@ == self@.text(),
    {
        let mut text = self.error.describe();
        text.append(": ");
        text.append(self.kind.describe().as_str());
        text.append(" on ");
        text.append(self.schema.as_str());
        text.append(".");
        text.append(self.table.as_str());
        let ghost head = text@;
        assert(head =~= self.error.text() + ": "@ + self.kind.text() + " on "@ + self.schema@
            + "."@ + self.table@);
        match &self.column {
            Some(name) => {
                text.append(", column ");
                text.append(name.as_str());
                assert(text@ =~= head + (", column "@ + name@));
            },
            None => {
                assert(text@ =~= head + Seq::<char>::empty());
            },
        }
        let ghost middle = text@;
        if self.detail.as_str().unicode_len() > 0 {
            text.append(": ");
            text.append(self.detail.as_str());
            assert(text@ =~= middle + (": "@ + self.detail@));
        } else {
            assert(text@ =~= middle + Seq::<char>::empty());
        }
        text
    }
}

/// A run that waits for the answer to one query.
#[derive(Debug)]
pub struct TableProfiler {
    schema: String,
    table: String,
    step: QueryKind,
    row_count: i64,
    done: Vec<ColumnReport>,
    current: Option<ColumnReport>,
    pending: Vec<ColumnDescriptor>,
}

/// The state of a run.
pub struct ProfilerView {
    pub schema: Seq<char>,
    pub table: Seq<char>,
    /// The query whose answer is awaited.
    pub step: QueryKind,
    pub row_count: i64,
    /// The columns that are finished, in their order.
    pub done: Seq<ColumnReportView>,
    /// The column that the awaited query is about, with what is known of it
    /// so far.
    pub current: Option<ColumnReportView>,
    /// The columns that have not been started, in their order.
    pub pending: Seq<ColumnView>,
}

/// What a run turns into when it is given an answer.
#[derive(Debug)]
pub enum Progress {
    /// The run waits for the answer to its next query.
    Next(TableProfiler),
    /// The run is over; the report is complete.
    Done(TableReport),
    /// The run is over without a report.
    Failed(Failure),
}

/// A [`Progress`] over views.
pub enum ProgressView {
    Next(ProfilerView),
    Done(TableReportView),
    Failed(FailureView),
}

/// The descriptors of the given entries, in their order.
pub open spec fn descriptors_of(entries: Seq<ColumnReportView>) -> Seq<ColumnView> {
    Seq::new(entries.len(), |i: int| entries[i].descriptor)
}

/// Every entry is well formed.
pub open spec fn entries_well_formed(entries: Seq<ColumnReportView>) -> bool {
    forall|i: int| 0 <= i < entries.len() ==> (#[trigger] entries[i]).well_formed()
}

/// What the entry of the current column must hold while `step` is awaited:
/// the statistics of the steps before it, as the policy asks for them, and
/// nothing of the steps after it.
pub open spec fn entry_fits_step(entry: ColumnReportView, step: QueryKind) -> bool {
    &&& entry.policy is Some
    &&& entry.policy == policy_for(entry.descriptor)
    &&& entry.comment is None
    &&& entry.stats.well_formed()
    &&& match step {
        QueryKind::DistinctCount => entry.stats == StatsView::empty(),
        QueryKind::MinMax => {
            &&& entry.stats.distinct_count is Some
            &&& asks_min_max(entry.policy->0, entry.stats.distinct_count->0)
            &&& entry.stats.min_max is None
            &&& entry.stats.top_values.len() == 0
        },
        QueryKind::TopValues => {
            &&& entry.stats.distinct_count is Some
            &&& asks_top_values(entry.policy->0, entry.stats.distinct_count->0)
            &&& entry.stats.min_max is Some <==> asks_min_max(
                entry.policy->0,
                entry.stats.distinct_count->0,
            )
            &&& entry.stats.top_values.len() == 0
        },
        QueryKind::Comment => {
            &&& entry.stats.follows(entry.policy->0)
            &&& entry.stats.distinct_count != Some(0i64)
        },
        _ => false,
    }
}

/// The step that follows `step` for a column whose entry is `entry`, or
/// `None` if the column is finished: after a distinct count of zero nothing
/// follows; otherwise minimum and maximum, frequent values and comment
/// follow in this order, the first two only where they are asked for.
pub open spec fn step_after(step: QueryKind, entry: ColumnReportView) -> Option<QueryKind> {
    let policy = entry.policy->0;
    let count = entry.stats.distinct_count->0;
    match step {
        QueryKind::DistinctCount => if count == 0 {
            None
        } else if asks_min_max(policy, count) {
            Some(QueryKind::MinMax)
        } else if asks_top_values(policy, count) {
            Some(QueryKind::TopValues)
        } else {
            Some(QueryKind::Comment)
        },
        QueryKind::MinMax => if asks_top_values(policy, count) {
            Some(QueryKind::TopValues)
        } else {
            Some(QueryKind::Comment)
        },
        QueryKind::TopValues => Some(QueryKind::Comment),
        _ => None,
    }
}

/// Where a run stands once the columns in `done` are finished and those in
/// `pending` are left: the leading pending columns that cannot be classified
/// are reported as they are; the run then waits for the distinct count of
/// the first column that can be classified, or is over if there is none.
pub open spec fn settled(
    schema: Seq<char>,
    table: Seq<char>,
    row_count: i64,
    done: Seq<ColumnReportView>,
    pending: Seq<ColumnView>,
) -> ProgressView
    decreases pending.len(),
{
    if pending.len() == 0 {
        ProgressView::Done(TableReportView { table_name: table, row_count, columns: done })
    } else {
        let entry = ColumnReportView::untouched(pending[0]);
        if entry.policy is None {
            settled(schema, table, row_count, done.push(entry), pending.drop_first())
        } else {
            ProgressView::Next(
                ProfilerView {
                    schema,
                    table,
                    step: QueryKind::DistinctCount,
                    row_count,
                    done,
                    current: Some(entry),
                    pending: pending.drop_first(),
                },
            )
        }
    }
}

impl ProfilerView {
    /// The state in which a run starts: it waits for the row count.
    pub open spec fn start(schema: Seq<char>, table: Seq<char>) -> ProfilerView {
        ProfilerView {
            schema,
            table,
            step: QueryKind::RowCount,
            row_count: 0,
            done: Seq::empty(),
            current: None,
            pending: Seq::empty(),
        }
    }

    /// All columns that the run knows, in their order.
    pub open spec fn columns(self) -> Seq<ColumnView> {
        descriptors_of(self.done) + match self.current {
            Some(entry) => seq![entry.descriptor],
            None => Seq::empty(),
        } + self.pending
    }

    /// What holds of every state that a run reaches.
    pub open spec fn well_formed(self) -> bool {
        &&& self.row_count >= 0
        &&& well_formed_columns(self.columns())
        &&& entries_well_formed(self.done)
        &&& match self.step {
            QueryKind::RowCount | QueryKind::Catalog => self.current is None && self.done.len() == 0
                && self.pending.len() == 0,
            _ => self.current is Some && entry_fits_step(self.current->0, self.step),
        }
    }

    /// The query whose answer the run waits for.
    pub open spec fn query(self) -> QueryView {
        match self.step {
            QueryKind::RowCount => row_count_query(self.schema, self.table),
            QueryKind::Catalog => catalog_query(self.schema, self.table),
            QueryKind::DistinctCount => distinct_query(
                self.schema,
                self.table,
                self.current->0.descriptor.name,
            ),
            QueryKind::MinMax => min_max_query(
                self.schema,
                self.table,
                self.current->0.descriptor.name,
            ),
            QueryKind::TopValues => top_values_query(
                self.schema,
                self.table,
                self.current->0.descriptor.name,
            ),
            QueryKind::Comment => comment_query(
                self.schema,
                self.table,
                self.current->0.descriptor.ordinal_position,
            ),
        }
    }

    /// The failure of the awaited query with the given error.
    pub open spec fn failure(self, error: ProfileError, detail: Seq<char>) -> FailureView {
        FailureView {
            error,
            kind: self.step,
            schema: self.schema,
            table: self.table,
            column: match self.current {
                Some(entry) => Some(entry.descriptor.name),
                None => None,
            },
            detail,
        }
    }

    /// Where the run stands after its current column's entry became `entry`
    /// by the answer to the awaited query.
    pub open spec fn proceed(self, entry: ColumnReportView) -> ProgressView {
        match step_after(self.step, entry) {
            Some(step) => ProgressView::Next(ProfilerView { step, current: Some(entry), ..self }),
            None => settled(
                self.schema,
                self.table,
                self.row_count,
                self.done.push(entry),
                self.pending,
            ),
        }
    }

    /// Where the run stands after the answer `outcome` to the awaited query.
    pub open spec fn advance(self, outcome: OutcomeView) -> ProgressView {
        match outcome {
            OutcomeView::Failed(detail) => ProgressView::Failed(
                self.failure(ProfileError::QueryError, detail),
            ),
            OutcomeView::Rows(rows) => match self.step {
                QueryKind::RowCount => match row_count_of(rows) {
                    Ok(n) => ProgressView::Next(
                        ProfilerView { step: QueryKind::Catalog, row_count: n, ..self },
                    ),
                    Err(e) => ProgressView::Failed(self.failure(e, Seq::empty())),
                },
                QueryKind::Catalog => match columns_of(rows) {
                    Ok(columns) => settled(
                        self.schema,
                        self.table,
                        self.row_count,
                        Seq::empty(),
                        columns,
                    ),
                    Err(e) => ProgressView::Failed(self.failure(e, Seq::empty())),
                },
                QueryKind::DistinctCount => match distinct_count_of(rows) {
                    Ok(n) => self.proceed(
                        ColumnReportView {
                            stats: StatsView {
                                distinct_count: Some(n),
                                ..self.current->0.stats
                            },
                            ..self.current->0
                        },
                    ),
                    Err(e) => ProgressView::Failed(self.failure(e, Seq::empty())),
                },
                QueryKind::MinMax => match min_max_of(rows) {
                    Ok(pair) => self.proceed(
                        ColumnReportView {
                            stats: StatsView { min_max: Some(pair), ..self.current->0.stats },
                            ..self.current->0
                        },
                    ),
                    Err(e) => ProgressView::Failed(self.failure(e, Seq::empty())),
                },
                QueryKind::TopValues => match top_values_of(rows) {
                    Ok(values) => self.proceed(
                        ColumnReportView {
                            stats: StatsView { top_values: values, ..self.current->0.stats },
                            ..self.current->0
                        },
                    ),
                    Err(e) => ProgressView::Failed(self.failure(e, Seq::empty())),
                },
                QueryKind::Comment => match comment_of(rows) {
                    Ok(comment) => self.proceed(ColumnReportView { comment, ..self.current->0 }),
                    Err(e) => ProgressView::Failed(self.failure(e, Seq::empty())),
                },
            },
        }
    }
}

impl View for TableProfiler {
    type V = ProfilerView;

    closed spec fn view(&self) -> ProfilerView {
        ProfilerView {
            schema: self.schema@,
            table: self.table@,
            step: self.step,
            row_count: self.row_count,
            done: self.done.deep_view(),
            current: self.current.deep_view(),
            pending: self.pending.deep_view(),
        }
    }
}

impl View for Progress {
    type V = ProgressView;

    open spec fn view(&self) -> ProgressView {
        match self {
            Progress::Next(run) => ProgressView::Next(run@),
            Progress::Done(report) => ProgressView::Done(report@),
            Progress::Failed(failure) => ProgressView::Failed(failure@),
        }
    }
}

/// What the entry of the current column holds once `step` has been
/// answered: the statistics up to and including that step.
pub open spec fn entry_past_step(entry: ColumnReportView, step: QueryKind) -> bool {
    &&& entry.policy is Some
    &&& entry.policy == policy_for(entry.descriptor)
    &&& entry.stats.well_formed()
    &&& entry.stats.distinct_count is Some
    &&& match step {
        QueryKind::DistinctCount => entry.stats.min_max is None && entry.stats.top_values.len()
            == 0 && entry.comment is None,
        QueryKind::MinMax => {
            &&& asks_min_max(entry.policy->0, entry.stats.distinct_count->0)
            &&& entry.stats.min_max is Some
            &&& entry.stats.top_values.len() == 0
            &&& entry.comment is None
        },
        QueryKind::TopValues => {
            &&& asks_top_values(entry.policy->0, entry.stats.distinct_count->0)
            &&& entry.stats.min_max is Some <==> asks_min_max(
                entry.policy->0,
                entry.stats.distinct_count->0,
            )
            &&& entry.comment is None
        },
        QueryKind::Comment => {
            &&& entry.stats.follows(entry.policy->0)
            &&& entry.stats.distinct_count != Some(0i64)
        },
        _ => false,
    }
}

/// Settling keeps the columns and their order, and what it reaches is well
/// formed.
pub proof fn lemma_settled(
    schema: Seq<char>,
    table: Seq<char>,
    row_count: i64,
    done: Seq<ColumnReportView>,
    pending: Seq<ColumnView>,
)
    requires
        row_count >= 0,
        done.len() + pending.len() > 0,
        entries_well_formed(done),
        well_formed_columns(descriptors_of(done) + pending),
    ensures
        match settled(schema, table, row_count, done, pending) {
            ProgressView::Next(run) => {
                &&& run.well_formed()
                &&& run.columns() == descriptors_of(done) + pending
                &&& run.schema == schema && run.table == table && run.row_count == row_count
            },
            ProgressView::Done(report) => {
                &&& report.well_formed()
                &&& report.descriptors() == descriptors_of(done) + pending
                &&& report.table_name == table && report.row_count == row_count
            },
            ProgressView::Failed(_) => false,
        },
    decreases pending.len(),
{
    let all = descriptors_of(done) + pending;
    if pending.len() == 0 {
        assert(descriptors_of(done) =~= all);
        let report = TableReportView { table_name: table, row_count, columns: done };
        assert(report.descriptors() =~= descriptors_of(done));
    } else {
        let entry = ColumnReportView::untouched(pending[0]);
        if entry.policy is None {
            assert(descriptors_of(done.push(entry)) + pending.drop_first() =~= all);
            assert(entry.well_formed());
            lemma_settled(schema, table, row_count, done.push(entry), pending.drop_first());
        } else {
            let run = ProfilerView {
                schema,
                table,
                step: QueryKind::DistinctCount,
                row_count,
                done,
                current: Some(entry),
                pending: pending.drop_first(),
            };
            assert(run.columns() =~= all);
        }
    }
}

/// Going on after an answered step keeps the columns and their order, and
/// what it reaches is well formed.
pub proof fn lemma_proceed(run: ProfilerView, entry: ColumnReportView)
    requires
        run.row_count >= 0,
        entries_well_formed(run.done),
        well_formed_columns(descriptors_of(run.done) + seq![entry.descriptor] + run.pending),
        entry_past_step(entry, run.step),
    ensures
        match run.proceed(entry) {
            ProgressView::Next(next) => {
                &&& next.well_formed()
                &&& next.columns() == descriptors_of(run.done) + seq![entry.descriptor]
                    + run.pending
                &&& next.schema == run.schema && next.table == run.table && next.row_count
                    == run.row_count
            },
            ProgressView::Done(report) => {
                &&& report.well_formed()
                &&& report.descriptors() == descriptors_of(run.done) + seq![entry.descriptor]
                    + run.pending
                &&& report.table_name == run.table && report.row_count == run.row_count
            },
            ProgressView::Failed(_) => false,
        },
{
    let all = descriptors_of(run.done) + seq![entry.descriptor] + run.pending;
    match step_after(run.step, entry) {
        Some(step) => {
            let next = ProfilerView { step, current: Some(entry), ..run };
            assert(next.columns() =~= all);
        },
        None => {
            assert(entry.well_formed());
            assert(descriptors_of(run.done.push(entry)) + run.pending =~= all);
            lemma_settled(run.schema, run.table, run.row_count, run.done.push(entry), run.pending);
        },
    }
}

/// Whatever answer a well-formed run is given, what it turns into is well
/// formed: a run that waits for its next query, or a report in which the
/// columns stand in ascending ordinal position and the statistics of every
/// column are those that its policy asks for. Once the columns are known
/// they stay the same, in the same order, to the end of the run. A failure
/// names the query that was awaited.
pub proof fn law_advance_keeps_well_formed(run: ProfilerView, outcome: OutcomeView)
    requires
        run.well_formed(),
    ensures
        match run.advance(outcome) {
            ProgressView::Next(next) => {
                &&& next.well_formed()
                &&& next.schema == run.schema && next.table == run.table
                &&& run.step != QueryKind::RowCount ==> next.row_count == run.row_count
                &&& run.step == QueryKind::RowCount ==> next.step == QueryKind::Catalog
                &&& run.step == QueryKind::Catalog ==> Ok::<Seq<ColumnView>, ProfileError>(
                    next.columns(),
                ) == columns_of(outcome->Rows_0)
                &&& run.current is Some ==> next.columns() == run.columns()
            },
            ProgressView::Done(report) => {
                &&& report.well_formed()
                &&& report.table_name == run.table
                &&& report.row_count == run.row_count
                &&& run.step == QueryKind::Catalog ==> Ok::<Seq<ColumnView>, ProfileError>(
                    report.descriptors(),
                ) == columns_of(outcome->Rows_0)
                &&& run.current is Some ==> report.descriptors() == run.columns()
            },
            ProgressView::Failed(failure) => failure.kind == run.step && failure.schema
                == run.schema && failure.table == run.table,
        },
{
    match outcome {
        OutcomeView::Failed(_) => {},
        OutcomeView::Rows(rows) => {
            match run.step {
                QueryKind::RowCount => {
                    if let Ok(n) = row_count_of(rows) {
                        let next = ProfilerView { step: QueryKind::Catalog, row_count: n, ..run };
                        assert(next.columns() =~= run.columns());
                    }
                },
                QueryKind::Catalog => {
                    if let Ok(columns) = columns_of(rows) {
                        lemma_columns_of(rows);
                        assert(descriptors_of(Seq::<ColumnReportView>::empty()) + columns
                            =~= columns);
                        lemma_settled(run.schema, run.table, run.row_count, Seq::empty(), columns);
                    }
                },
                _ => {
                    let old_entry = run.current->0;
                    assert(run.columns() =~= descriptors_of(run.done) + seq![old_entry.descriptor]
                        + run.pending);
                    match run.step {
                        QueryKind::DistinctCount => {
                            if let Ok(n) = distinct_count_of(rows) {
                                let entry = ColumnReportView {
                                    stats: StatsView { distinct_count: Some(n), ..old_entry.stats },
                                    ..old_entry
                                };
                                lemma_proceed(run, entry);
                            }
                        },
                        QueryKind::MinMax => {
                            if let Ok(pair) = min_max_of(rows) {
                                let entry = ColumnReportView {
                                    stats: StatsView { min_max: Some(pair), ..old_entry.stats },
                                    ..old_entry
                                };
                                lemma_proceed(run, entry);
                            }
                        },
                        QueryKind::TopValues => {
                            if let Ok(values) = top_values_of(rows) {
                                let entry = ColumnReportView {
                                    stats: StatsView { top_values: values, ..old_entry.stats },
                                    ..old_entry
                                };
                                lemma_proceed(run, entry);
                            }
                        },
                        _ => {
                            if let Ok(comment) = comment_of(rows) {
                                let entry = ColumnReportView { comment, ..old_entry };
                                lemma_proceed(run, entry);
                            }
                        },
                    }
                },
            }
        },
    }
}

/// Where a run stands after it was given `answers` one after the other; the
/// answers that come after its end are not looked at.
pub open spec fn run_through(start: ProfilerView, answers: Seq<OutcomeView>) -> ProgressView
    decreases answers.len(),
{
    if answers.len() == 0 {
        ProgressView::Next(start)
    } else {
        match run_through(start, answers.drop_last()) {
            ProgressView::Next(run) => run.advance(answers.last()),
            over => over,
        }
    }
}

/// Whatever the executor answers, and for however long, a run from its start
/// is in a well-formed state, and if it ends with a report, that report is
/// well formed.
pub proof fn law_every_run_is_well_formed(
    schema: Seq<char>,
    table: Seq<char>,
    answers: Seq<OutcomeView>,
)
    ensures
        match run_through(ProfilerView::start(schema, table), answers) {
            ProgressView::Next(run) => run.well_formed() && run.schema == schema && run.table
                == table,
            ProgressView::Done(report) => report.well_formed() && report.table_name == table,
            ProgressView::Failed(failure) => failure.schema == schema && failure.table == table,
        },
    decreases answers.len(),
{
    let start = ProfilerView::start(schema, table);
    if answers.len() == 0 {
        assert(start.columns() =~= Seq::empty());
    } else {
        law_every_run_is_well_formed(schema, table, answers.drop_last());
        if let ProgressView::Next(run) = run_through(start, answers.drop_last()) {
            law_advance_keeps_well_formed(run, answers.last());
        }
    }
}

/// In a well-formed report a column without values other than null has no
/// minimum, no maximum and no frequent values.
pub proof fn law_all_null_column_has_no_statistics(report: TableReportView, i: int)
    requires
        report.well_formed(),
        0 <= i < report.columns.len(),
        report.columns[i].stats.distinct_count == Some(0i64),
    ensures
        report.columns[i].stats.min_max is None,
        report.columns[i].stats.top_values.len() == 0,
{
}

/// In a well-formed report no column has more than [`TOP_VALUES`] frequent
/// values, none of them is null, and they stand by count, largest first.
pub proof fn law_frequent_values_are_ordered(report: TableReportView, i: int, a: int, b: int)
    requires
        report.well_formed(),
        0 <= i < report.columns.len(),
        0 <= a <= b < report.columns[i].stats.top_values.len(),
    ensures
        report.columns[i].stats.top_values.len() <= TOP_VALUES,
        report.columns[i].stats.top_values[a].0 is Some,
        report.columns[i].stats.top_values[a].1 >= report.columns[i].stats.top_values[b].1,
{
}

/// In a well-formed report the columns stand in strictly ascending ordinal
/// position, so none occurs twice.
pub proof fn law_report_is_in_ordinal_order(report: TableReportView, a: int, b: int)
    requires
        report.well_formed(),
        0 <= a < b < report.columns.len(),
    ensures
        1 <= report.columns[a].descriptor.ordinal_position
            < report.columns[b].descriptor.ordinal_position,
        report.columns[a].descriptor.name != report.columns[b].descriptor.name,
{
    let all = report.descriptors();
    assert(all[a] == report.columns[a].descriptor);
    assert(all[b] == report.columns[b].descriptor);
}

fn fail(
    error: ProfileError,
    kind: QueryKind,
    schema: String,
    table: String,
    current: Option<ColumnReport>,
    detail: String,
) -> (failure: Failure)
    ensures
        failure@ == (FailureView {
            error,
            kind,
            schema: schema@,
            table: table@,
            column: match current {
                Some(entry) => Some(entry.descriptor.name@),
                None => None,
            },
            detail: detail@,
        }),
{
    let column = match current {
        Some(entry) => Some(entry.descriptor.name),
        None => None,
    };
    Failure { error, kind, schema, table, column, detail }
}

fn settle(
    schema: String,
    table: String,
    row_count: i64,
    done: Vec<ColumnReport>,
    pending: Vec<ColumnDescriptor>,
) -> (progress: Progress)
    requires
        row_count >= 0,
        done.len() + pending.len() > 0,
        entries_well_formed(done.deep_view()),
        well_formed_columns(descriptors_of(done.deep_view()) + pending.deep_view()),
    ensures
        progress@ == settled(schema@, table@, row_count, done.deep_view(), pending.deep_view()),
    decreases pending.len(),
{
    proof {
        lemma_settled(schema@, table@, row_count, done.deep_view(), pending.deep_view());
    }
    if pending.len() == 0 {
        return Progress::Done(TableReport { table_name: table, row_count, columns: done });
    }
    let mut done = done;
    let mut pending = pending;
    let ghost before_done = done.deep_view();
    let ghost before_pending = pending.deep_view();
    let column = pending.remove(0);
    assert(column@ == before_pending[0]);
    assert(pending.deep_view() =~= before_pending.drop_first());
    let entry = ColumnReport::untouched(column);
    if entry.policy.is_none() {
        done.push(entry);
        assert(done.deep_view() =~= before_done.push(entry@));
        assert(descriptors_of(done.deep_view()) + pending.deep_view() =~= descriptors_of(
            before_done,
        ) + before_pending);
        assert(entry@.well_formed());
        settle(schema, table, row_count, done, pending)
    } else {
        Progress::Next(
            TableProfiler {
                schema,
                table,
                step: QueryKind::DistinctCount,
                row_count,
                done,
                current: Some(entry),
                pending,
            },
        )
    }
}

fn following(step: QueryKind, entry: &ColumnReport) -> (next: Option<QueryKind>)
    requires
        entry.policy is Some,
        entry.stats.distinct_count is Some,
    ensures
        next == step_after(step, entry@),
{
    let policy = entry.policy.as_ref().unwrap();
    let count: i64 = entry.stats.distinct_count.unwrap();
    match step {
        QueryKind::DistinctCount => if count == 0 {
            None
        } else if needs_min_max(policy, count) {
            Some(QueryKind::MinMax)
        } else if needs_top_values(policy, count) {
            Some(QueryKind::TopValues)
        } else {
            Some(QueryKind::Comment)
        },
        QueryKind::MinMax => if needs_top_values(policy, count) {
            Some(QueryKind::TopValues)
        } else {
            Some(QueryKind::Comment)
        },
        QueryKind::TopValues => Some(QueryKind::Comment),
        _ => None,
    }
}

fn proceed(
    schema: String,
    table: String,
    step: QueryKind,
    row_count: i64,
    done: Vec<ColumnReport>,
    entry: ColumnReport,
    pending: Vec<ColumnDescriptor>,
) -> (progress: Progress)
    requires
        row_count >= 0,
        entries_well_formed(done.deep_view()),
        well_formed_columns(
            descriptors_of(done.deep_view()) + seq![entry@.descriptor] + pending.deep_view(),
        ),
        entry_past_step(entry@, step),
    ensures
        progress@ == (ProfilerView {
            schema: schema@,
            table: table@,
            step,
            row_count,
            done: done.deep_view(),
            current: None,
            pending: pending.deep_view(),
        }).proceed(entry@),
{
    let ghost run = ProfilerView {
        schema: schema@,
        table: table@,
        step,
        row_count,
        done: done.deep_view(),
        current: None,
        pending: pending.deep_view(),
    };
    proof {
        lemma_proceed(run, entry@);
    }
    match following(step, &entry) {
        Some(next) => Progress::Next(
            TableProfiler { schema, table, step: next, row_count, done, current: Some(entry), pending },
        ),
        None => {
            let mut done = done;
            let ghost before_done = done.deep_view();
            done.push(entry);
            assert(done.deep_view() =~= before_done.push(entry@));
            assert(descriptors_of(done.deep_view()) + pending.deep_view() =~= descriptors_of(
                before_done,
            ) + seq![entry@.descriptor] + pending.deep_view());
            assert(entry@.well_formed());
            settle(schema, table, row_count, done, pending)
        },
    }
}

impl TableProfiler {
    #[verifier::type_invariant]
    spec fn inv(self) -> bool {
        self@.well_formed()
    }

    /// A run on `schema.table`; it waits for the row count.
    pub fn new(schema: String, table: String) -> (run: TableProfiler)
        ensures
            run@ == ProfilerView::start(schema@, table@),
            run@.well_formed(),
    {
        let run = TableProfiler {
            schema,
            table,
            step: QueryKind::RowCount,
            row_count: 0,
            done: Vec::new(),
            current: None,
            pending: Vec::new(),
        };
        assert(run@.done =~= Seq::empty());
        assert(run@.pending =~= Seq::empty());
        assert(run@.columns() =~= Seq::empty());
        run
    }

    /// The query whose answer the run waits for.
    pub fn query(&self) -> (query: Query)
        ensures
            query@ == self@.query(),
    {
        proof {
            use_type_invariant(self);
        }
        let schema = self.schema.as_str();
        let table = self.table.as_str();
        match self.step {
            QueryKind::RowCount => Query::row_count(schema, table),
            QueryKind::Catalog => Query::catalog(schema, table),
            QueryKind::DistinctCount => {
                let entry = self.current.as_ref().unwrap();
                Query::distinct_count(schema, table, entry.descriptor.name.as_str())
            },
            QueryKind::MinMax => {
                let entry = self.current.as_ref().unwrap();
                Query::min_max(schema, table, entry.descriptor.name.as_str())
            },
            QueryKind::TopValues => {
                let entry = self.current.as_ref().unwrap();
                Query::top_values(schema, table, entry.descriptor.name.as_str())
            },
            QueryKind::Comment => {
                let entry = self.current.as_ref().unwrap();
                Query::comment(schema, table, entry.descriptor.ordinal_position)
            },
        }
    }

    /// Takes the answer to the awaited query and decides what comes next.
    ///
    /// A failed query ends the run with `QueryError`, and so does an answer
    /// that does not have the shape that the query asks for. An empty answer
    /// to the row count or the catalog query ends it with `TableNotFound`.
    /// The report, when the run is over, is well formed.
    pub fn advance(self, outcome: QueryOutcome) -> (progress: Progress)
        ensures
            progress@ == self@.advance(outcome@),
            progress matches Progress::Next(next) ==> next@.well_formed(),
            progress matches Progress::Done(report) ==> report@.well_formed(),
    {
        proof {
            use_type_invariant(&self);
            law_advance_keeps_well_formed(self@, outcome@);
        }
        let ghost run = self@;
        let TableProfiler { schema, table, step, row_count, done, current, pending } = self;
        let rows = match outcome {
            QueryOutcome::Failed(detail) => {
                return Progress::Failed(
                    fail(ProfileError::QueryError, step, schema, table, current, detail),
                );
            },
            QueryOutcome::Rows(rows) => rows,
        };
        match step {
            QueryKind::RowCount => match decode_row_count(&rows) {
                Ok(n) => Progress::Next(
                    TableProfiler {
                        schema,
                        table,
                        step: QueryKind::Catalog,
                        row_count: n,
                        done,
                        current,
                        pending,
                    },
                ),
                Err(e) => Progress::Failed(fail(e, step, schema, table, current, String::new())),
            },
            QueryKind::Catalog => match decode_columns(&rows) {
                Ok(columns) => {
                    assert(descriptors_of(done.deep_view()) + columns.deep_view()
                        =~= columns.deep_view());
                    assert(done.deep_view() =~= Seq::empty());
                    settle(schema, table, row_count, done, columns)
                },
                Err(e) => Progress::Failed(fail(e, step, schema, table, current, String::new())),
            },
            _ => {
                let entry = current.unwrap();
                assert(run.columns() =~= descriptors_of(done.deep_view()) + seq![
                    entry@.descriptor,
                ] + pending.deep_view());
                let ColumnReport { descriptor, policy, stats, comment } = entry;
                let ColumnStats { distinct_count, min_max, top_values } = stats;
                match step {
                    QueryKind::DistinctCount => match decode_distinct_count(&rows) {
                        Ok(n) => {
                            let entry = ColumnReport {
                                descriptor,
                                policy,
                                stats: ColumnStats { distinct_count: Some(n), min_max, top_values },
                                comment,
                            };
                            proceed(schema, table, step, row_count, done, entry, pending)
                        },
                        Err(e) => Progress::Failed(
                            Failure {
                                error: e,
                                kind: step,
                                schema,
                                table,
                                column: Some(descriptor.name),
                                detail: String::new(),
                            },
                        ),
                    },
                    QueryKind::MinMax => match decode_min_max(&rows) {
                        Ok(pair) => {
                            let entry = ColumnReport {
                                descriptor,
                                policy,
                                stats: ColumnStats { distinct_count, min_max: Some(pair), top_values },
                                comment,
                            };
                            proceed(schema, table, step, row_count, done, entry, pending)
                        },
                        Err(e) => Progress::Failed(
                            Failure {
                                error: e,
                                kind: step,
                                schema,
                                table,
                                column: Some(descriptor.name),
                                detail: String::new(),
                            },
                        ),
                    },
                    QueryKind::TopValues => match decode_top_values(&rows) {
                        Ok(values) => {
                            let entry = ColumnReport {
                                descriptor,
                                policy,
                                stats: ColumnStats { distinct_count, min_max, top_values: values },
                                comment,
                            };
                            proceed(schema, table, step, row_count, done, entry, pending)
                        },
                        Err(e) => Progress::Failed(
                            Failure {
                                error: e,
                                kind: step,
                                schema,
                                table,
                                column: Some(descriptor.name),
                                detail: String::new(),
                            },
                        ),
                    },
                    _ => match decode_comment(&rows) {
                        Ok(found) => {
                            let entry = ColumnReport {
                                descriptor,
                                policy,
                                stats: ColumnStats { distinct_count, min_max, top_values },
                                comment: found,
                            };
                            proceed(schema, table, step, row_count, done, entry, pending)
                        },
                        Err(e) => Progress::Failed(
                            Failure {
                                error: e,
                                kind: step,
                                schema,
                                table,
                                column: Some(descriptor.name),
                                detail: String::new(),
                            },
                        ),
                    },
                }
            },
        }
    }
}

} // verus!
