//! The report on a table: one entry per column, in the table's column order,
//! and its rendering as lines of text.

use vstd::prelude::*;
use crate::catalog::{ColumnDescriptor, ColumnView, well_formed_columns};
use crate::classify::{AnalysisPolicy, PolicyView, classified, classify};
use crate::formatter::{preview, preview_value};
use crate::stats::{ColumnStats, StatsView};
use crate::text::{decimal, padded, push_decimal, push_padded};

verus! {

/// Width of the field in which the count of a frequent value is shown.
pub const COUNT_WIDTH: usize = 8;

/// What the run found out about one column.
#[derive(Debug)]
pub struct ColumnReport {
    pub descriptor: ColumnDescriptor,
    /// `None` marks a column whose catalog entry lacks the metadata that its
    /// type requires; no statistic is computed for it.
    pub policy: Option<AnalysisPolicy>,
    pub stats: ColumnStats,
    /// The comment attached to the column, if it has one.
    pub comment: Option<String>,
}

/// A [`ColumnReport`] over sequences.
pub struct ColumnReportView {
    pub descriptor: ColumnView,
    pub policy: Option<PolicyView>,
    pub stats: StatsView,
    pub comment: Option<Seq<char>>,
}

impl View for ColumnReport {
    type V = ColumnReportView;

    open spec fn view(&self) -> ColumnReportView {
        ColumnReportView {
            descriptor: self.descriptor@,
            policy: self.policy.deep_view(),
            stats: self.stats@,
            comment: self.comment.deep_view(),
        }
    }
}

impl DeepView for ColumnReport {
    type V = ColumnReportView;

    open spec fn deep_view(&self) -> ColumnReportView {
        self@
    }
}

/// The report on one table.
#[derive(Debug)]
pub struct TableReport {
    pub table_name: String,
    pub row_count: i64,
    /// One entry per column, in ascending ordinal position.
    pub columns: Vec<ColumnReport>,
}

/// A [`TableReport`] over sequences.
pub struct TableReportView {
    pub table_name: Seq<char>,
    pub row_count: i64,
    pub columns: Seq<ColumnReportView>,
}

impl View for TableReport {
    type V = TableReportView;

    open spec fn view(&self) -> TableReportView {
        TableReportView {
            table_name: self.table_name@,
            row_count: self.row_count,
            columns: self.columns.deep_view(),
        }
    }
}

impl DeepView for TableReport {
    type V = TableReportView;

    open spec fn deep_view(&self) -> TableReportView {
        self@
    }
}

/// The policy that the classifier gives a column; `None` where it reports
/// missing metadata.
pub open spec fn policy_for(column: ColumnView) -> Option<PolicyView> {
    match classified(
        column.declared_type,
        column.max_char_length,
        column.numeric_precision,
        column.numeric_scale,
        column.underlying_type_name,
    ) {
        Ok(policy) => Some(policy),
        Err(_) => None,
    }
}

/// Classifies a column by its catalog entries; `None` where the classifier
/// reports missing metadata.
pub fn policy_of(column: &ColumnDescriptor) -> (policy: Option<AnalysisPolicy>)
    ensures
        policy.deep_view() == policy_for(column@),
{
    let underlying = match &column.underlying_type_name {
        Some(name) => Some(name.as_str()),
        None => None,
    };
    match classify(
        column.declared_type.as_str(),
        column.max_char_length,
        column.numeric_precision,
        column.numeric_scale,
        underlying,
    ) {
        Ok(policy) => Some(policy),
        Err(_) => None,
    }
}

impl ColumnReport {
    /// The entry of a column before any query about it was answered.
    pub fn untouched(column: ColumnDescriptor) -> (entry: ColumnReport)
        ensures
            entry@ == ColumnReportView::untouched(column@),
    {
        let policy = policy_of(&column);
        ColumnReport { descriptor: column, policy, stats: ColumnStats::empty(), comment: None }
    }
}

impl ColumnReportView {
    /// The entry of a column before any query about it was answered.
    pub open spec fn untouched(column: ColumnView) -> ColumnReportView {
        ColumnReportView {
            descriptor: column,
            policy: policy_for(column),
            stats: StatsView::empty(),
            comment: None,
        }
    }

    /// The policy is the classifier's for this column, the statistics are
    /// well formed and are those that the policy asks for. A column without
    /// a policy has no statistic and no comment.
    pub open spec fn well_formed(self) -> bool {
        &&& self.policy == policy_for(self.descriptor)
        &&& self.stats.well_formed()
        &&& match self.policy {
            None => self.stats == StatsView::empty() && self.comment is None,
            Some(policy) => self.stats.follows(policy) && (self.comment is Some
                ==> self.stats.distinct_count != Some(0i64)),
        }
    }
}

impl TableReportView {
    /// The descriptors of the columns, in the report's order.
    pub open spec fn descriptors(self) -> Seq<ColumnView> {
        Seq::new(self.columns.len(), |i: int| self.columns[i].descriptor)
    }

    /// The row count is not negative, there is at least one column, the
    /// columns stand in ascending ordinal position under distinct names, and
    /// every entry is well formed.
    pub open spec fn well_formed(self) -> bool {
        &&& self.row_count >= 0
        &&& self.columns.len() > 0
        &&& well_formed_columns(self.descriptors())
        &&& forall|i: int| 0 <= i < self.columns.len() ==> (#[trigger] self.columns[i]).well_formed()
    }

    /// Whether some column could not be classified for want of metadata.
    pub open spec fn lacks_metadata(self) -> bool {
        exists|i: int| 0 <= i < self.columns.len() && (#[trigger] self.columns[i]).policy is None
    }
}

/// The line for the distinct count.
pub open spec fn distinct_lines(distinct_count: Option<i64>) -> Seq<Seq<char>> {
    match distinct_count {
        None => Seq::empty(),
        Some(n) => if n == 0 {
            seq!["  All null"@]
        } else {
            seq!["  Distinct: "@ + decimal(n as int)]
        },
    }
}

/// The lines for minimum and maximum.
pub open spec fn min_max_lines(min_max: Option<(Option<Seq<char>>, Option<Seq<char>>)>) -> Seq<
    Seq<char>,
> {
    match min_max {
        None => Seq::empty(),
        Some(pair) => seq![
            "       Min: "@ + preview(pair.0),
            "       Max: "@ + preview(pair.1),
        ],
    }
}

/// The line for one frequent value: its count, right-aligned in
/// [`COUNT_WIDTH`] characters, and the preview of the value.
pub open spec fn top_line(entry: (Option<Seq<char>>, i64)) -> Seq<char> {
    "  "@ + padded(decimal(entry.1 as int), COUNT_WIDTH as nat) + "  "@ + preview(entry.0)
}

/// The lines for the frequent values, one each, in their order.
pub open spec fn top_lines(values: Seq<(Option<Seq<char>>, i64)>) -> Seq<Seq<char>> {
    Seq::new(values.len(), |i: int| top_line(values[i]))
}

/// The first line of a column's paragraph: its name and its type label, or
/// its declared type where it has no policy.
pub open spec fn heading(column: ColumnReportView) -> Seq<char> {
    column.descriptor.name + " "@ + match column.policy {
        Some(policy) => policy.rendered_type_label,
        None => column.descriptor.declared_type,
    }
}

/// The line for the comment.
pub open spec fn comment_lines(comment: Option<Seq<char>>) -> Seq<Seq<char>> {
    match comment {
        None => Seq::empty(),
        Some(text) => seq!["   Comment: "@ + text],
    }
}

/// The line that marks a column without a policy.
pub open spec fn marker_lines(policy: Option<PolicyView>) -> Seq<Seq<char>> {
    match policy {
        None => seq!["  Metadata unavailable"@],
        Some(_) => Seq::empty(),
    }
}

/// The paragraph of one column; it ends with an empty line.
pub open spec fn column_lines(column: ColumnReportView) -> Seq<Seq<char>> {
    seq![heading(column)] + comment_lines(column.comment) + marker_lines(column.policy)
        + distinct_lines(column.stats.distinct_count) + min_max_lines(column.stats.min_max)
        + top_lines(column.stats.top_values) + seq![Seq::<char>::empty()]
}

/// The paragraphs of the columns, in their order.
pub open spec fn paragraphs(columns: Seq<ColumnReportView>) -> Seq<Seq<char>>
    decreases columns.len(),
{
    if columns.len() == 0 {
        Seq::empty()
    } else {
        paragraphs(columns.drop_last()) + column_lines(columns.last())
    }
}

/// The report as lines of text: the table's name, its number of rows, then
/// one paragraph per column.
pub open spec fn rendered(report: TableReportView) -> Seq<Seq<char>> {
    seq!["Table:   "@ + report.table_name, "Records: "@ + decimal(report.row_count as int)]
        + paragraphs(report.columns)
}

fn push_line(lines: &mut Vec<String>, line: String)
    ensures
        final(lines).deep_view() == old(lines).deep_view().push(line@),
{
    lines.push(line);
    assert(lines.deep_view() =~= old(lines).deep_view().push(line@));
}

fn push_distinct_lines(lines: &mut Vec<String>, distinct_count: Option<i64>)
    ensures
        final(lines).deep_view() == old(lines).deep_view() + distinct_lines(distinct_count),
{
    match distinct_count {
        None => {
            assert(lines.deep_view() =~= old(lines).deep_view() + distinct_lines(distinct_count));
        },
        Some(n) => {
            let mut line = String::new();
            if n == 0 {
                line.append("  All null");
                assert(line@ =~= "  All null"@);
            } else {
                line.append("  Distinct: ");
                push_decimal(&mut line, n);
                assert(line@ =~= "  Distinct: "@ + decimal(n as int));
            }
            push_line(lines, line);
            assert(lines.deep_view() =~= old(lines).deep_view() + distinct_lines(distinct_count));
        },
    }
}

fn push_min_max_lines(lines: &mut Vec<String>, min_max: &Option<(Option<String>, Option<String>)>)
    ensures
        final(lines).deep_view() == old(lines).deep_view() + min_max_lines(min_max.deep_view()),
{
    match min_max {
        None => {
            assert(lines.deep_view() =~= old(lines).deep_view() + min_max_lines(
                min_max.deep_view(),
            ));
        },
        Some(pair) => {
            let mut low = String::new();
            low.append("       Min: ");
            let shown = preview_value(&pair.0);
            low.append(shown.as_str());
            assert(low@ =~= "       Min: "@ + preview(pair.0.deep_view()));
            let mut high = String::new();
            high.append("       Max: ");
            let shown = preview_value(&pair.1);
            high.append(shown.as_str());
            assert(high@ =~= "       Max: "@ + preview(pair.1.deep_view()));
            push_line(lines, low);
            push_line(lines, high);
            assert(lines.deep_view() =~= old(lines).deep_view() + min_max_lines(
                min_max.deep_view(),
            ));
        },
    }
}

fn render_top_line(entry: &(Option<String>, i64)) -> (line: String)
    ensures
        line@ == top_line(entry.deep_view()),
{
    let mut number = String::new();
    push_decimal(&mut number, entry.1);
    assert(number@ =~= decimal(entry.1 as int));
    let shown = preview_value(&entry.0);
    let mut line = String::new();
    line.append("  ");
    push_padded(&mut line, number.as_str(), COUNT_WIDTH);
    line.append("  ");
    line.append(shown.as_str());
    assert(line@ =~= top_line(entry.deep_view()));
    line
}

fn push_top_lines(lines: &mut Vec<String>, values: &Vec<(Option<String>, i64)>)
    ensures
        final(lines).deep_view() == old(lines).deep_view() + top_lines(values.deep_view()),
{
    let ghost all = top_lines(values.deep_view());
    let mut i: usize = 0;
    while i < values.len()
        invariant
            i <= values.len(),
            all == top_lines(values.deep_view()),
            all.len() == values.len(),
            lines.deep_view() == old(lines).deep_view() + all.take(i as int),
        decreases values.len() - i,
    {
        let line = render_top_line(&values[i]);
        assert(line@ == all[i as int]);
        push_line(lines, line);
        assert(all.take(i + 1) =~= all.take(i as int).push(all[i as int]));
        assert(lines.deep_view() =~= old(lines).deep_view() + all.take(i + 1));
        i += 1;
    }
    assert(all.take(values.len() as int) =~= all);
}

/// Appends the paragraph of one column to `lines`.
pub fn push_column_lines(lines: &mut Vec<String>, column: &ColumnReport)
    ensures
        final(lines).deep_view() == old(lines).deep_view() + column_lines(column@),
{
    let mut head = String::new();
    head.append(column.descriptor.name.as_str());
    head.append(" ");
    match &column.policy {
        Some(policy) => head.append(policy.rendered_type_label.as_str()),
        None => head.append(column.descriptor.declared_type.as_str()),
    }
    assert(head@ =~= heading(column@));
    push_line(lines, head);
    let ghost a = lines.deep_view();
    assert(a =~= old(lines).deep_view() + seq![heading(column@)]);
    match &column.comment {
        Some(text) => {
            let mut line = String::new();
            line.append("   Comment: ");
            line.append(text.as_str());
            assert(line@ =~= "   Comment: "@ + text@);
            push_line(lines, line);
        },
        None => {},
    }
    let ghost b = lines.deep_view();
    assert(b =~= a + comment_lines(column@.comment));
    if column.policy.is_none() {
        push_line(lines, "  Metadata unavailable".to_owned());
    }
    let ghost c = lines.deep_view();
    assert(c =~= b + marker_lines(column@.policy));
    push_distinct_lines(lines, column.stats.distinct_count);
    push_min_max_lines(lines, &column.stats.min_max);
    push_top_lines(lines, &column.stats.top_values);
    push_line(lines, String::new());
    assert(lines.deep_view() =~= old(lines).deep_view() + column_lines(column@));
}

impl TableReport {
    /// The report as lines of text.
    pub fn render(&self) -> (lines: Vec<String>)
        ensures
            lines.deep_view() == rendered(self@),
    {
        let mut lines: Vec<String> = Vec::new();
        let mut first = String::new();
        first.append("Table:   ");
        first.append(self.table_name.as_str());
        assert(first@ =~= "Table:   "@ + self.table_name@);
        let mut second = String::new();
        second.append("Records: ");
        push_decimal(&mut second, self.row_count);
        assert(second@ =~= "Records: "@ + decimal(self.row_count as int));
        push_line(&mut lines, first);
        push_line(&mut lines, second);
        let ghost head = lines.deep_view();
        assert(head =~= seq![
            "Table:   "@ + self.table_name@,
            "Records: "@ + decimal(self.row_count as int),
        ]);
        let ghost columns = self.columns.deep_view();
        let mut i: usize = 0;
        while i < self.columns.len()
            invariant
                i <= self.columns.len(),
                columns == self.columns.deep_view(),
                columns.len() == self.columns.len(),
                lines.deep_view() == head + paragraphs(columns.take(i as int)),
            decreases self.columns.len() - i,
        {
            assert(columns.take(i + 1).drop_last() =~= columns.take(i as int));
            assert(columns.take(i + 1).last() == self.columns[i as int]@);
            push_column_lines(&mut lines, &self.columns[i]);
            assert(lines.deep_view() =~= head + paragraphs(columns.take(i + 1)));
            i += 1;
        }
        assert(columns.take(self.columns.len() as int) =~= columns);
        lines
    }

    /// Whether some column could not be classified for want of metadata.
    pub fn lacks_metadata(&self) -> (lacking: bool)
        ensures
            lacking == self@.lacks_metadata(),
    {
        let ghost columns = self.columns.deep_view();
        let mut i: usize = 0;
        while i < self.columns.len()
            invariant
                i <= self.columns.len(),
                columns == self.columns.deep_view(),
                columns.len() == self.columns.len(),
                forall|k: int| 0 <= k < i ==> (#[trigger] columns[k]).policy is Some,
            decreases self.columns.len() - i,
        {
            assert(columns[i as int] == self.columns[i as int]@);
            if self.columns[i].policy.is_none() {
                return true;
            }
            i += 1;
        }
        false
    }
}

} // verus!
