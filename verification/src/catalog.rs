//! The columns of a table as the catalog describes them.

use vstd::prelude::*;
use crate::error::ProfileError;
use crate::rows::{Cell, CellView, lemma_rows_view};
use crate::text::same_text;

verus! {

/// One column of the profiled table. Read once from the catalog and not
/// changed afterwards.
#[derive(Debug)]
pub struct ColumnDescriptor {
    pub name: String,
    pub declared_type: String,
    pub max_char_length: Option<i32>,
    pub numeric_precision: Option<i32>,
    pub numeric_scale: Option<i32>,
    /// Position in the table's declared column order, counted from 1.
    pub ordinal_position: i32,
    /// Name of the type behind a user-defined type.
    pub underlying_type_name: Option<String>,
}

/// A [`ColumnDescriptor`] with its texts as sequences of characters.
pub struct ColumnView {
    pub name: Seq<char>,
    pub declared_type: Seq<char>,
    pub max_char_length: Option<i32>,
    pub numeric_precision: Option<i32>,
    pub numeric_scale: Option<i32>,
    pub ordinal_position: i32,
    pub underlying_type_name: Option<Seq<char>>,
}

impl View for ColumnDescriptor {
    type V = ColumnView;

    open spec fn view(&self) -> ColumnView {
        ColumnView {
            name: self.name@,
            declared_type: self.declared_type@,
            max_char_length: self.max_char_length,
            numeric_precision: self.numeric_precision,
            numeric_scale: self.numeric_scale,
            ordinal_position: self.ordinal_position,
            underlying_type_name: self.underlying_type_name.deep_view(),
        }
    }
}

impl DeepView for ColumnDescriptor {
    type V = ColumnView;

    open spec fn deep_view(&self) -> ColumnView {
        self@
    }
}

/// Number of cells of a catalog row that are read.
pub const CATALOG_WIDTH: usize = 7;

/// The column that a catalog row describes: name, declared type, maximum
/// character length, numeric precision, numeric scale, ordinal position and
/// underlying type name, in this order. `None` if the row is too short, a
/// cell has another type than its place asks for, or the position is below 1.
pub open spec fn column_of(row: Seq<CellView>) -> Option<ColumnView> {
    if row.len() >= CATALOG_WIDTH && row[0].text() is Some && row[1].text() is Some
        && row[2].optional_int4() is Some && row[3].optional_int4() is Some
        && row[4].optional_int4() is Some && row[5].int4() is Some && row[5].int4()->0 >= 1
        && row[6].optional_text() is Some {
        Some(
            ColumnView {
                name: row[0].text()->0,
                declared_type: row[1].text()->0,
                max_char_length: row[2].optional_int4()->0,
                numeric_precision: row[3].optional_int4()->0,
                numeric_scale: row[4].optional_int4()->0,
                ordinal_position: row[5].int4()->0,
                underlying_type_name: row[6].optional_text()->0,
            },
        )
    } else {
        None
    }
}

/// The columns stand in strictly ascending ordinal position.
pub open spec fn in_ordinal_order(columns: Seq<ColumnView>) -> bool {
    forall|i: int, j: int|
        0 <= i < j < columns.len() ==> (#[trigger] columns[i]).ordinal_position
            < (#[trigger] columns[j]).ordinal_position
}

/// No two columns share a name.
pub open spec fn names_differ(columns: Seq<ColumnView>) -> bool {
    forall|i: int, j: int|
        0 <= i < j < columns.len() ==> (#[trigger] columns[i]).name != (#[trigger] columns[j]).name
}

/// What makes a sequence of columns the description of a table: positions
/// from 1 on, strictly ascending, and no name twice.
pub open spec fn well_formed_columns(columns: Seq<ColumnView>) -> bool {
    &&& forall|i: int| 0 <= i < columns.len() ==> (#[trigger] columns[i]).ordinal_position >= 1
    &&& in_ordinal_order(columns)
    &&& names_differ(columns)
}

/// The columns that the rows describe, row by row.
pub open spec fn described(rows: Seq<Seq<CellView>>) -> Seq<ColumnView> {
    Seq::new(rows.len(), |i: int| column_of(rows[i])->0)
}

/// The table description in the result of the catalog query: `TableNotFound`
/// if there is no row, `QueryError` if a row describes no column or the
/// columns are not well formed.
pub open spec fn columns_of(rows: Seq<Seq<CellView>>) -> Result<Seq<ColumnView>, ProfileError> {
    if rows.len() == 0 {
        Err(ProfileError::TableNotFound)
    } else if (forall|i: int| 0 <= i < rows.len() ==> column_of(#[trigger] rows[i]) is Some)
        && in_ordinal_order(described(rows)) && names_differ(described(rows)) {
        Ok(described(rows))
    } else {
        Err(ProfileError::QueryError)
    }
}

/// A table description that the catalog query yields holds at least one
/// column and is well formed.
pub proof fn lemma_columns_of(rows: Seq<Seq<CellView>>)
    ensures
        columns_of(rows) matches Ok(columns) ==> columns.len() > 0 && well_formed_columns(columns),
{
    if let Ok(columns) = columns_of(rows) {
        assert forall|i: int| 0 <= i < columns.len() implies (#[trigger] columns[i]).ordinal_position
            >= 1 by {
            assert(column_of(rows[i]) is Some);
        }
    }
}

/// Reads one catalog row.
pub fn decode_column(row: &Vec<Cell>) -> (found: Option<ColumnDescriptor>)
    ensures
        found.deep_view() == column_of(row.deep_view()),
{
    if row.len() < CATALOG_WIDTH {
        return None;
    }
    assert(forall|j: int| 0 <= j < row.len() ==> (#[trigger] row.deep_view()[j]) == row[j]@);
    let name = row[0].text();
    let declared_type = row[1].text();
    let max_char_length = row[2].optional_int4();
    let numeric_precision = row[3].optional_int4();
    let numeric_scale = row[4].optional_int4();
    let ordinal_position = row[5].int4();
    let underlying_type_name = row[6].optional_text();
    match (
        name,
        declared_type,
        max_char_length,
        numeric_precision,
        numeric_scale,
        ordinal_position,
        underlying_type_name,
    ) {
        (
            Some(name),
            Some(declared_type),
            Some(max_char_length),
            Some(numeric_precision),
            Some(numeric_scale),
            Some(ordinal_position),
            Some(underlying_type_name),
        ) => {
            if ordinal_position >= 1 {
                Some(
                    ColumnDescriptor {
                        name,
                        declared_type,
                        max_char_length,
                        numeric_precision,
                        numeric_scale,
                        ordinal_position,
                        underlying_type_name,
                    },
                )
            } else {
                None
            }
        },
        _ => None,
    }
}

/// Whether the name of `columns[at]` occurs among the columns before it.
fn name_seen_before(columns: &Vec<ColumnDescriptor>, at: usize) -> (seen: bool)
    requires
        at < columns.len(),
    ensures
        seen == exists|i: int| 0 <= i < at && (#[trigger] columns[i]).name@ == columns[at as int].name@,
{
    let mut i: usize = 0;
    while i < at
        invariant
            i <= at < columns.len(),
            forall|k: int| 0 <= k < i ==> (#[trigger] columns[k]).name@ != columns[at as int].name@,
        decreases at - i,
    {
        if same_text(columns[i].name.as_str(), columns[at].name.as_str()) {
            return true;
        }
        i += 1;
    }
    false
}

/// Reads the result of the catalog query into the table's columns.
pub fn decode_columns(rows: &Vec<Vec<Cell>>) -> (outcome: Result<
    Vec<ColumnDescriptor>,
    ProfileError,
>)
    ensures
        match outcome {
            Ok(columns) => Ok::<Seq<ColumnView>, ProfileError>(columns.deep_view()),
            Err(e) => Err::<Seq<ColumnView>, ProfileError>(e),
        } == columns_of(rows.deep_view()),
        outcome matches Ok(columns) ==> columns.len() > 0 && well_formed_columns(
            columns.deep_view(),
        ),
{
    let ghost view = rows.deep_view();
    proof {
        lemma_rows_view(rows);
    }
    if rows.len() == 0 {
        return Err(ProfileError::TableNotFound);
    }
    let mut columns: Vec<ColumnDescriptor> = Vec::new();
    let mut i: usize = 0;
    while i < rows.len()
        invariant
            i <= rows.len(),
            view == rows.deep_view(),
            view.len() == rows.len(),
            columns.len() == i,
            forall|k: int| 0 <= k < i ==> column_of(#[trigger] view[k]) is Some,
            forall|k: int| 0 <= k < i ==> (#[trigger] columns[k])@ == column_of(view[k])->0,
            in_ordinal_order(described(view.take(i as int))),
            names_differ(described(view.take(i as int))),
        decreases rows.len() - i,
    {
        proof {
            lemma_rows_view(rows);
        }
        let ghost before = described(view.take(i as int));
        let ghost after = described(view.take(i + 1));
        assert(forall|k: int| 0 <= k < i ==> (#[trigger] after[k]) == before[k]);
        match decode_column(&rows[i]) {
            None => {
                assert(column_of(view[i as int]) is None);
                return Err(ProfileError::QueryError);
            },
            Some(column) => {
                assert(column@ == column_of(view[i as int])->0);
                let in_order = i == 0 || columns[i - 1].ordinal_position < column.ordinal_position;
                columns.push(column);
                let repeated = name_seen_before(&columns, i);
                if !in_order || repeated {
                    proof {
                        let all = described(view);
                        assert(forall|k: int| 0 <= k <= i ==> (#[trigger] all[k]) == columns[k]@);
                        if !in_order {
                            assert(all[i - 1].ordinal_position >= all[i as int].ordinal_position);
                            assert(!in_ordinal_order(all));
                        } else {
                            let k = choose|k: int|
                                0 <= k < i && (#[trigger] columns[k]).name@ == columns[i as int].name@;
                            assert(all[k].name == all[i as int].name);
                            assert(!names_differ(all));
                        }
                    }
                    return Err(ProfileError::QueryError);
                }
                proof {
                    assert(forall|k: int| 0 <= k <= i ==> (#[trigger] after[k]) == columns[k]@);
                    assert forall|a: int, b: int| 0 <= a < b < after.len() implies (#[trigger] after[a]).ordinal_position
                        < (#[trigger] after[b]).ordinal_position by {
                        if b == i {
                            if a < i - 1 {
                                assert(before[a].ordinal_position < before[i - 1].ordinal_position);
                            }
                        } else {
                            assert(before[a].ordinal_position < before[b].ordinal_position);
                        }
                    }
                    assert forall|a: int, b: int| 0 <= a < b < after.len() implies (#[trigger] after[a]).name
                        != (#[trigger] after[b]).name by {
                        if b == i {
                            assert(columns[a].name@ != columns[i as int].name@);
                        } else {
                            assert(before[a].name != before[b].name);
                        }
                    }
                }
            },
        }
        i += 1;
    }
    proof {
        assert(view.take(rows.len() as int) == view);
        assert(columns.deep_view() =~= described(view));
    }
    Ok(columns)
}

} // verus!
