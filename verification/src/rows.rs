//! What a query executor hands back: rows of cells, each cell typed as the
//! database declared it, or the message of a failure.

use vstd::prelude::*;

verus! {

/// One value of a result row. Counts arrive as `BigInt`, catalog numbers as
/// `Int`, names and text-cast values as `Text`.
#[derive(Debug)]
pub enum Cell {
    Null,
    Int(i32),
    BigInt(i64),
    Text(String),
}

/// A [`Cell`] with its text as a sequence of characters.
pub enum CellView {
    Null,
    Int(i32),
    BigInt(i64),
    Text(Seq<char>),
}

impl View for Cell {
    type V = CellView;

    open spec fn view(&self) -> CellView {
        match self {
            Cell::Null => CellView::Null,
            Cell::Int(n) => CellView::Int(*n),
            Cell::BigInt(n) => CellView::BigInt(*n),
            Cell::Text(s) => CellView::Text(s@),
        }
    }
}

impl DeepView for Cell {
    type V = CellView;

    open spec fn deep_view(&self) -> CellView {
        self@
    }
}

/// The answer of the query executor to one query.
#[derive(Debug)]
pub enum QueryOutcome {
    /// The rows of the result, in the order in which the database gave them.
    Rows(Vec<Vec<Cell>>),
    /// The query failed; the executor's message.
    Failed(String),
}

/// A [`QueryOutcome`] over sequences.
pub enum OutcomeView {
    Rows(Seq<Seq<CellView>>),
    Failed(Seq<char>),
}

impl View for QueryOutcome {
    type V = OutcomeView;

    open spec fn view(&self) -> OutcomeView {
        match self {
            QueryOutcome::Rows(rows) => OutcomeView::Rows(rows.deep_view()),
            QueryOutcome::Failed(message) => OutcomeView::Failed(message@),
        }
    }
}

impl DeepView for QueryOutcome {
    type V = OutcomeView;

    open spec fn deep_view(&self) -> OutcomeView {
        self@
    }
}

impl CellView {
    /// The text of a text cell.
    pub open spec fn text(self) -> Option<Seq<char>> {
        match self {
            CellView::Text(s) => Some(s),
            _ => None,
        }
    }

    /// The text of a text cell that may be null.
    pub open spec fn optional_text(self) -> Option<Option<Seq<char>>> {
        match self {
            CellView::Null => Some(None),
            CellView::Text(s) => Some(Some(s)),
            _ => None,
        }
    }

    /// The number of a 32-bit integer cell.
    pub open spec fn int4(self) -> Option<i32> {
        match self {
            CellView::Int(n) => Some(n),
            _ => None,
        }
    }

    /// The number of a 32-bit integer cell that may be null.
    pub open spec fn optional_int4(self) -> Option<Option<i32>> {
        match self {
            CellView::Null => Some(None),
            CellView::Int(n) => Some(Some(n)),
            _ => None,
        }
    }

    /// The number of a 64-bit integer cell.
    pub open spec fn int8(self) -> Option<i64> {
        match self {
            CellView::BigInt(n) => Some(n),
            _ => None,
        }
    }
}

impl Cell {
    /// The text of a text cell; `None` for any other cell.
    pub fn text(&self) -> (found: Option<String>)
        ensures
            found.deep_view() == self@.text(),
    {
        match self {
            Cell::Text(s) => Some(s.clone()),
            _ => None,
        }
    }

    /// The text of a text cell that may be null; `None` for a cell of
    /// another type.
    pub fn optional_text(&self) -> (found: Option<Option<String>>)
        ensures
            found.deep_view() == self@.optional_text(),
    {
        match self {
            Cell::Null => Some(None),
            Cell::Text(s) => Some(Some(s.clone())),
            _ => None,
        }
    }

    /// The number of a 32-bit integer cell; `None` for any other cell.
    pub fn int4(&self) -> (found: Option<i32>)
        ensures
            found == self@.int4(),
    {
        match self {
            Cell::Int(n) => Some(*n),
            _ => None,
        }
    }

    /// The number of a 32-bit integer cell that may be null; `None` for a
    /// cell of another type.
    pub fn optional_int4(&self) -> (found: Option<Option<i32>>)
        ensures
            found == self@.optional_int4(),
    {
        match self {
            Cell::Null => Some(None),
            Cell::Int(n) => Some(Some(*n)),
            _ => None,
        }
    }

    /// The number of a 64-bit integer cell; `None` for any other cell.
    pub fn int8(&self) -> (found: Option<i64>)
        ensures
            found == self@.int8(),
    {
        match self {
            Cell::BigInt(n) => Some(*n),
            _ => None,
        }
    }
}

/// The rows of `rows` and their cells are the deep view's, index by index.
pub proof fn lemma_rows_view(rows: &Vec<Vec<Cell>>)
    ensures
        rows.deep_view().len() == rows.len(),
        forall|i: int|
            0 <= i < rows.len() ==> (#[trigger] rows.deep_view()[i]) == rows[i].deep_view(),
        forall|i: int|
            0 <= i < rows.len() ==> (#[trigger] rows[i].deep_view()).len() == rows[i].len(),
        forall|i: int, j: int|
            0 <= i < rows.len() && 0 <= j < rows[i].len() ==> (#[trigger] rows[i].deep_view()[j])
                == rows[i][j]@,
{
}

} // verus!
