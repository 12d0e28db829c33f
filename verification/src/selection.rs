//! Text selection: points, ranges, and the text a selection covers.

use vstd::prelude::*;
use crate::text::{trim_line_ends, trim_line_ends_of};

verus! {

/// A point in terminal coordinates: column `x`, row `y` (rows of the
/// scrollback have negative `y`).
#[derive(Debug, Clone, Copy, PartialEq, Eq, Structural)]
pub struct SelectionPoint {
    pub x: usize,
    pub y: isize,
}

/// Whether `a` comes no later than `b` in reading order (row first, then
/// column).
pub open spec fn point_le(a: SelectionPoint, b: SelectionPoint) -> bool {
    a.y < b.y || (a.y == b.y && a.x <= b.x)
}

/// The current text selection: where the drag started and where it is now.
#[derive(Debug, Clone, Copy, PartialEq, Eq, Structural)]
pub struct SelectionRange {
    pub start: SelectionPoint,
    pub end: SelectionPoint,
}

impl SelectionRange {
    /// Returns (start, end) in normalized order (start <= end)
    pub fn normalized(&self) -> (r: (SelectionPoint, SelectionPoint))
        ensures
            r == (if point_le(self.start, self.end) {
                (self.start, self.end)
            } else {
                (self.end, self.start)
            }),
            point_le(r.0, r.1),
    {
        if self.start.y < self.end.y || (self.start.y == self.end.y && self.start.x <= self.end.x) {
            (self.start, self.end)
        } else {
            (self.end, self.start)
        }
    }
}

/// One visible cell of a selected line: its column and its text.
#[derive(Debug, Clone, PartialEq, Eq)]
pub struct SelectionCell {
    pub index: usize,
    pub text: Vec<char>,
}

/// The text of the cells, in order, whose column lies in `[lo, hi)`.
pub open spec fn cells_text(cells: Seq<SelectionCell>, lo: int, hi: int) -> Seq<char>
    decreases cells.len(),
{
    if cells.len() == 0 {
        Seq::<char>::empty()
    } else {
        cells_text(cells.drop_last(), lo, hi) + (if lo <= cells.last().index && cells.last().index
            < hi {
            cells.last().text@
        } else {
            Seq::<char>::empty()
        })
    }
}

/// The first column selected on row `r` of `n` selected rows.
pub open spec fn row_first_col(r: int, start_x: int) -> int {
    if r == 0 { start_x } else { 0 }
}

/// The column after the last selected on row `r` of `n` selected rows.
pub open spec fn row_end_col(r: int, n: int, end_x: int, cols: int) -> int {
    if r == n - 1 { end_x + 1 } else { cols }
}

/// The selected text of the first `k` of the `rows`, before trimming: each
/// row's selected cells, with a line feed after every row but the last.
pub open spec fn raw_selection(
    rows: Seq<Vec<SelectionCell>>,
    k: int,
    start_x: int,
    end_x: int,
    cols: int,
) -> Seq<char>
    decreases k,
{
    if k <= 0 {
        Seq::<char>::empty()
    } else {
        let r = k - 1;
        raw_selection(rows, r, start_x, end_x, cols) + cells_text(
            rows[r]@,
            row_first_col(r, start_x),
            row_end_col(r, rows.len() as int, end_x, cols),
        ) + (if r < rows.len() - 1 {
            seq!['\n']
        } else {
            Seq::<char>::empty()
        })
    }
}

/// The text of a selection that spans the given rows (the visible cells of
/// each row from the start row to the end row, in order), starting at column
/// `start_x` of the first row and ending at column `end_x` of the last row
/// (inclusive), of a screen `cols` columns wide. The rows are joined with line
/// feeds and the trailing white space of every line is removed.
pub fn selected_text(rows: &Vec<Vec<SelectionCell>>, start_x: usize, end_x: usize, cols: usize) -> (t: Vec<char>)
    requires
        end_x < usize::MAX,
    ensures
        t@ == trim_line_ends(raw_selection(rows@, rows@.len() as int, start_x as int, end_x as int, cols as int)),
{
    let n = rows.len();
    let mut raw: Vec<char> = Vec::new();
    let mut r: usize = 0;
    while r < n
        invariant
            n == rows@.len(),
            end_x < usize::MAX,
            r <= n,
            raw@ == raw_selection(rows@, r as int, start_x as int, end_x as int, cols as int),
        decreases n - r,
    {
        let lo: usize = if r == 0 { start_x } else { 0 };
        let hi: usize = if r == n - 1 { end_x + 1 } else { cols };
        let row = &rows[r];
        let ghost base = raw@;
        let mut c: usize = 0;
        while c < row.len()
            invariant
                c <= row@.len(),
                raw@ == base + cells_text(row@.subrange(0, c as int), lo as int, hi as int),
            decreases row@.len() - c,
        {
            let cell = &row[c];
            proof {
                assert(row@.subrange(0, c + 1).drop_last() =~= row@.subrange(0, c as int));
            }
            if lo <= cell.index && cell.index < hi {
                let ghost before = raw@;
                let mut j: usize = 0;
                while j < cell.text.len()
                    invariant
                        j <= cell.text@.len(),
                        raw@ == before + cell.text@.subrange(0, j as int),
                    decreases cell.text@.len() - j,
                {
                    raw.push(cell.text[j]);
                    j = j + 1;
                    proof {
                        assert(before + cell.text@.subrange(0, j as int) =~= (before
                            + cell.text@.subrange(0, j - 1)).push(cell.text@[j - 1]));
                    }
                }
                proof {
                    assert(cell.text@.subrange(0, cell.text@.len() as int) =~= cell.text@);
                }
            }
            c = c + 1;
        }
        proof {
            assert(row@.subrange(0, row@.len() as int) =~= row@);
        }
        if r < n - 1 {
            raw.push('\n');
        }
        r = r + 1;
    }
    trim_line_ends_of(&raw)
}

/// The text of all the cells, in order.
pub open spec fn all_cells_text(cells: Seq<SelectionCell>) -> Seq<char>
    decreases cells.len(),
{
    if cells.len() == 0 {
        Seq::<char>::empty()
    } else {
        all_cells_text(cells.drop_last()) + cells.last().text@
    }
}

/// A row's selected text holds exactly the cells whose column lies in the
/// selected span: where every cell of the row lies in `[lo, hi)` the whole
/// row's text is taken, and where none does nothing is.
pub proof fn lemma_cells_in_span_are_taken(cells: Seq<SelectionCell>, lo: int, hi: int)
    ensures
        (forall|j: int| 0 <= j < cells.len() ==> lo <= #[trigger] cells[j].index < hi) ==> cells_text(
            cells,
            lo,
            hi,
        ) == all_cells_text(cells),
        (forall|j: int| 0 <= j < cells.len() ==> !(lo <= #[trigger] cells[j].index < hi)) ==> cells_text(
            cells,
            lo,
            hi,
        ) == Seq::<char>::empty(),
    decreases cells.len(),
{
    if cells.len() > 0 {
        let rest = cells.drop_last();
        assert forall|j: int| 0 <= j < rest.len() implies rest[j] == cells[j] by {}
        lemma_cells_in_span_are_taken(rest, lo, hi);
        if forall|j: int| 0 <= j < cells.len() ==> lo <= #[trigger] cells[j].index < hi {
            assert(lo <= cells[cells.len() - 1].index < hi);
            assert forall|j: int| 0 <= j < rest.len() implies lo <= #[trigger] rest[j].index < hi by {
                assert(rest[j] == cells[j]);
            }
        }
        if forall|j: int| 0 <= j < cells.len() ==> !(lo <= #[trigger] cells[j].index < hi) {
            assert(!(lo <= cells[cells.len() - 1].index < hi));
            assert forall|j: int| 0 <= j < rest.len() implies !(lo <= #[trigger] rest[j].index < hi) by {
                assert(rest[j] == cells[j]);
            }
        }
    }
}

/// How a multi-row selection is copied, row by row: every row but the last
/// contributes its cells from its first selected column (`start_x` on the
/// first row, 0 on the others) up to the screen's width `cols`, followed by
/// a line feed; the last row contributes its cells from its first selected
/// column through `end_x`, with no line feed after it.
pub proof fn lemma_selection_rows(rows: Seq<Vec<SelectionCell>>, start_x: int, end_x: int, cols: int, r: int)
    requires
        0 <= r < rows.len(),
    ensures
        r < rows.len() - 1 ==> raw_selection(rows, r + 1, start_x, end_x, cols) == raw_selection(
            rows,
            r,
            start_x,
            end_x,
            cols,
        ) + cells_text(rows[r]@, if r == 0 { start_x } else { 0 }, cols) + seq!['\n'],
        r == rows.len() - 1 ==> raw_selection(rows, r + 1, start_x, end_x, cols) == raw_selection(
            rows,
            r,
            start_x,
            end_x,
            cols,
        ) + cells_text(rows[r]@, if r == 0 { start_x } else { 0 }, end_x + 1),
{
    if r == rows.len() - 1 {
        assert(raw_selection(rows, r + 1, start_x, end_x, cols) =~= raw_selection(rows, r, start_x, end_x, cols)
            + cells_text(rows[r]@, if r == 0 { start_x } else { 0 }, end_x + 1) + Seq::<char>::empty());
    }
}

} // verus!
