//! Copying the cells of one terminal row into a caller's buffer.

use vstd::prelude::*;
use crate::types::{is_blank_cell, WezTermCellInfo};

verus! {

/// One visible cell of a terminal line: its column and its packed contents.
#[derive(Debug, Clone, Copy, PartialEq, Eq)]
pub struct IndexedCell {
    pub index: usize,
    pub info: WezTermCellInfo,
}

/// Where the copy of a line's cells stops: the position, from `i` on, of
/// the first cell whose column is not below `cols` (or the number of cells).
pub open spec fn scan_end(cells: Seq<IndexedCell>, cols: int, i: int) -> int
    decreases cells.len() - i,
{
    if i < 0 || i >= cells.len() || cells[i].index >= cols {
        i
    } else {
        scan_end(cells, cols, i + 1)
    }
}

/// The contents written to column `k` by the first `n` cells: that of the
/// last of them whose column is `k`, if any.
pub open spec fn last_write(cells: Seq<IndexedCell>, n: int, k: int) -> Option<WezTermCellInfo>
    decreases n,
{
    if n <= 0 {
        None
    } else if cells[n - 1].index == k {
        Some(cells[n - 1].info)
    } else {
        last_write(cells, n - 1, k)
    }
}

/// The column after the last cell copied, where the blank padding starts.
pub open spec fn copied_count(cells: Seq<IndexedCell>, n: int) -> int {
    if n <= 0 { 0 } else { cells[n - 1].index + 1 }
}

/// The number of cells a row copy fills: the row's width, capped by the
/// caller's capacity; none where the capacity is zero.
pub open spec fn row_fill_width(physical_cols: usize, max_cells: u32) -> int {
    if (max_cells as int) < (physical_cols as int) { max_cells as int } else { physical_cols as int }
}

proof fn lemma_last_write_in_range(cells: Seq<IndexedCell>, n: int, k: int, cols: int)
    requires
        0 <= n <= cells.len(),
        forall|j: int| 0 <= j < n ==> #[trigger] cells[j].index < cols,
        k >= cols,
    ensures
        last_write(cells, n, k) is None,
    decreases n,
{
    if n > 0 {
        assert(cells[n - 1].index < cols);
        lemma_last_write_in_range(cells, n - 1, k, cols);
    }
}

/// Whether slot `k` of a row copy over `cols` columns ends up blank: it is
/// at or after the column following the last copied cell, or no copied cell
/// landed on it (such as the column after a wide cell).
pub open spec fn slot_is_blank(cells: Seq<IndexedCell>, cols: int, k: int) -> bool {
    let n = scan_end(cells, cols, 0);
    copied_count(cells, n) <= k || last_write(cells, n, k) is None
}

/// Copies the visible cells of one line into `out` and returns the number
/// of cells written, `cols = min(physical_cols, max_cells)`. A slot holding
/// `None` is one the copy has not written (the caller's buffer keeps what it
/// held there); every slot below `cols` is written.
///
/// `cells` are the line's visible cells in order; the copy stops at the first
/// cell whose column is not below `cols`. Each copied cell goes to the slot of
/// its column; every other slot below `cols` (a column skipped after a wide
/// cell, and the columns from the one after the last copied cell on) is filled
/// with a blank cell. Slots from `cols` on are left alone. A capacity of zero
/// copies nothing.
pub fn fill_row_cells(
    out: &mut Vec<Option<WezTermCellInfo>>,
    cells: &Vec<IndexedCell>,
    physical_cols: usize,
    max_cells: u32,
) -> (written: u32)
    requires
        old(out)@.len() >= max_cells as int,
    ensures
        final(out)@.len() == old(out)@.len(),
        max_cells == 0 ==> written == 0 && final(out)@ == old(out)@,
        max_cells != 0 ==> written as int == row_fill_width(physical_cols, max_cells),
        forall|k: int| 0 <= k < written ==> #[trigger] final(out)@[k] is Some,
        max_cells != 0 ==> forall|k: int|
            0 <= k < old(out)@.len() ==> {
                let cols = row_fill_width(physical_cols, max_cells);
                let n = scan_end(cells@, cols, 0);
                if k < cols {
                    if slot_is_blank(cells@, cols, k) {
                        (#[trigger] final(out)@[k]) matches Some(c) && is_blank_cell(c)
                    } else {
                        final(out)@[k] == Some(last_write(cells@, n, k).unwrap())
                    }
                } else {
                    final(out)@[k] == old(out)@[k]
                }
            },
{
    if max_cells == 0 {
        return 0;
    }
    let cols: usize = if (max_cells as usize) < physical_cols { max_cells as usize } else { physical_cols };
    let ghost cols_i: int = cols as int;
    assert(cols_i == row_fill_width(physical_cols, max_cells));
    let ghost old_out = out@;
    let mut touched: Vec<bool> = Vec::new();
    let mut t: usize = 0;
    while t < cols
        invariant
            t <= cols,
            touched@.len() == t,
            forall|m: int| 0 <= m < t ==> !#[trigger] touched@[m],
        decreases cols - t,
    {
        touched.push(false);
        t = t + 1;
    }
    let mut count: u32 = 0;
    let mut i: usize = 0;
    while i < cells.len()
        invariant
            cols as int == row_fill_width(physical_cols, max_cells),
            cols <= max_cells as int,
            cols <= out@.len(),
            out@.len() == old_out.len(),
            old_out.len() >= max_cells as int,
            touched@.len() == cols,
            i <= cells@.len(),
            scan_end(cells@, cols as int, i as int) == scan_end(cells@, cols as int, 0),
            forall|j: int| 0 <= j < i ==> #[trigger] cells@[j].index < cols,
            count as int == copied_count(cells@, i as int),
            count as int <= cols as int,
            forall|k: int| 0 <= k < cols ==> #[trigger] touched@[k] == last_write(cells@, i as int, k) is Some,
            forall|k: int|
                0 <= k < out@.len() ==> #[trigger] out@[k] == match last_write(cells@, i as int, k) {
                    Some(c) => Some(c),
                    None => old_out[k],
                },
        ensures
            i <= cells@.len(),
            i == cells@.len() || cells@[i as int].index >= cols,
        decreases cells@.len() - i,
    {
        let idx = cells[i].index;
        if idx >= cols {
            break;
        }
        out.set(idx, Some(cells[i].info));
        touched.set(idx, true);
        count = (idx as u32) + 1;
        i = i + 1;
    }
    let ghost n: int = i as int;
    assert(scan_end(cells@, cols as int, n) == n);
    assert(n == scan_end(cells@, cols as int, 0));
    let mut g: u32 = 0;
    while g < count
        invariant
            cols <= out@.len(),
            out@.len() == old_out.len(),
            touched@.len() == cols,
            count as int <= cols as int,
            g <= count,
            0 <= n <= cells@.len(),
            forall|k: int| 0 <= k < cols ==> #[trigger] touched@[k] == last_write(cells@, n, k) is Some,
            forall|m: int|
                0 <= m < out@.len() ==> if m < g && last_write(cells@, n, m) is None {
                    (#[trigger] out@[m]) matches Some(c) && is_blank_cell(c)
                } else {
                    out@[m] == match last_write(cells@, n, m) {
                        Some(c) => Some(c),
                        None => old_out[m],
                    }
                },
        decreases count - g,
    {
        if !touched[g as usize] {
            out.set(g as usize, Some(WezTermCellInfo::blank()));
        }
        g = g + 1;
    }
    let mut k: u32 = count;
    while (k as usize) < cols
        invariant
            cols as int == row_fill_width(physical_cols, max_cells),
            cols <= max_cells as int,
            cols <= out@.len(),
            out@.len() == old_out.len(),
            count <= k,
            k as int <= cols as int,
            count as int == copied_count(cells@, n),
            n == scan_end(cells@, cols as int, 0),
            0 <= n <= cells@.len(),
            forall|j: int| 0 <= j < n ==> #[trigger] cells@[j].index < cols,
            forall|m: int|
                0 <= m < out@.len() ==> {
                    if (count <= m < k) || (m < count && last_write(cells@, n, m) is None) {
                        (#[trigger] out@[m]) matches Some(c) && is_blank_cell(c)
                    } else {
                        out@[m] == match last_write(cells@, n, m) {
                            Some(c) => Some(c),
                            None => old_out[m],
                        }
                    }
                },
        decreases cols - k as int,
    {
        out.set(k as usize, Some(WezTermCellInfo::blank()));
        k = k + 1;
    }
    proof {
        assert(k as int == cols as int);
        assert forall|m: int| 0 <= m < out@.len() && m >= cols as int implies out@[m] == old_out[m] by {
            lemma_last_write_in_range(cells@, n, m, cols as int);
        }
    }
    cols as u32
}

/// The stable row index of a scrollback row, or `None` where the index is
/// negative or not below the number of rows.
pub fn scrollback_row_index(stable_row: isize, total_rows: usize) -> (r: Option<usize>)
    ensures
        r is Some <==> (0 <= stable_row && stable_row < total_rows),
        r matches Some(i) ==> i as int == stable_row as int,
{
    if stable_row < 0 || (stable_row as usize) >= total_rows {
        None
    } else {
        Some(stable_row as usize)
    }
}

} // verus!
