//! Where the parts of the status bar go on a viewport of `(columns, rows)`.
use vstd::prelude::*;

verus! {

/// The status bar's geometry: its row, how many cells its background
/// fills, where the address prompt starts, and where the right-aligned help
/// text starts.
#[derive(Clone, Copy, Debug, PartialEq, Eq, Structural)]
pub struct BarLayout {
    pub row: u16,
    pub fill_len: usize,
    pub prompt_col: u16,
    pub help_col: u16,
}

/// Lays out the status bar on the bottom row: the background spans all
/// columns but the last, the prompt follows the status label (of
/// `status_len` cells, and no further right than the last column), and the
/// help text of `help_len` cells ends at the right edge, or starts at the
/// left edge where it is wider than the viewport.
pub fn status_bar(size: (u16, u16), status_len: usize, help_len: usize) -> (r: BarLayout)
    ensures
        r.row == (if size.1 > 0 {
            size.1 - 1
        } else {
            0
        }),
        r.fill_len == (if size.0 > 0 {
            size.0 - 1
        } else {
            0
        }),
        r.prompt_col == (if status_len <= size.0 {
            status_len as int
        } else {
            size.0 as int
        }),
        r.help_col == (if help_len <= size.0 {
            size.0 - help_len as int
        } else {
            0
        }),
{
    let (columns, rows) = size;
    let row: u16 = if rows > 0 { rows - 1 } else { 0 };
    let fill_len: usize = if columns > 0 { (columns - 1) as usize } else { 0 };
    let prompt_col: u16 = if status_len <= columns as usize { status_len as u16 } else { columns };
    let help_col: u16 = if help_len <= columns as usize { columns - help_len as u16 } else { 0 };
    BarLayout { row, fill_len, prompt_col, help_col }
}

} // verus!
