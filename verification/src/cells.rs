//! The worksheet cell model and merged-cell value resolution.
//!
//! A cell is held as the plain values the extractors read from it: a
//! numeric cell carries its integer reading together with the date its
//! serial value denotes, a date-formatted cell carries the date alone, and
//! a text cell carries its string.

use vstd::prelude::*;

verus! {

/// A point in time read from a cell: days since 1970-01-01 (UTC) and the
/// second within that day.
#[derive(Clone, Copy, Debug, PartialEq, Eq, Structural)]
pub struct UtcTime {
    pub day: i64,
    pub sec_of_day: u32,
}

/// One worksheet cell, reduced to the readings the extractors use.
#[derive(Clone, Debug)]
pub enum Cell {
    /// A cell with no reading: blank, or of a kind no extractor consumes.
    Empty,
    /// A numeric cell: its integer reading and the date its serial value
    /// denotes.
    Number { value: u32, date: UtcTime },
    /// A date-formatted cell: a date reading but no numeric one.
    Stamp { date: UtcTime },
    /// A text cell.
    Text { text: String },
}

/// The numeric reading of a cell, if it has one.
pub open spec fn cell_number(c: Cell) -> Option<u32> {
    match c {
        Cell::Number { value, .. } => Option::Some(value),
        _ => Option::None,
    }
}

/// The date reading of a cell, if it has one.
pub open spec fn cell_date(c: Cell) -> Option<UtcTime> {
    match c {
        Cell::Number { date, .. } => Option::Some(date),
        Cell::Stamp { date } => Option::Some(date),
        _ => Option::None,
    }
}

/// The text reading of a cell, if it has one.
pub open spec fn cell_text(c: Cell) -> Option<Seq<char>> {
    match c {
        Cell::Text { text } => Option::Some(text@),
        _ => Option::None,
    }
}

/// Merged-cell resolution: the numeric value at `(row, col)`, or, when that
/// cell has no numeric reading, the value inherited from the nearest
/// numeric cell below it in the same column. `None` when the probe runs
/// off the sheet or off the row.
pub open spec fn spec_resolved(grid: Seq<Vec<Cell>>, row: int, col: int) -> Option<u32>
    decreases grid.len() - row,
{
    if !(0 <= row < grid.len() && 0 <= col < grid[row]@.len()) {
        Option::None
    } else if cell_number(grid[row]@[col]) is Some {
        cell_number(grid[row]@[col])
    } else {
        spec_resolved(grid, row + 1, col)
    }
}

/// Merged-cell resolution as a bounded downward scan of the column.
pub fn resolve_value(grid: &Vec<Vec<Cell>>, row: usize, col: usize) -> (r: Option<u32>)
    ensures
        r == spec_resolved(grid@, row as int, col as int),
{
    let n = grid.len();
    let mut i = row;
    while i < n
        invariant
            n == grid@.len(),
            row <= i,
            spec_resolved(grid@, row as int, col as int) == spec_resolved(grid@, i as int,
                col as int),
        decreases n - i,
    {
        if col >= grid[i].len() {
            return None;
        }
        match &grid[i][col] {
            Cell::Number { value, .. } => {
                return Some(*value);
            },
            _ => {},
        }
        i = i + 1;
    }
    None
}

} // verus!
