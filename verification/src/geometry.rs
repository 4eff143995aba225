//! Terminal rows and pixel rows.
//!
//! The terminal reports its height in character rows (the internal height).
//! Two rows of pixels are packed into one character row, so the height that
//! a host works with (the external height) is twice the internal one. The
//! rows of the log region are taken off before the height is doubled.
//!
//! A terminal that is not taller than the log region has no room for pixels:
//! its drawable height is zero rather than an error. A doubled height that
//! does not fit the 16 bits of an event's row stops at `u16::MAX`.

use std::ops::Add;
use vstd::prelude::*;
use vstd::std_specs::ops::AddSpec;

verus! {

/// Rows at the bottom of the terminal that are kept free for log lines.
pub const LOGGING_WINDOW_HEIGHT: usize = 4;

/// The external height that belongs to an internal height.
pub open spec fn external_height(internal_height: int) -> int {
    2 * internal_height
}

/// The character rows that are left for pixels once the log region is taken
/// off: none where the terminal is not taller than the region.
pub open spec fn drawable_rows(rows: int) -> int {
    if rows > LOGGING_WINDOW_HEIGHT {
        rows - LOGGING_WINDOW_HEIGHT
    } else {
        0
    }
}

/// The external height of the drawable part of a terminal with `rows` rows.
pub open spec fn drawable_height(rows: int) -> int {
    external_height(drawable_rows(rows))
}

/// `height`, or the largest row number where it is beyond that.
pub open spec fn saturated_row(height: int) -> int {
    if height > u16::MAX {
        u16::MAX as int
    } else {
        height
    }
}

/// The size of the pixel grid that fits a terminal of the given raw size:
/// the columns as they are, and the external height of the drawable rows.
pub open spec fn drawable_size(columns: u16, rows: u16) -> (usize, usize) {
    (columns as usize, drawable_height(rows as int) as usize)
}

/// The external height of an internal height: the height added to itself.
///
/// Two rows of pixels share one character row, so the external height is
/// twice the internal one. The sum has to fit the type.
pub fn to_external_height<T: Add<Output = T> + Copy>(internal_height: T) -> (external: T)
    requires
        internal_height.add_req(internal_height),
    ensures
        T::obeys_add_spec() ==> external == internal_height.add_spec(internal_height),
{
    internal_height + internal_height
}

/// On sixteen-bit rows, `to_external_height` accepts every height whose
/// double fits and returns that double.
pub proof fn lemma_external_height_of_u16(internal_height: u16)
    requires
        external_height(internal_height as int) <= u16::MAX,
    ensures
        <u16 as AddSpec<u16>>::obeys_add_spec(),
        internal_height.add_req(internal_height),
        internal_height.add_spec(internal_height) == 2 * internal_height,
        internal_height.add_spec(internal_height) == external_height(internal_height as int),
{
}

/// On `usize` heights, `to_external_height` accepts every height whose
/// double fits and returns that double.
pub proof fn lemma_external_height_of_usize(internal_height: usize)
    requires
        external_height(internal_height as int) <= usize::MAX,
    ensures
        <usize as AddSpec<usize>>::obeys_add_spec(),
        internal_height.add_req(internal_height),
        internal_height.add_spec(internal_height) == 2 * internal_height,
        internal_height.add_spec(internal_height) == external_height(internal_height as int),
{
}

/// Doubles a row number of an event, stopping at `u16::MAX`.
pub fn saturating_external_row(row: u16) -> (external: u16)
    ensures
        external == saturated_row(external_height(row as int)),
{
    if row <= u16::MAX / 2 {
        to_external_height(row)
    } else {
        u16::MAX
    }
}

/// The rows of a terminal that are left above the log region.
pub fn rows_above_log_region(rows: u16) -> (remaining: u16)
    ensures
        remaining == drawable_rows(rows as int),
{
    let reserved: u16 = LOGGING_WINDOW_HEIGHT as u16;
    if rows > reserved {
        rows - reserved
    } else {
        0
    }
}

/// The size of the pixel grid for a terminal of `columns` by `rows`
/// characters: the columns unchanged, and twice the rows that the log region
/// leaves.
pub fn size_for_terminal(columns: u16, rows: u16) -> (size: (usize, usize))
    ensures
        size == drawable_size(columns, rows),
        size.0 == columns,
        rows > LOGGING_WINDOW_HEIGHT ==> size.1 == 2 * (rows - LOGGING_WINDOW_HEIGHT),
        rows <= LOGGING_WINDOW_HEIGHT ==> size.1 == 0,
{
    let remaining: usize = rows_above_log_region(rows) as usize;
    (columns as usize, to_external_height(remaining))
}

} // verus!
