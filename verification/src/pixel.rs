//! Pixels, pixel grids, and the bytes that a grid is drawn from.
//!
//! A grid is a sequence of rows, each a sequence of pixels. It is drawn from
//! its red, green and blue bytes in row-major order; alpha is dropped. All
//! rows of a grid that can be drawn have the length of the first one.

use vstd::prelude::*;

verus! {

/// A pixel as a host supplies it. The encoder ignores `a`.
#[derive(Debug, Clone, Copy, PartialEq, Eq)]
pub struct Pixel {
    pub r: u8,
    pub g: u8,
    pub b: u8,
    pub a: u8,
}

/// A 24-bit colour of a terminal cell.
#[derive(Debug, Clone, Copy, PartialEq, Eq)]
pub struct Color {
    pub r: u8,
    pub g: u8,
    pub b: u8,
}

/// One character cell of the terminal: the two pixels that are packed into
/// it, and the label that is shown on it, if any.
#[derive(Debug, Clone, PartialEq, Eq)]
pub struct TerminalCell {
    pub top: Color,
    pub bottom: Color,
    pub semantics: Option<String>,
}

/// The colour of a pixel: its red, green and blue, without its alpha.
pub fn to_color(pixel: &Pixel) -> (color: Color)
    ensures
        color == (Color { r: pixel.r, g: pixel.g, b: pixel.b }),
{
    Color { r: pixel.r, g: pixel.g, b: pixel.b }
}

/// The rows of a grid as sequences of pixels.
pub open spec fn grid_rows(grid: Seq<Vec<Pixel>>) -> Seq<Seq<Pixel>> {
    grid.map_values(|row: Vec<Pixel>| row@)
}

/// The bytes that one pixel is drawn from.
pub open spec fn pixel_rgb(pixel: Pixel) -> Seq<u8> {
    seq![pixel.r, pixel.g, pixel.b]
}

/// The bytes that a row of pixels is drawn from: those of its pixels, from
/// the left.
pub open spec fn row_rgb(row: Seq<Pixel>) -> Seq<u8> {
    row.map_values(|pixel: Pixel| pixel_rgb(pixel)).flatten()
}

/// The bytes that a grid is drawn from: those of its rows, from the top.
pub open spec fn grid_rgb(rows: Seq<Seq<Pixel>>) -> Seq<u8> {
    rows.map_values(|row: Seq<Pixel>| row_rgb(row)).flatten()
}

/// The number of pixels in a grid.
pub open spec fn pixel_count(rows: Seq<Seq<Pixel>>) -> nat
    decreases rows.len(),
{
    if rows.len() == 0 {
        0
    } else {
        pixel_count(rows.drop_last()) + rows.last().len()
    }
}

/// Whether every row has the length of the first one.
pub open spec fn is_rectangular(rows: Seq<Seq<Pixel>>) -> bool {
    forall|y: int| 0 <= y < rows.len() ==> (#[trigger] rows[y]).len() == rows[0].len()
}

/// Whether row `y` is the first one whose length differs from that of the
/// first row.
pub open spec fn is_first_ragged_row(rows: Seq<Seq<Pixel>>, y: int) -> bool {
    &&& 0 <= y < rows.len()
    &&& rows[y].len() != rows[0].len()
    &&& forall|above: int| 0 <= above < y ==> (#[trigger] rows[above]).len() == rows[0].len()
}

/// The first row whose length differs from that of the first row, in a grid
/// that has one.
pub open spec fn first_ragged(rows: Seq<Seq<Pixel>>) -> int {
    choose|y: int| is_first_ragged_row(rows, y)
}

/// A grid has at most one first ragged row, and has one exactly where it is
/// not rectangular.
pub proof fn lemma_first_ragged_row_is_unique(rows: Seq<Seq<Pixel>>, y: int)
    requires
        is_first_ragged_row(rows, y),
    ensures
        first_ragged(rows) == y,
        !is_rectangular(rows),
{
    let chosen = first_ragged(rows);
    assert(is_first_ragged_row(rows, chosen));
    if chosen < y {
        assert(rows[chosen].len() == rows[0].len());
    } else if y < chosen {
        assert(rows[y].len() == rows[0].len());
    }
}

/// A row adds the bytes of its last pixel to those of the pixels before it.
pub proof fn lemma_row_rgb_push(row: Seq<Pixel>, pixel: Pixel)
    ensures
        row_rgb(row.push(pixel)) == row_rgb(row) + pixel_rgb(pixel),
{
    let bytes_of = |pixel: Pixel| pixel_rgb(pixel);
    assert(row.push(pixel).map_values(bytes_of) =~= row.map_values(bytes_of).push(
        pixel_rgb(pixel),
    ));
    row.map_values(bytes_of).lemma_flatten_push(pixel_rgb(pixel));
}

/// A grid adds the bytes of its last row to those of the rows above it.
pub proof fn lemma_grid_rgb_push(rows: Seq<Seq<Pixel>>, row: Seq<Pixel>)
    ensures
        grid_rgb(rows.push(row)) == grid_rgb(rows) + row_rgb(row),
{
    let bytes_of = |row: Seq<Pixel>| row_rgb(row);
    assert(rows.push(row).map_values(bytes_of) =~= rows.map_values(bytes_of).push(row_rgb(row)));
    rows.map_values(bytes_of).lemma_flatten_push(row_rgb(row));
}

/// A row is drawn from three bytes for each of its pixels.
pub proof fn lemma_row_rgb_len(row: Seq<Pixel>)
    ensures
        row_rgb(row).len() == 3 * row.len(),
    decreases row.len(),
{
    if row.len() == 0 {
        assert(row.map_values(|pixel: Pixel| pixel_rgb(pixel)) =~= Seq::empty());
    } else {
        lemma_row_rgb_len(row.drop_last());
        lemma_row_rgb_push(row.drop_last(), row.last());
        assert(row.drop_last().push(row.last()) =~= row);
    }
}

/// A grid is drawn from three bytes for each of its pixels.
pub proof fn lemma_grid_rgb_len(rows: Seq<Seq<Pixel>>)
    ensures
        grid_rgb(rows).len() == 3 * pixel_count(rows),
    decreases rows.len(),
{
    if rows.len() == 0 {
        assert(rows.map_values(|row: Seq<Pixel>| row_rgb(row)) =~= Seq::empty());
    } else {
        lemma_grid_rgb_len(rows.drop_last());
        lemma_grid_rgb_push(rows.drop_last(), rows.last());
        lemma_row_rgb_len(rows.last());
        assert(rows.drop_last().push(rows.last()) =~= rows);
    }
}

/// A rectangular grid has as many pixels as its height times its width.
pub proof fn lemma_rectangular_pixel_count(rows: Seq<Seq<Pixel>>)
    requires
        is_rectangular(rows),
        rows.len() > 0,
    ensures
        pixel_count(rows) == rows.len() * rows[0].len(),
    decreases rows.len(),
{
    let width = rows[0].len() as int;
    if rows.len() == 1 {
        assert(pixel_count(rows.drop_last()) == 0);
    } else {
        let above = rows.drop_last();
        assert(is_rectangular(above)) by {
            assert forall|y: int| 0 <= y < above.len() implies (#[trigger] above[y]).len()
                == above[0].len() by {
                assert(above[y] == rows[y]);
                assert(above[0] == rows[0]);
            }
        }
        lemma_rectangular_pixel_count(above);
        assert(above[0] == rows[0]);
        assert(rows.len() * width == (rows.len() - 1) * width + width) by (nonlinear_arith);
    }
}

/// The byte of channel `channel` (0 red, 1 green, 2 blue) of the pixel in
/// column `x` of row `y` stands at place `3 * (y * width + x) + channel`.
pub proof fn lemma_grid_rgb_index(rows: Seq<Seq<Pixel>>, y: int, x: int, channel: int)
    requires
        is_rectangular(rows),
        0 <= y < rows.len(),
        0 <= x < rows[0].len(),
        0 <= channel < 3,
    ensures
        0 <= 3 * (y * rows[0].len() + x) + channel < grid_rgb(rows).len(),
        grid_rgb(rows)[3 * (y * rows[0].len() + x) + channel] == pixel_rgb(rows[y][x])[channel],
    decreases rows.len(),
{
    let width = rows[0].len() as int;
    let above = rows.drop_last();
    let last = rows.last();
    assert(above.push(last) =~= rows);
    lemma_grid_rgb_push(above, last);
    lemma_grid_rgb_len(above);
    lemma_row_rgb_len(last);
    assert(last.len() == width);
    if above.len() > 0 {
        assert(is_rectangular(above)) by {
            assert forall|i: int| 0 <= i < above.len() implies (#[trigger] above[i]).len()
                == above[0].len() by {
                assert(above[i] == rows[i]);
                assert(above[0] == rows[0]);
            }
        }
        lemma_rectangular_pixel_count(above);
        assert(above[0] == rows[0]);
    } else {
        assert(pixel_count(above) == 0);
    }
    assert(pixel_count(above) == above.len() * width) by (nonlinear_arith)
        requires
            above.len() > 0 ==> pixel_count(above) == above.len() * width,
            above.len() == 0 ==> pixel_count(above) == 0,
    ;
    let place = 3 * (y * width + x) + channel;
    if y < above.len() {
        assert(y * width + x < above.len() * width) by (nonlinear_arith)
            requires
                0 <= y < above.len(),
                0 <= x < width,
        ;
        assert(y * width >= 0) by (nonlinear_arith)
            requires
                0 <= y,
                0 <= width,
        ;
        lemma_grid_rgb_index(above, y, x, channel);
        assert(above[y] == rows[y]);
    } else {
        assert(y * width == above.len() * width);
        lemma_row_rgb_index(last, x, channel);
        assert(grid_rgb(rows)[place] == row_rgb(last)[3 * x + channel]);
    }
}

/// The byte of channel `channel` of the pixel in column `x` of a row stands
/// at place `3 * x + channel` of the row's bytes.
pub proof fn lemma_row_rgb_index(row: Seq<Pixel>, x: int, channel: int)
    requires
        0 <= x < row.len(),
        0 <= channel < 3,
    ensures
        3 * x + channel < row_rgb(row).len(),
        row_rgb(row)[3 * x + channel] == pixel_rgb(row[x])[channel],
    decreases row.len(),
{
    let before = row.drop_last();
    assert(before.push(row.last()) =~= row);
    lemma_row_rgb_push(before, row.last());
    lemma_row_rgb_len(before);
    lemma_row_rgb_len(row);
    if x < before.len() {
        lemma_row_rgb_index(before, x, channel);
    }
}

/// The index of the first row whose length differs from that of the first
/// row, if there is one.
pub fn first_ragged_row(grid: &Vec<Vec<Pixel>>) -> (ragged: Option<usize>)
    ensures
        ragged is None <==> is_rectangular(grid_rows(grid@)),
        ragged matches Some(y) ==> is_first_ragged_row(grid_rows(grid@), y as int) && y
            == first_ragged(grid_rows(grid@)),
{
    if grid.len() == 0 {
        return None;
    }
    let width: usize = grid[0].len();
    let mut y: usize = 1;
    while y < grid.len()
        invariant
            1 <= y <= grid.len(),
            width == grid_rows(grid@)[0].len(),
            forall|above: int|
                0 <= above < y ==> (#[trigger] grid_rows(grid@)[above]).len() == width,
        decreases grid.len() - y,
    {
        if grid[y].len() != width {
            proof {
                assert(grid_rows(grid@)[y as int].len() != width);
                lemma_first_ragged_row_is_unique(grid_rows(grid@), y as int);
            }
            return Some(y);
        }
        y += 1;
    }
    None
}

/// The red, green and blue bytes of every pixel of a grid, row by row from
/// the top and within a row from the left.
pub fn rgb_data(grid: &Vec<Vec<Pixel>>) -> (data: Vec<u8>)
    ensures
        data@ == grid_rgb(grid_rows(grid@)),
{
    let ghost rows = grid_rows(grid@);
    let mut data: Vec<u8> = Vec::new();
    let mut y: usize = 0;
    proof {
        assert(rows.take(0) =~= Seq::empty());
        assert(rows.take(0).map_values(|row: Seq<Pixel>| row_rgb(row)) =~= Seq::empty());
    }
    while y < grid.len()
        invariant
            y <= grid.len(),
            rows == grid_rows(grid@),
            data@ == grid_rgb(rows.take(y as int)),
        decreases grid.len() - y,
    {
        let row = &grid[y];
        let ghost above = data@;
        let mut x: usize = 0;
        proof {
            assert(row@.take(0) =~= Seq::empty());
            assert(row@.take(0).map_values(|pixel: Pixel| pixel_rgb(pixel)) =~= Seq::empty());
        }
        while x < row.len()
            invariant
                x <= row.len(),
                data@ == above + row_rgb(row@.take(x as int)),
            decreases row.len() - x,
        {
            let pixel = &row[x];
            data.push(pixel.r);
            data.push(pixel.g);
            data.push(pixel.b);
            proof {
                lemma_row_rgb_push(row@.take(x as int), row@[x as int]);
                assert(row@.take(x as int).push(row@[x as int]) =~= row@.take(x + 1));
                assert(data@ =~= above + (row_rgb(row@.take(x as int)) + pixel_rgb(*pixel)));
            }
            x += 1;
        }
        proof {
            assert(row@.take(row.len() as int) =~= row@);
            lemma_grid_rgb_push(rows.take(y as int), row@);
            assert(rows.take(y as int).push(row@) =~= rows.take(y + 1));
        }
        y += 1;
    }
    proof {
        assert(rows.take(grid.len() as int) =~= rows);
    }
    data
}

} // verus!
