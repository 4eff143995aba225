//! From a grid of pixels to the plan that draws it.
//!
//! A grid without rows draws nothing. A grid whose rows differ in length is
//! refused, with the first row that differs from the first one. Every other
//! grid is flattened to its red, green and blue bytes, encoded as base64 and
//! framed in chunks.

use crate::command::{plan_view, Command, CommandView};
use crate::encoding::{base64_standard, encode_standard, encoded_len};
use crate::frame::{chunk_count, frame_commands, frame_plan, Placement};
use crate::pixel::{
    first_ragged, first_ragged_row, grid_rgb, grid_rows, is_rectangular, lemma_grid_rgb_len,
    lemma_rectangular_pixel_count, pixel_count, rgb_data, Pixel,
};
use crate::text::{append_decimal, decimal};
use vstd::prelude::*;
use vstd::string::StringExecFns;
use vstd::utf8::is_ascii_chars;

verus! {

/// Why a grid of pixels cannot be drawn.
#[derive(Debug, Clone, Copy, PartialEq, Eq)]
pub enum DrawError {
    /// Row `row` holds `found` pixels where the first row holds `expected`.
    RaggedGrid { row: usize, expected: usize, found: usize },
    /// The encoded payload of a grid of `width` by `height` pixels would be
    /// longer than `usize` can count.
    FrameTooLarge { width: usize, height: usize },
}

/// The text that describes an error.
pub open spec fn error_text(error: DrawError) -> Seq<char> {
    match error {
        DrawError::RaggedGrid { row, expected, found } => "row "@ + decimal(row as nat)
            + " of the pixel grid has "@ + decimal(found as nat)
            + " pixels, but the first row has "@ + decimal(expected as nat),
        DrawError::FrameTooLarge { width, height } => "a frame of "@ + decimal(width as nat)
            + " by "@ + decimal(height as nat) + " pixels is too large to encode"@,
    }
}

impl DrawError {
    /// A description of the error for a reader.
    pub fn message(&self) -> (text: String)
        ensures
            text@ == error_text(*self),
    {
        let mut text = String::new();
        match *self {
            DrawError::RaggedGrid { row, expected, found } => {
                text.append("row ");
                append_decimal(&mut text, row);
                text.append(" of the pixel grid has ");
                append_decimal(&mut text, found);
                text.append(" pixels, but the first row has ");
                append_decimal(&mut text, expected);
            },
            DrawError::FrameTooLarge { width, height } => {
                text.append("a frame of ");
                append_decimal(&mut text, width);
                text.append(" by ");
                append_decimal(&mut text, height);
                text.append(" pixels is too large to encode");
            },
        }
        assert(text@ =~= error_text(*self));
        text
    }
}

/// The number of characters in the encoded payload of a grid.
pub open spec fn payload_len(rows: Seq<Seq<Pixel>>) -> nat {
    encoded_len(grid_rgb(rows).len())
}

/// Whether the encoded payload of a grid has a length that fits `usize`.
/// Every grid that the machine's memory can hold meets this.
pub open spec fn frame_fits(rows: Seq<Seq<Pixel>>) -> bool {
    payload_len(rows) <= usize::MAX
}

/// The plan that draws a rectangular grid with at least one row at an
/// offset: the frame of its width and height, with the base64 text of its
/// bytes as the payload.
pub open spec fn grid_plan(rows: Seq<Seq<Pixel>>, offset: (isize, isize)) -> Seq<CommandView> {
    frame_plan(
        Placement { width: rows[0].len(), height: rows.len(), x: offset.0 as int, y: offset.1 as int },
        base64_standard(grid_rgb(rows)),
    )
}

/// What the encoder makes of a grid: nothing to do for a grid without rows;
/// for a grid whose rows differ in length, the first row that differs from
/// the first one; for a grid that is too large, its size; and for every
/// other grid the plan of its frame.
pub open spec fn encoded_frame(rows: Seq<Seq<Pixel>>, offset: (isize, isize)) -> Result<
    Seq<CommandView>,
    DrawError,
> {
    if rows.len() == 0 {
        Ok(Seq::empty())
    } else if !is_rectangular(rows) {
        Err(
            DrawError::RaggedGrid {
                row: first_ragged(rows) as usize,
                expected: rows[0].len() as usize,
                found: rows[first_ragged(rows)].len() as usize,
            },
        )
    } else if !frame_fits(rows) {
        Err(DrawError::FrameTooLarge { width: rows[0].len() as usize, height: rows.len() as usize })
    } else {
        Ok(grid_plan(rows, offset))
    }
}

/// The outcome of an operation with the text of its plan as sequences of
/// characters.
pub open spec fn outcome_view(outcome: Result<Vec<Command>, DrawError>) -> Result<
    Seq<CommandView>,
    DrawError,
> {
    match outcome {
        Ok(plan) => Ok(plan_view(plan@)),
        Err(error) => Err(error),
    }
}

/// The payload of a grid has four characters for each of its pixels: three
/// bytes a pixel make four characters a pixel.
pub proof fn lemma_payload_len_by_pixels(rows: Seq<Seq<Pixel>>)
    ensures
        payload_len(rows) == 4 * pixel_count(rows),
{
    lemma_grid_rgb_len(rows);
}

/// The payload of a rectangular grid has four characters for each pixel of
/// its height times its width.
pub proof fn lemma_payload_len_of_rectangle(rows: Seq<Seq<Pixel>>)
    requires
        is_rectangular(rows),
        rows.len() > 0,
    ensures
        payload_len(rows) == 4 * (rows.len() * rows[0].len()),
{
    lemma_payload_len_by_pixels(rows);
    lemma_rectangular_pixel_count(rows);
}

/// The length of the encoded payload of a frame of `width` by `height`
/// pixels, four characters a pixel, if `usize` can count it.
pub fn checked_payload_len(width: usize, height: usize) -> (len: Option<usize>)
    ensures
        len is Some <==> 4 * (height * width) <= usize::MAX,
        len matches Some(n) ==> n == 4 * (height * width),
{
    match height.checked_mul(width) {
        Some(pixels) => pixels.checked_mul(4),
        None => {
            assert(4 * (height * width) > usize::MAX) by (nonlinear_arith)
                requires
                    height * width > usize::MAX,
            ;
            None
        },
    }
}

/// Encodes a grid of pixels as the plan that draws it at an offset.
pub fn encode_frame(pixel_grid: &Vec<Vec<Pixel>>, offset: (isize, isize)) -> (outcome: Result<
    Vec<Command>,
    DrawError,
>)
    ensures
        outcome_view(outcome) == encoded_frame(grid_rows(pixel_grid@), offset),
        outcome is Ok <==> pixel_grid@.len() == 0 || (is_rectangular(grid_rows(pixel_grid@))
            && frame_fits(grid_rows(pixel_grid@))),
        pixel_grid@.len() == 0 ==> outcome is Ok && outcome->Ok_0@.len() == 0,
        pixel_grid@.len() > 0 && outcome is Ok ==> outcome->Ok_0@.len() == chunk_count(
            payload_len(grid_rows(pixel_grid@)),
        ) + 2,
        pixel_grid@.len() > 0 && outcome is Ok ==> base64_standard(
            grid_rgb(grid_rows(pixel_grid@)),
        ).len() == payload_len(grid_rows(pixel_grid@)) && is_ascii_chars(
            base64_standard(grid_rgb(grid_rows(pixel_grid@))),
        ),
{
    let ghost rows = grid_rows(pixel_grid@);
    if pixel_grid.len() == 0 {
        let plan: Vec<Command> = Vec::new();
        assert(plan_view(plan@) =~= Seq::empty());
        return Ok(plan);
    }
    let pixel_height: usize = pixel_grid.len();
    let pixel_width: usize = pixel_grid[0].len();
    match first_ragged_row(pixel_grid) {
        Some(row) => {
            return Err(
                DrawError::RaggedGrid {
                    row,
                    expected: pixel_width,
                    found: pixel_grid[row].len(),
                },
            );
        },
        None => {},
    }
    proof {
        lemma_payload_len_of_rectangle(rows);
    }
    if checked_payload_len(pixel_width, pixel_height).is_none() {
        return Err(DrawError::FrameTooLarge { width: pixel_width, height: pixel_height });
    }
    let data = rgb_data(pixel_grid);
    let encoded = encode_standard(&data);
    Ok(frame_commands(pixel_width, pixel_height, offset, encoded.as_str()))
}

} // verus!
