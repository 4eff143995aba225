//! Input events in external coordinates.
//!
//! The terminal reports resizes and mouse positions in character rows. A
//! host draws in pixel rows, so every captured event is rewritten before it
//! is forwarded: a resize loses the rows of the log region and is doubled, a
//! mouse row is doubled, everything else passes through untouched.
//!
//! No event is refused. A resize to a terminal that is not taller than the
//! log region is reported with no rows, and a row whose double is beyond
//! `u16::MAX` is reported as `u16::MAX`.

use crate::geometry::{
    drawable_height, drawable_size, external_height, rows_above_log_region, saturated_row,
    saturating_external_row, LOGGING_WINDOW_HEIGHT,
};
use vstd::prelude::*;

verus! {

/// `crossterm::event::KeyEvent`, a key press as the terminal reported it.
/// Nothing is claimed of its contents: the library only hands it on.
#[verifier::external_type_specification]
#[verifier::external_body]
pub struct ExKeyEvent(crossterm::event::KeyEvent);

/// `crossterm::event::MouseEventKind`, what the mouse did (button, move,
/// scroll). Nothing is claimed of its contents: the library only hands it on.
#[verifier::external_type_specification]
#[verifier::external_body]
pub struct ExMouseEventKind(crossterm::event::MouseEventKind);

/// `crossterm::event::KeyModifiers`, the modifier keys held during an event.
/// Nothing is claimed of its contents: the library only hands it on.
#[verifier::external_type_specification]
#[verifier::external_body]
pub struct ExKeyModifiers(crossterm::event::KeyModifiers);

/// A mouse event: what happened, where, and under which modifier keys.
#[derive(Debug, Clone, Copy, PartialEq)]
pub struct MouseEvent {
    pub kind: crossterm::event::MouseEventKind,
    pub column: u16,
    pub row: u16,
    pub modifiers: crossterm::event::KeyModifiers,
}

/// An input event of the terminal.
#[derive(Debug, PartialEq)]
pub enum Event {
    /// The terminal gained focus.
    FocusGained,
    /// The terminal lost focus.
    FocusLost,
    /// A key was pressed.
    Key(crossterm::event::KeyEvent),
    /// The mouse moved, scrolled, or one of its buttons changed.
    Mouse(MouseEvent),
    /// Text was pasted into the terminal.
    Paste(String),
    /// The terminal was resized to this many columns and rows.
    Resize(u16, u16),
}

/// The rows of a resize event as a host sees them: the external height of
/// what the log region leaves, or `u16::MAX` where that does not fit.
pub open spec fn normalized_resize_rows(rows: u16) -> u16 {
    saturated_row(drawable_height(rows as int)) as u16
}

/// The row of a mouse event as a host sees it: its external height, or
/// `u16::MAX` where that does not fit.
pub open spec fn normalized_mouse_row(row: u16) -> u16 {
    saturated_row(external_height(row as int)) as u16
}

/// An event as a host sees it.
pub open spec fn normalized_event(event: Event) -> Event {
    match event {
        Event::Resize(columns, rows) => Event::Resize(columns, normalized_resize_rows(rows)),
        Event::Mouse(mouse_event) => Event::Mouse(
            MouseEvent { row: normalized_mouse_row(mouse_event.row), ..mouse_event },
        ),
        other => other,
    }
}

/// Rewrites a captured event from internal to external coordinates.
///
/// The rows of a resize become twice what the log region leaves of them,
/// the row of a mouse event becomes twice the row, and neither goes below
/// zero or beyond `u16::MAX`. Nothing else changes.
pub fn normalize_event_height(event: Event) -> (normalized: Event)
    ensures
        normalized == normalized_event(event),
{
    match event {
        Event::Resize(columns, rows) => {
            let rows = rows_above_log_region(rows);
            Event::Resize(columns, saturating_external_row(rows))
        },
        Event::Mouse(mouse_event) => {
            let mut mouse_event = mouse_event;
            mouse_event.row = saturating_external_row(mouse_event.row);
            Event::Mouse(mouse_event)
        },
        other => other,
    }
}

/// A resize to more rows than the log region takes is reported with twice
/// the rows that remain, and with its columns unchanged, as long as the
/// doubled height fits an event's row.
pub proof fn lemma_resize_is_doubled_remainder(columns: u16, rows: u16)
    requires
        rows > LOGGING_WINDOW_HEIGHT,
        2 * (rows - LOGGING_WINDOW_HEIGHT) <= u16::MAX,
    ensures
        normalized_event(Event::Resize(columns, rows)) == Event::Resize(
            columns,
            (2 * (rows - LOGGING_WINDOW_HEIGHT)) as u16,
        ),
{
}

/// A resize to no more rows than the log region takes is reported with no
/// rows at all, and with its columns unchanged.
pub proof fn lemma_resize_within_log_region_is_empty(columns: u16, rows: u16)
    requires
        rows <= LOGGING_WINDOW_HEIGHT,
    ensures
        normalized_event(Event::Resize(columns, rows)) == Event::Resize(columns, 0),
{
}

/// The size that a window reports for a terminal is the size that the
/// resize to that terminal is reported with, as long as the doubled height
/// fits an event's row.
pub proof fn lemma_size_agrees_with_resize(columns: u16, rows: u16)
    requires
        drawable_height(rows as int) <= u16::MAX,
    ensures
        normalized_event(Event::Resize(columns, rows)) matches Event::Resize(
            external_columns,
            external_rows,
        ) && drawable_size(columns, rows) == (external_columns as usize, external_rows as usize),
{
}

/// A mouse event is reported with its row doubled, as long as the doubled
/// row fits, and with every other field as it was.
pub proof fn lemma_mouse_row_is_doubled(mouse_event: MouseEvent)
    requires
        2 * mouse_event.row <= u16::MAX,
    ensures
        normalized_event(Event::Mouse(mouse_event)) matches Event::Mouse(normalized)
            && normalized.row == 2 * mouse_event.row
            && normalized.kind == mouse_event.kind
            && normalized.column == mouse_event.column
            && normalized.modifiers == mouse_event.modifiers,
{
}

/// An event that is neither a resize nor a mouse event is reported as it is.
pub proof fn lemma_other_events_pass_through(event: Event)
    requires
        !(event is Resize),
        !(event is Mouse),
    ensures
        normalized_event(event) == event,
{
}

} // verus!
