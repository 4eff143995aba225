//! What the library asks of the terminal.
//!
//! The library never writes to the terminal. Each operation returns a plan:
//! the commands that the caller performs, in order, stopping at the first
//! one that fails.

use vstd::prelude::*;

verus! {

/// One step to perform on the terminal.
#[derive(Debug, Clone, PartialEq, Eq)]
pub enum Command {
    /// Switch to the alternate screen.
    EnterAlternateScreen,
    /// Switch back from the alternate screen.
    LeaveAlternateScreen,
    /// Hide the cursor.
    HideCursor,
    /// Show the cursor.
    ShowCursor,
    /// Put the terminal into raw mode.
    EnableRawMode,
    /// Take the terminal out of raw mode.
    DisableRawMode,
    /// Start the reporting of mouse events.
    EnableMouseCapture,
    /// Stop the reporting of mouse events.
    DisableMouseCapture,
    /// Clear the whole display.
    ClearAll,
    /// Move the cursor to a column and a row.
    MoveTo(u16, u16),
    /// Write text at the cursor.
    Print(String),
    /// Send everything written so far to the terminal.
    Flush,
}

/// A command with its text as a sequence of characters.
pub enum CommandView {
    EnterAlternateScreen,
    LeaveAlternateScreen,
    HideCursor,
    ShowCursor,
    EnableRawMode,
    DisableRawMode,
    EnableMouseCapture,
    DisableMouseCapture,
    ClearAll,
    MoveTo(u16, u16),
    Print(Seq<char>),
    Flush,
}

impl View for Command {
    type V = CommandView;

    open spec fn view(&self) -> CommandView {
        match *self {
            Command::EnterAlternateScreen => CommandView::EnterAlternateScreen,
            Command::LeaveAlternateScreen => CommandView::LeaveAlternateScreen,
            Command::HideCursor => CommandView::HideCursor,
            Command::ShowCursor => CommandView::ShowCursor,
            Command::EnableRawMode => CommandView::EnableRawMode,
            Command::DisableRawMode => CommandView::DisableRawMode,
            Command::EnableMouseCapture => CommandView::EnableMouseCapture,
            Command::DisableMouseCapture => CommandView::DisableMouseCapture,
            Command::ClearAll => CommandView::ClearAll,
            Command::MoveTo(column, row) => CommandView::MoveTo(column, row),
            Command::Print(text) => CommandView::Print(text@),
            Command::Flush => CommandView::Flush,
        }
    }
}

/// A plan with the text of its commands as sequences of characters.
pub open spec fn plan_view(plan: Seq<Command>) -> Seq<CommandView> {
    plan.map_values(|command: Command| command@)
}

/// A command that is carried out at once: the command, then a flush.
pub open spec fn executed(command: CommandView) -> Seq<CommandView> {
    seq![command, CommandView::Flush]
}

/// Appends a command that is carried out at once.
pub fn push_executed(plan: &mut Vec<Command>, command: Command)
    ensures
        plan_view(final(plan)@) == plan_view(old(plan)@) + executed(command@),
{
    plan.push(command);
    plan.push(Command::Flush);
    assert(plan_view(plan@) =~= plan_view(old(plan)@) + executed(command@));
}

/// Appends a command that waits for the next flush.
pub fn push_queued(plan: &mut Vec<Command>, command: Command)
    ensures
        plan_view(final(plan)@) == plan_view(old(plan)@).push(command@),
{
    plan.push(command);
    assert(plan_view(plan@) =~= plan_view(old(plan)@).push(command@));
}

} // verus!
