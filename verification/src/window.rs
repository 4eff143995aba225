//! The window: what a host holds to draw frames, log lines and show help.
//!
//! A window owns the log queue, the labels of the semantics overlay, the
//! buffer of the last frame and the switches of the display. It performs no
//! input or output itself: where the terminal has to change, an operation
//! returns the plan of commands that does it.

use crate::command::{executed, plan_view, push_executed, push_queued, Command, CommandView};
use crate::encoder::{
    encode_frame, encoded_frame, frame_fits, outcome_view, payload_len, DrawError,
};
use crate::frame::chunk_count;
use crate::geometry::{drawable_size, size_for_terminal, LOGGING_WINDOW_HEIGHT};
use crate::encoding::base64_standard;
use crate::pixel::{grid_rgb, grid_rows, is_rectangular, Pixel, TerminalCell};
use std::collections::{HashMap, VecDeque};
use vstd::prelude::*;
use vstd::std_specs::hash::group_hash_axioms;
use vstd::utf8::is_ascii_chars;

verus! {

/// What a window holds, as plain mathematical values.
pub struct WindowView {
    /// No escape sequences are written, and log lines go to standard output.
    pub simple_output: bool,
    /// The window lives on the terminal's alternate screen.
    pub alternate_screen: bool,
    /// The help overlay is on the display.
    pub showing_help: bool,
    /// Events are logged as they arrive.
    pub log_events: bool,
    /// The cells of the frame that the display is known to show, row by row.
    pub lines: Seq<Seq<TerminalCell>>,
    /// The lines of the log region, oldest first.
    pub logs: Seq<Seq<char>>,
    /// The labels of the semantics overlay by their external position.
    pub semantics: Map<(usize, usize), Seq<char>>,
}

/// The labels that a list of positions and labels stands for. Where a
/// position occurs more than once, its last label counts.
pub open spec fn labels_of(label_positions: Seq<((usize, usize), String)>) -> Map<
    (usize, usize),
    Seq<char>,
>
    decreases label_positions.len(),
{
    if label_positions.len() == 0 {
        Map::empty()
    } else {
        labels_of(label_positions.drop_last()).insert(
            label_positions.last().0,
            label_positions.last().1@,
        )
    }
}

/// The log queue after one more line: the line is added at the end, and the
/// oldest line leaves first where the queue is full.
pub open spec fn logs_after(logs: Seq<Seq<char>>, message: Seq<char>) -> Seq<Seq<char>> {
    if logs.len() >= LOGGING_WINDOW_HEIGHT {
        logs.skip(1).push(message)
    } else {
        logs.push(message)
    }
}

/// What `draw` returns for a window and a grid: nothing to do with simple
/// output or under the help overlay, and otherwise what the encoder makes of
/// the grid.
pub open spec fn drawn(window: WindowView, rows: Seq<Seq<Pixel>>, offset: (isize, isize)) -> Result<
    Seq<CommandView>,
    DrawError,
> {
    if window.simple_output || window.showing_help {
        Ok(Seq::empty())
    } else {
        encoded_frame(rows, offset)
    }
}

/// The lines of the help overlay with the rows that they are written on:
/// every second row from the top, so that a free row follows each line.
pub open spec fn help_lines() -> Seq<(u16, Seq<char>)> {
    seq![
        (0u16, "Ctrl + r: Reset the viewport."@),
        (2u16, "Ctrl + 5: Increase the pixel ratio."@),
        (4u16, "Ctrl + 4: Decrease the pixel ratio."@),
        (6u16, "Ctrl + Mouse Scroll: Zoom in / out."@),
        (
            8u16,
            "Ctrl + Mouse Click and Drag: Pan the viewport. Some terminals might not allow this."@,
        ),
        (10u16, "Ctrl + z: Show semantic labels (very experimental and jank)."@),
        (12u16, "?: Toggle help."@),
        (
            14u16,
            "Tips: Changing the current terminal emulator's text size will make things look a lot better. "@,
        ),
        (16u16, "But the code is suboptimal and it might lead to more jank."@),
    ]
}

/// The commands that write the first `count` lines of the help overlay: for
/// each line the cursor to the start of its row, then its text.
pub open spec fn help_text_plan(count: nat) -> Seq<CommandView>
    recommends
        count <= help_lines().len(),
    decreases count,
{
    if count == 0 {
        Seq::empty()
    } else {
        help_text_plan((count - 1) as nat) + seq![
            CommandView::MoveTo(0, help_lines()[count - 1].0),
            CommandView::Print(help_lines()[count - 1].1),
        ]
    }
}

/// The plan of a toggle of the help overlay: the display is cleared at once;
/// where the overlay is now shown, its lines are written and flushed.
pub open spec fn toggle_plan(showing_help: bool) -> Seq<CommandView> {
    if showing_help {
        executed(CommandView::ClearAll) + help_text_plan(help_lines().len()) + seq![
            CommandView::Flush,
        ]
    } else {
        executed(CommandView::ClearAll)
    }
}

/// The help overlay has nine lines, each on an even row: line `index` is on
/// row `2 * index`, so the rows rise from the top with a free row after each.
pub proof fn lemma_help_lines_are_on_even_rows(index: int)
    requires
        0 <= index < help_lines().len(),
    ensures
        help_lines().len() == 9,
        help_lines()[index].0 == 2 * index,
        help_lines()[index].0 % 2 == 0,
        index > 0 ==> help_lines()[index].0 >= help_lines()[index - 1].0 + 2,
        help_lines()[0].1 == "Ctrl + r: Reset the viewport."@,
        help_lines()[6].1 == "?: Toggle help."@,
{
}

/// The plan that shows the help overlay clears the display first, then
/// writes each line at the start of its even row, and ends with one flush.
pub proof fn lemma_help_plan_layout(index: int)
    requires
        0 <= index < help_lines().len(),
    ensures
        toggle_plan(true).len() == 21,
        toggle_plan(true)[0] == CommandView::ClearAll,
        toggle_plan(true)[1] == CommandView::Flush,
        toggle_plan(true)[2 + 2 * index] == CommandView::MoveTo(0, (2 * index) as u16),
        toggle_plan(true)[3 + 2 * index] == CommandView::Print(help_lines()[index].1),
        toggle_plan(true)[20] == CommandView::Flush,
        toggle_plan(false) == seq![CommandView::ClearAll, CommandView::Flush],
{
    reveal_with_fuel(help_text_plan, 10);
    assert(toggle_plan(false) =~= seq![CommandView::ClearAll, CommandView::Flush]);
}

/// The plan that prepares the terminal for a window.
pub open spec fn setup_plan(simple_output: bool, alternate_screen: bool) -> Seq<CommandView> {
    if simple_output {
        Seq::empty()
    } else {
        (if alternate_screen {
            executed(CommandView::EnterAlternateScreen)
        } else {
            Seq::empty()
        }) + executed(CommandView::HideCursor) + seq![CommandView::EnableRawMode] + executed(
            CommandView::EnableMouseCapture,
        )
    }
}

/// The plan that gives the terminal back: the steps of `setup_plan` undone
/// and a line feed, so that what is written next starts on a line of its own.
pub open spec fn teardown_plan(simple_output: bool, alternate_screen: bool) -> Seq<CommandView> {
    if simple_output {
        Seq::empty()
    } else {
        executed(CommandView::DisableMouseCapture) + seq![CommandView::DisableRawMode] + executed(
            CommandView::ShowCursor,
        ) + (if alternate_screen {
            executed(CommandView::LeaveAlternateScreen)
        } else {
            Seq::empty()
        }) + executed(CommandView::Print("\n"@))
    }
}

/// The key under which the label of an external position is stored: the
/// two coordinates side by side, 64 bits each.
spec fn position_key(position: (usize, usize)) -> u128 {
    (position.0 * 0x1_0000_0000_0000_0000 + position.1) as u128
}

/// The labels by position, given the labels by key.
spec fn labels_by_position(by_key: Map<u128, String>) -> Map<(usize, usize), Seq<char>> {
    Map::new(
        |position: (usize, usize)| by_key.contains_key(position_key(position)),
        |position: (usize, usize)| by_key[position_key(position)]@,
    )
}

/// Whether a key is that of some external position.
spec fn is_position_key(key: u128) -> bool {
    key / 0x1_0000_0000_0000_0000 <= usize::MAX && key % 0x1_0000_0000_0000_0000 <= usize::MAX
}

/// The external position that a key stands for.
spec fn position_of(key: u128) -> (usize, usize) {
    ((key / 0x1_0000_0000_0000_0000) as usize, (key % 0x1_0000_0000_0000_0000) as usize)
}

/// The key under which the label of an external position is stored.
fn key_of(position: (usize, usize)) -> (key: u128)
    ensures
        key == position_key(position),
{
    (position.0 as u128) * 0x1_0000_0000_0000_0000u128 + (position.1 as u128)
}

/// Different positions have different keys.
proof fn lemma_position_key_is_injective(a: (usize, usize), b: (usize, usize))
    requires
        position_key(a) == position_key(b),
    ensures
        a == b,
{
}

/// The key of a position stands for a position, and is the key of that one.
proof fn lemma_position_of_key(key: u128)
    requires
        is_position_key(key),
    ensures
        position_key(position_of(key)) == key,
{
    let high = key / 0x1_0000_0000_0000_0000;
    let low = key % 0x1_0000_0000_0000_0000;
    assert(key == high * 0x1_0000_0000_0000_0000 + low);
}

/// The state of the display in a terminal.
pub struct TerminalWindow {
    lines: Vec<Vec<TerminalCell>>,
    logs: VecDeque<String>,
    // Positions of labels are in external coordinates, packed into one key.
    semantics: HashMap<u128, String>,
    // Switches for debugging.
    simple_output: bool,
    alternate_screen: bool,
    showing_help: bool,
    log_events: bool,
}

impl View for TerminalWindow {
    type V = WindowView;

    closed spec fn view(&self) -> WindowView {
        WindowView {
            simple_output: self.simple_output,
            alternate_screen: self.alternate_screen,
            showing_help: self.showing_help,
            log_events: self.log_events,
            lines: self.lines@.map_values(|row: Vec<TerminalCell>| row@),
            logs: self.logs@.map_values(|line: String| line@),
            semantics: labels_by_position(self.semantics@),
        }
    }
}

impl TerminalWindow {
    /// The log queue never holds more lines than the log region has rows,
    /// and every label is stored under the key of a position.
    #[verifier::type_invariant]
    spec fn is_well_formed(&self) -> bool {
        &&& self.logs@.len() <= LOGGING_WINDOW_HEIGHT
        &&& forall|key: u128| self.semantics@.contains_key(key) ==> is_position_key(key)
    }

    /// A window with the given switches: no help shown, nothing logged, no
    /// labels, and no frame on the display.
    pub fn new(simple_output: bool, alternate_screen: bool, log_events: bool) -> (window: Self)
        ensures
            window@ == (WindowView {
                simple_output,
                alternate_screen,
                showing_help: false,
                log_events,
                lines: Seq::empty(),
                logs: Seq::empty(),
                semantics: Map::empty(),
            }),
    {
        broadcast use group_hash_axioms;

        let window = TerminalWindow {
            lines: Vec::new(),
            logs: VecDeque::new(),
            semantics: HashMap::new(),
            simple_output,
            alternate_screen,
            showing_help: false,
            log_events,
        };
        assert(window@.lines =~= Seq::empty());
        assert(window@.logs =~= Seq::empty());
        assert(window@.semantics =~= Map::empty());
        window
    }

    /// Adds a line to the log.
    ///
    /// With simple output the line is handed back to be written to standard
    /// output, and the queue is left alone. Otherwise it joins the queue,
    /// from which the oldest line leaves first if the queue is full.
    pub fn log(&mut self, message: String) -> (to_stdout: Option<String>)
        ensures
            old(self)@.simple_output ==> to_stdout == Some(message) && final(self)@ == old(self)@,
            !old(self)@.simple_output ==> to_stdout is None && final(self)@ == (WindowView {
                logs: logs_after(old(self)@.logs, message@),
                ..old(self)@
            }),
            final(self)@.logs.len() <= LOGGING_WINDOW_HEIGHT,
            !old(self)@.simple_output && old(self)@.logs.len() == LOGGING_WINDOW_HEIGHT ==> {
                &&& final(self)@.logs.len() == LOGGING_WINDOW_HEIGHT
                &&& final(self)@.logs == old(self)@.logs.skip(1).push(message@)
            },
    {
        proof {
            use_type_invariant(&*self);
        }
        if self.simple_output {
            return Some(message);
        }
        let ghost view_of = |line: String| line@;
        // The queue is worked on outside the window and put back when it is
        // within its bound again.
        let mut logs: VecDeque<String> = VecDeque::new();
        std::mem::swap(&mut self.logs, &mut logs);
        if logs.len() == LOGGING_WINDOW_HEIGHT {
            logs.pop_front();
            assert(logs@.map_values(view_of) =~= old(self).logs@.map_values(view_of).skip(1));
        }
        logs.push_back(message);
        self.logs = logs;
        assert(self@.logs =~= logs_after(old(self)@.logs, message@));
        None
    }

    /// Forgets the frame that the display was known to show, so that the
    /// next frame is drawn in full.
    pub fn mark_dirty(&mut self)
        ensures
            final(self)@ == (WindowView { lines: Seq::empty(), ..old(self)@ }),
    {
        proof {
            use_type_invariant(&*self);
        }
        self.lines = Vec::new();
        assert(self@.lines =~= Seq::empty());
    }

    /// The plan that prepares the terminal for this window. With simple
    /// output the terminal is left as it is.
    pub fn setup_commands(&self) -> (plan: Vec<Command>)
        ensures
            plan_view(plan@) == setup_plan(self@.simple_output, self@.alternate_screen),
    {
        let mut plan: Vec<Command> = Vec::new();
        assert(plan_view(plan@) =~= Seq::empty());
        if !self.simple_output {
            if self.alternate_screen {
                // The window is drawn on a buffer of its own.
                push_executed(&mut plan, Command::EnterAlternateScreen);
            }
            push_executed(&mut plan, Command::HideCursor);
            push_queued(&mut plan, Command::EnableRawMode);
            push_executed(&mut plan, Command::EnableMouseCapture);
            assert(plan_view(plan@) =~= setup_plan(self@.simple_output, self@.alternate_screen));
        }
        plan
    }

    /// The plan that gives the terminal back when the window goes away.
    /// With simple output there is nothing to give back.
    pub fn teardown_commands(&self) -> (plan: Vec<Command>)
        ensures
            plan_view(plan@) == teardown_plan(self@.simple_output, self@.alternate_screen),
    {
        let mut plan: Vec<Command> = Vec::new();
        assert(plan_view(plan@) =~= Seq::empty());
        if !self.simple_output {
            push_executed(&mut plan, Command::DisableMouseCapture);
            push_queued(&mut plan, Command::DisableRawMode);
            push_executed(&mut plan, Command::ShowCursor);
            if self.alternate_screen {
                push_executed(&mut plan, Command::LeaveAlternateScreen);
            }
            // A line feed, so that what is written next starts on a new line.
            push_executed(&mut plan, Command::Print("\n".to_owned()));
            assert(plan_view(plan@) =~= teardown_plan(
                self@.simple_output,
                self@.alternate_screen,
            ));
        }
        plan
    }

    /// The resolution of the terminal in pixels. It is fixed: the terminal
    /// is not asked.
    pub fn resolution(&self) -> (resolution: (usize, usize))
        ensures
            resolution == (400usize, 400usize),
    {
        (400, 400)
    }

    /// The size of the pixel grid that a host has to draw for a terminal of
    /// `columns` by `rows` characters: the columns as they are, and twice the
    /// rows that the log region leaves.
    pub fn size(&self, columns: u16, rows: u16) -> (size: (usize, usize))
        ensures
            size == drawable_size(columns, rows),
    {
        size_for_terminal(columns, rows)
    }

    /// Replaces the labels of the semantics overlay by those of the list.
    /// Where a position occurs more than once, its last label counts.
    pub fn update_semantics(&mut self, label_positions: Vec<((usize, usize), String)>)
        ensures
            final(self)@ == (WindowView {
                semantics: labels_of(label_positions@),
                ..old(self)@
            }),
            label_positions@.len() == 0 ==> final(self)@.semantics == Map::<
                (usize, usize),
                Seq<char>,
            >::empty(),
    {
        broadcast use group_hash_axioms;

        proof {
            use_type_invariant(&*self);
        }
        let mut labels: HashMap<u128, String> = HashMap::new();
        let mut i: usize = 0;
        proof {
            assert(label_positions@.take(0) =~= Seq::empty());
            assert(labels_by_position(labels@) =~= Map::empty());
        }
        while i < label_positions.len()
            invariant
                i <= label_positions.len(),
                labels_by_position(labels@) == labels_of(label_positions@.take(i as int)),
                forall|key: u128| labels@.contains_key(key) ==> is_position_key(key),
            decreases label_positions.len() - i,
        {
            let position: (usize, usize) = label_positions[i].0;
            let label: String = label_positions[i].1.clone();
            let ghost before = labels@;
            labels.insert(key_of(position), label);
            proof {
                assert(label_positions@.take(i + 1).drop_last() =~= label_positions@.take(
                    i as int,
                ));
                assert forall|other: (usize, usize)|
                    position_key(other) == position_key(position) implies other == position by {
                    lemma_position_key_is_injective(other, position);
                }
                assert(labels_by_position(labels@) =~= labels_by_position(before).insert(
                    position,
                    label@,
                ));
            }
            i += 1;
        }
        proof {
            assert(label_positions@.take(label_positions.len() as int) =~= label_positions@);
        }
        self.semantics = labels;
    }

    /// Draws a grid of pixels at an offset.
    ///
    /// Nothing is drawn with simple output, while the help overlay is on the
    /// display, or for a grid without rows. A grid whose rows differ in
    /// length is refused. For every other grid the plan moves the cursor to
    /// the origin, prints the frame's escape sequences and flushes once.
    pub fn draw(&self, pixel_grid: Vec<Vec<Pixel>>, offset: (isize, isize)) -> (outcome: Result<
        Vec<Command>,
        DrawError,
    >)
        ensures
            outcome_view(outcome) == drawn(self@, grid_rows(pixel_grid@), offset),
            self@.simple_output || self@.showing_help || pixel_grid@.len() == 0 ==> outcome is Ok
                && outcome->Ok_0@.len() == 0,
            outcome is Err ==> !self@.simple_output && !self@.showing_help && pixel_grid@.len() > 0
                && !(is_rectangular(grid_rows(pixel_grid@)) && frame_fits(grid_rows(pixel_grid@))),
            !self@.simple_output && !self@.showing_help && pixel_grid@.len() > 0 && outcome is Ok
                ==> outcome->Ok_0@.len() == chunk_count(payload_len(grid_rows(pixel_grid@))) + 2,
            !self@.simple_output && !self@.showing_help && pixel_grid@.len() > 0 && outcome is Ok
                ==> base64_standard(grid_rgb(grid_rows(pixel_grid@))).len() == payload_len(
                grid_rows(pixel_grid@),
            ) && is_ascii_chars(base64_standard(grid_rgb(grid_rows(pixel_grid@)))),
    {
        if self.simple_output {
            let plan: Vec<Command> = Vec::new();
            assert(plan_view(plan@) =~= Seq::empty());
            return Ok(plan);
        }
        if self.showing_help {
            let plan: Vec<Command> = Vec::new();
            assert(plan_view(plan@) =~= Seq::empty());
            return Ok(plan);
        }
        encode_frame(&pixel_grid, offset)
    }

    /// Shows the help overlay, or takes it off the display again.
    ///
    /// The display is cleared at once and the frame on it forgotten. Where
    /// the overlay is now shown, its lines are written and flushed.
    pub fn toggle_show_help(&mut self) -> (plan: Vec<Command>)
        ensures
            final(self)@ == (WindowView {
                showing_help: !old(self)@.showing_help,
                lines: Seq::empty(),
                ..old(self)@
            }),
            plan_view(plan@) == toggle_plan(final(self)@.showing_help),
    {
        proof {
            use_type_invariant(&*self);
        }
        self.showing_help = !self.showing_help;
        let mut plan: Vec<Command> = Vec::new();
        assert(plan_view(plan@) =~= Seq::empty());
        push_executed(&mut plan, Command::ClearAll);
        self.mark_dirty();
        if self.showing_help {
            proof {
                reveal_with_fuel(help_text_plan, 10);
            }
            push_help_line(&mut plan, 0, "Ctrl + r: Reset the viewport.");
            push_help_line(&mut plan, 2, "Ctrl + 5: Increase the pixel ratio.");
            push_help_line(&mut plan, 4, "Ctrl + 4: Decrease the pixel ratio.");
            push_help_line(&mut plan, 6, "Ctrl + Mouse Scroll: Zoom in / out.");
            push_help_line(
                &mut plan,
                8,
                "Ctrl + Mouse Click and Drag: Pan the viewport. Some terminals might not allow this.",
            );
            push_help_line(
                &mut plan,
                10,
                "Ctrl + z: Show semantic labels (very experimental and jank).",
            );
            push_help_line(&mut plan, 12, "?: Toggle help.");
            push_help_line(
                &mut plan,
                14,
                "Tips: Changing the current terminal emulator's text size will make things look a lot better. ",
            );
            push_help_line(
                &mut plan,
                16,
                "But the code is suboptimal and it might lead to more jank.",
            );
            push_queued(&mut plan, Command::Flush);
            assert(plan_view(plan@) =~= toggle_plan(true));
        }
        plan
    }

    /// Whether no escape sequences are written and log lines go to standard
    /// output.
    pub fn simple_output(&self) -> (on: bool)
        ensures
            on == self@.simple_output,
    {
        self.simple_output
    }

    /// Whether the window lives on the terminal's alternate screen.
    pub fn alternate_screen(&self) -> (on: bool)
        ensures
            on == self@.alternate_screen,
    {
        self.alternate_screen
    }

    /// Whether the help overlay is on the display.
    pub fn showing_help(&self) -> (on: bool)
        ensures
            on == self@.showing_help,
    {
        self.showing_help
    }

    /// Whether events are logged as they arrive.
    pub fn log_events(&self) -> (on: bool)
        ensures
            on == self@.log_events,
    {
        self.log_events
    }

    /// Whether no frame is known to be on the display, so that the next one
    /// is drawn in full.
    pub fn is_dirty(&self) -> (dirty: bool)
        ensures
            dirty == (self@.lines.len() == 0),
    {
        self.lines.is_empty()
    }

    /// The lines of the log region, oldest first.
    pub fn logs(&self) -> (lines: Vec<String>)
        ensures
            lines@.map_values(|line: String| line@) == self@.logs,
            lines@.len() <= LOGGING_WINDOW_HEIGHT,
    {
        proof {
            use_type_invariant(self);
        }
        let ghost view_of = |line: String| line@;
        let mut lines: Vec<String> = Vec::new();
        let mut i: usize = 0;
        while i < self.logs.len()
            invariant
                i <= self.logs@.len(),
                view_of == |line: String| line@,
                lines@.map_values(view_of) == self.logs@.take(i as int).map_values(view_of),
            decreases self.logs@.len() - i,
        {
            let line: String = self.logs[i].clone();
            let ghost copied = lines@;
            lines.push(line);
            assert(lines@.map_values(view_of) =~= copied.map_values(view_of).push(line@));
            assert(self.logs@.take(i + 1).map_values(view_of) =~= self.logs@.take(
                i as int,
            ).map_values(view_of).push(self.logs@[i as int]@));
            i += 1;
        }
        assert(self.logs@.take(self.logs@.len() as int) =~= self.logs@);
        lines
    }

    /// The label of the semantics overlay at an external position, if there
    /// is one.
    pub fn semantic_label(&self, position: (usize, usize)) -> (label: Option<String>)
        ensures
            label is Some <==> self@.semantics.contains_key(position),
            label matches Some(text) ==> text@ == self@.semantics[position],
    {
        broadcast use group_hash_axioms;

        let key = key_of(position);
        match self.semantics.get(&key) {
            Some(text) => Some(text.clone()),
            None => None,
        }
    }

    /// Whether the semantics overlay has no labels.
    pub fn semantics_is_empty(&self) -> (empty: bool)
        ensures
            empty == (self@.semantics == Map::<(usize, usize), Seq<char>>::empty()),
    {
        proof {
            use_type_invariant(self);
        }
        let empty = self.semantics.is_empty();
        proof {
            if empty {
                assert(self@.semantics =~= Map::empty());
            } else {
                let key = choose|key: u128| self.semantics@.contains_key(key);
                assert(self.semantics@.contains_key(key));
                lemma_position_of_key(key);
                assert(self@.semantics.contains_key(position_of(key)));
            }
        }
        empty
    }
}

/// Appends the two commands that write one line of the help overlay.
fn push_help_line(plan: &mut Vec<Command>, row: u16, text: &str)
    ensures
        plan_view(final(plan)@) == plan_view(old(plan)@) + seq![
            CommandView::MoveTo(0, row),
            CommandView::Print(text@),
        ],
{
    push_queued(plan, Command::MoveTo(0, row));
    push_queued(plan, Command::Print(text.to_owned()));
    assert(plan_view(plan@) =~= plan_view(old(plan)@) + seq![
        CommandView::MoveTo(0, row),
        CommandView::Print(text@),
    ]);
}

} // verus!
