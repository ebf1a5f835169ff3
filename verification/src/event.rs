//! Input events and what the editor does with each of them.

use vstd::prelude::*;
use crate::buffer::{Line, LineBuffer};
use crate::context::{cursor_coord, cursor_on_screen, Context};
use crate::screen::{screen_ready, update_screen, Frame};

verus! {

/// The keys that the editor tells apart.
#[derive(Clone, Copy, Debug, PartialEq, Eq)]
pub enum KeyCode {
    Char(char),
    Backspace,
    Delete,
    Left,
    Right,
    Enter,
    /// Any other key.
    Other,
}

/// The modifier keys held down while a key was pressed. `other` stands for
/// any modifier besides shift, control and alt.
#[derive(Clone, Copy, Debug, PartialEq, Eq)]
pub struct Modifiers {
    pub shift: bool,
    pub control: bool,
    pub alt: bool,
    pub other: bool,
}

/// One event from the terminal.
#[derive(Clone, Copy, Debug, PartialEq, Eq)]
pub enum InputEvent {
    Key { code: KeyCode, modifiers: Modifiers },
    Mouse,
    Resize,
    FocusGained,
    FocusLost,
    Paste,
}

/// What an event asks the editor to do.
#[derive(Clone, Copy, Debug, PartialEq, Eq)]
pub enum Command {
    /// Type a character.
    Insert(char),
    /// Put the debug marker in at the cursor.
    InsertMarker,
    Backspace,
    Delete,
    Left,
    Right,
    /// Hand the line in.
    Submit,
    /// Do nothing.
    Ignore,
}

/// Why the editor stops.
#[derive(Clone, Copy, Debug, PartialEq, Eq)]
pub enum Fault {
    /// A key was pressed with modifiers that the editor has no use for.
    UnsupportedKey,
    /// The terminal reported a mouse event.
    Mouse,
    /// The terminal was resized.
    Resize,
    /// Text was pasted as a whole.
    Paste,
    /// The line cannot be drawn: the viewport cannot follow it, or the
    /// cursor, or the cell from which the line is painted, is off the screen.
    OffScreen,
}

/// What the host has to do after an event.
#[derive(Debug, PartialEq, Eq)]
pub enum Action {
    /// Nothing.
    Ignore,
    /// End the session: the line is complete.
    Submit,
    /// Put the cursor on this cell.
    MoveCursor { column: u16, row: u16 },
    /// Draw this frame.
    Redraw(Frame),
}

/// The text that the debug shortcut puts in.
pub open spec fn marker() -> Seq<char> {
    "DEBUG "@
}

/// The debug marker spelled out: five letters and a space.
pub proof fn lemma_marker_spelled_out()
    ensures
        marker() == seq!['D', 'E', 'B', 'U', 'G', ' '],
        marker().len() == 6,
{
    reveal_strlit("DEBUG ");
    assert(marker() =~= seq!['D', 'E', 'B', 'U', 'G', ' ']);
}

impl Modifiers {
    /// No modifier is held.
    pub open spec fn is_none(self) -> bool {
        !self.shift && !self.control && !self.alt && !self.other
    }

    /// Shift is held and nothing else.
    pub open spec fn is_shift(self) -> bool {
        self.shift && !self.control && !self.alt && !self.other
    }
}

impl Command {
    /// The command adds to the line.
    pub open spec fn grows(self) -> bool {
        self is Insert || self is InsertMarker
    }

    /// The command changes the text of the line.
    pub open spec fn edits(self) -> bool {
        self.grows() || self is Backspace || self is Delete
    }

    /// The command moves the cursor and leaves the text alone.
    pub open spec fn moves(self) -> bool {
        self is Left || self is Right
    }

    /// The line after the command.
    pub open spec fn apply(self, line: Line) -> Line {
        match self {
            Command::Insert(c) => line.insert(c),
            Command::InsertMarker => line.insert_str(marker()),
            Command::Backspace => line.backspace(),
            Command::Delete => line.delete(),
            Command::Left => line.left(),
            Command::Right => line.right(),
            Command::Submit => line,
            Command::Ignore => line,
        }
    }
}

impl Fault {
    /// The diagnostic that goes with the fault.
    pub open spec fn spec_message(self) -> Seq<char> {
        match self {
            Fault::UnsupportedKey => "UNSUPPORTED KEY COMBINATION"@,
            Fault::Mouse => "MOUSE CAPTURE SHOULD BE DISABLED"@,
            Fault::Resize => "RESIZING IS NOT SUPPORTED YET"@,
            Fault::Paste => "BRACKETED PASTE SHOULD BE DISABLED"@,
            Fault::OffScreen => "THE LINE CANNOT BE DRAWN ON THE SCREEN"@,
        }
    }

    /// The diagnostic that goes with the fault.
    pub fn message(self) -> (text: &'static str)
        ensures
            text@ == self.spec_message(),
    {
        match self {
            Fault::UnsupportedKey => "UNSUPPORTED KEY COMBINATION",
            Fault::Mouse => "MOUSE CAPTURE SHOULD BE DISABLED",
            Fault::Resize => "RESIZING IS NOT SUPPORTED YET",
            Fault::Paste => "BRACKETED PASTE SHOULD BE DISABLED",
            Fault::OffScreen => "THE LINE CANNOT BE DRAWN ON THE SCREEN",
        }
    }
}

impl InputEvent {
    /// What the event asks for, or the fault that it is. Keys without a
    /// modifier edit, move or submit; shift types a character or, with the
    /// right arrow, puts in the debug marker; a change of focus is ignored;
    /// everything else is a fault.
    pub open spec fn spec_command(self) -> Result<Command, Fault> {
        match self {
            InputEvent::Key { code, modifiers } => {
                if modifiers.is_none() {
                    Ok(
                        match code {
                            KeyCode::Char(c) => Command::Insert(c),
                            KeyCode::Backspace => Command::Backspace,
                            KeyCode::Delete => Command::Delete,
                            KeyCode::Left => Command::Left,
                            KeyCode::Right => Command::Right,
                            KeyCode::Enter => Command::Submit,
                            KeyCode::Other => Command::Ignore,
                        },
                    )
                } else if modifiers.is_shift() {
                    match code {
                        KeyCode::Char(c) => Ok(Command::Insert(c)),
                        KeyCode::Right => Ok(Command::InsertMarker),
                        _ => Err(Fault::UnsupportedKey),
                    }
                } else {
                    Err(Fault::UnsupportedKey)
                }
            },
            InputEvent::Mouse => Err(Fault::Mouse),
            InputEvent::Resize => Err(Fault::Resize),
            InputEvent::FocusGained => Ok(Command::Ignore),
            InputEvent::FocusLost => Ok(Command::Ignore),
            InputEvent::Paste => Err(Fault::Paste),
        }
    }

    /// The number of characters that the event adds to the line.
    pub open spec fn growth(self) -> nat {
        match self.spec_command() {
            Ok(Command::Insert(_)) => 1,
            Ok(Command::InsertMarker) => marker().len(),
            _ => 0,
        }
    }

    /// What the event asks for, or the fault that it is.
    pub fn command(self) -> (command: Result<Command, Fault>)
        ensures
            command == self.spec_command(),
    {
        match self {
            InputEvent::Key { code, modifiers } => {
                let plain = !modifiers.control && !modifiers.alt && !modifiers.other;
                if plain && !modifiers.shift {
                    match code {
                        KeyCode::Char(c) => Ok(Command::Insert(c)),
                        KeyCode::Backspace => Ok(Command::Backspace),
                        KeyCode::Delete => Ok(Command::Delete),
                        KeyCode::Left => Ok(Command::Left),
                        KeyCode::Right => Ok(Command::Right),
                        KeyCode::Enter => Ok(Command::Submit),
                        KeyCode::Other => Ok(Command::Ignore),
                    }
                } else if plain {
                    match code {
                        KeyCode::Char(c) => Ok(Command::Insert(c)),
                        KeyCode::Right => Ok(Command::InsertMarker),
                        _ => Err(Fault::UnsupportedKey),
                    }
                } else {
                    Err(Fault::UnsupportedKey)
                }
            },
            InputEvent::Mouse => Err(Fault::Mouse),
            InputEvent::Resize => Err(Fault::Resize),
            InputEvent::FocusGained => Ok(Command::Ignore),
            InputEvent::FocusLost => Ok(Command::Ignore),
            InputEvent::Paste => Err(Fault::Paste),
        }
    }
}

/// The editor can answer `command` with an action once the command has made
/// `line` of the line: after an edit the line can be drawn, the viewport
/// following it first if the line grew, and after a move the cursor is on the
/// screen. The other commands can always be answered.
pub open spec fn answerable(command: Command, before: Context, line: Line) -> bool {
    &&& command.edits() ==> before.can_draw(line, command.grows())
    &&& command.moves() ==> before.shows_cursor(line.cursor as int)
}

/// The context after `command` has made `line` of the line: the viewport has
/// followed a line that grew and can be drawn; in every other case the context
/// is as it was.
pub open spec fn context_after(command: Command, before: Context, line: Line) -> Context {
    if command.grows() && before.can_draw(line, true) {
        before.scrolled_for(line)
    } else {
        before
    }
}

/// The editor's answer to `command`, once the command has made `line` of the
/// line: `before` and `after` are the context around it, `outcome` is what
/// the host is told.
///
/// After an edit the host is told to draw the line, after a move to place the
/// cursor, each with coordinates on the terminal; `Submit` and `Ignore` are
/// handed on. Where the line cannot be drawn or the cursor not placed, the
/// outcome is `Fault::OffScreen`.
pub open spec fn responds(
    command: Command,
    before: Context,
    line: Line,
    after: Context,
    outcome: Result<Action, Fault>,
) -> bool {
    &&& after == context_after(command, before, line)
    &&& if !answerable(command, before, line) {
        outcome == Err::<Action, Fault>(Fault::OffScreen)
    } else if command.edits() {
        &&& outcome matches Ok(Action::Redraw(frame))
        &&& frame.draws(
            after,
            line,
            if command.grows() {
                before.rows_pushed_for(line)
            } else {
                0
            },
        )
        &&& frame.within(after)
    } else if command.moves() {
        &&& outcome matches Ok(Action::MoveCursor { column, row })
        &&& column == after.cursor_column(line.cursor as int)
        &&& row == after.cursor_row(line.cursor as int)
        &&& column < after.terminal_width
        &&& row < after.terminal_height
    } else {
        outcome == Ok::<Action, Fault>(
            if command is Submit {
                Action::Submit
            } else {
                Action::Ignore
            },
        )
    }
}

/// Draws the line if it can be drawn, the viewport following it first where
/// `scroll` is set.
pub fn try_update_screen(
    ctx: &mut Context,
    line: &LineBuffer,
    scroll: bool,
) -> (outcome: Result<Action, Fault>)
    requires
        old(ctx).wf(),
        line@.wf(),
        old(ctx).has_room(line@),
    ensures
        final(ctx).wf(),
        old(ctx).can_draw(line@, scroll) ==> {
            &&& *final(ctx) == old(ctx).prepared(line@, scroll)
            &&& outcome matches Ok(Action::Redraw(frame))
            &&& frame.draws(
                *final(ctx),
                line@,
                if scroll {
                    old(ctx).rows_pushed_for(line@)
                } else {
                    0
                },
            )
            &&& frame.within(*final(ctx))
        },
        !old(ctx).can_draw(line@, scroll) ==> {
            &&& *final(ctx) == *old(ctx)
            &&& outcome == Err::<Action, Fault>(Fault::OffScreen)
        },
{
    if screen_ready(ctx, line, scroll) {
        Ok(Action::Redraw(update_screen(ctx, line, scroll)))
    } else {
        Err(Fault::OffScreen)
    }
}

/// Places the cursor if it is on the screen.
pub fn try_move_cursor(ctx: &Context, line: &LineBuffer) -> (outcome: Result<Action, Fault>)
    requires
        ctx.wf(),
        ctx.prompt_width + line@.cursor <= usize::MAX,
    ensures
        ctx.shows_cursor(line@.cursor as int) ==> {
            &&& outcome matches Ok(Action::MoveCursor { column, row })
            &&& column == ctx.cursor_column(line@.cursor as int)
            &&& row == ctx.cursor_row(line@.cursor as int)
            &&& column < ctx.terminal_width
            &&& row < ctx.terminal_height
        },
        !ctx.shows_cursor(line@.cursor as int) ==> outcome == Err::<Action, Fault>(
            Fault::OffScreen,
        ),
{
    if cursor_on_screen(ctx, line) {
        let (column, row) = cursor_coord(ctx, line);
        Ok(Action::MoveCursor { column, row })
    } else {
        Err(Fault::OffScreen)
    }
}

/// Whether the counters have room for what `event` adds to the line, so
/// that `handle` may be called.
pub fn has_room_for(ctx: &Context, line: &LineBuffer, event: InputEvent) -> (room: bool)
    ensures
        room == (ctx.prompt_width + line@.width() + event.growth() + 1 <= usize::MAX),
{
    let growth: usize = match event.command() {
        Ok(Command::Insert(_)) => 1,
        Ok(Command::InsertMarker) => {
            proof {
                lemma_marker_spelled_out();
            }
            6
        },
        _ => 0,
    };
    match ctx.prompt_width.checked_add(line.width()) {
        Some(width) => match width.checked_add(growth) {
            Some(grown) => grown < usize::MAX,
            None => false,
        },
        None => false,
    }
}

/// Takes one event: changes the line as the event asks, lets the viewport
/// follow, and tells the host what to do next. A fault ends the session.
pub fn handle(
    ctx: &mut Context,
    line: &mut LineBuffer,
    event: InputEvent,
) -> (outcome: Result<Action, Fault>)
    requires
        old(ctx).wf(),
        old(line)@.wf(),
        old(ctx).prompt_width + old(line)@.width() + event.growth() + 1 <= usize::MAX,
    ensures
        final(ctx).wf(),
        final(line)@.wf(),
        match event.spec_command() {
            Ok(command) => {
                &&& final(line)@ == command.apply(old(line)@)
                &&& responds(command, *old(ctx), final(line)@, *final(ctx), outcome)
            },
            Err(fault) => {
                &&& final(line)@ == old(line)@
                &&& *final(ctx) == *old(ctx)
                &&& outcome == Err::<Action, Fault>(fault)
            },
        },
{
    let command = match event.command() {
        Ok(command) => command,
        Err(fault) => {
            return Err(fault);
        },
    };
    match command {
        Command::Insert(c) => {
            line.insert(c);
            try_update_screen(ctx, line, true)
        },
        Command::InsertMarker => {
            proof {
                reveal_strlit("DEBUG ");
            }
            line.insert_str("DEBUG ");
            try_update_screen(ctx, line, true)
        },
        Command::Backspace => {
            line.backspace();
            try_update_screen(ctx, line, false)
        },
        Command::Delete => {
            line.delete();
            try_update_screen(ctx, line, false)
        },
        Command::Left => {
            line.left();
            try_move_cursor(ctx, line)
        },
        Command::Right => {
            line.right();
            try_move_cursor(ctx, line)
        },
        Command::Submit => Ok(Action::Submit),
        Command::Ignore => Ok(Action::Ignore),
    }
}

} // verus!
