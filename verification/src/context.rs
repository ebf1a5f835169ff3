//! The fixed facts of one editing session and the arithmetic that places
//! the cursor and the end of the prompt on the screen.

use vstd::prelude::*;
use crate::buffer::LineBuffer;
use crate::scroll::ScrollState;

verus! {

/// What a session knows about its surroundings: the width of the prompt that
/// precedes the line, the size of the terminal, and how far the viewport has
/// scrolled.
#[derive(Clone, Copy, Debug, PartialEq, Eq)]
pub struct Context {
    /// The number of characters of the prompt.
    pub prompt_width: usize,
    /// The number of columns of the terminal.
    pub terminal_width: usize,
    /// The number of rows of the terminal.
    pub terminal_height: usize,
    /// How far the viewport has scrolled.
    pub scroll: ScrollState,
}

impl Context {
    /// The terminal has at least one column, its size is one that a terminal
    /// reports (each dimension fits 16 bits), and the scroll state is one
    /// that a terminal of this height can be in.
    pub open spec fn wf(&self) -> bool {
        &&& 1 <= self.terminal_width <= u16::MAX
        &&& self.terminal_height <= u16::MAX
        &&& self.scroll.wf(self.terminal_height as int)
    }

    /// The position in the drawn text, prompt included, of the character at
    /// `cursor` in the line.
    pub open spec fn true_index(&self, cursor: int) -> int {
        self.prompt_width + cursor
    }

    /// The screen column of the character at `cursor` in the line.
    pub open spec fn cursor_column(&self, cursor: int) -> int {
        self.true_index(cursor) % (self.terminal_width as int)
    }

    /// The screen row of the character at `cursor` in the line: its row in
    /// the wrapped text, moved by where the text's first row now stands. It is
    /// negative for a row that has left the screen at the top.
    pub open spec fn cursor_row(&self, cursor: int) -> int {
        self.true_index(cursor) / (self.terminal_width as int) + self.scroll.origin()
    }

    /// The screen column in which the prompt ends and the line begins.
    pub open spec fn prompt_end_column(&self) -> int {
        self.cursor_column(0)
    }

    /// The screen row from which the line is drawn: the row in which the
    /// prompt ends, or the top row once the prompt has left the screen.
    pub open spec fn prompt_end_row(&self) -> int {
        match self.scroll {
            ScrollState::ScrolledPastPrompt { .. } => 0,
            _ => self.cursor_row(0),
        }
    }

    /// `row` is one of the terminal's rows.
    pub open spec fn on_screen(&self, row: int) -> bool {
        0 <= row < self.terminal_height
    }

    /// The character at `cursor` stands on the screen.
    pub open spec fn shows_cursor(&self, cursor: int) -> bool {
        self.on_screen(self.cursor_row(cursor))
    }

    /// The row from which the line is drawn is on the screen.
    pub open spec fn shows_prompt_end(&self) -> bool {
        self.on_screen(self.prompt_end_row())
    }

    /// The context of a session that starts, unscrolled, with a prompt of
    /// `prompt_width` characters printed on row `y_origin` of a terminal of
    /// `terminal_width` columns and `terminal_height` rows.
    pub fn new(
        prompt_width: usize,
        terminal_width: u16,
        terminal_height: u16,
        y_origin: u16,
    ) -> (ctx: Context)
        requires
            terminal_width >= 1,
            y_origin <= terminal_height,
        ensures
            ctx.wf(),
            ctx.prompt_width == prompt_width,
            ctx.terminal_width == terminal_width,
            ctx.terminal_height == terminal_height,
            ctx.scroll == (ScrollState::Unscrolled { y_origin: y_origin as usize }),
    {
        Context {
            prompt_width,
            terminal_width: terminal_width as usize,
            terminal_height: terminal_height as usize,
            scroll: ScrollState::new(y_origin as usize),
        }
    }

    /// The context of a session that starts, unscrolled, behind `prompt`
    /// printed on row `y_origin`: the prompt's width is the number of its
    /// characters.
    pub fn for_prompt(
        prompt: &str,
        terminal_width: u16,
        terminal_height: u16,
        y_origin: u16,
    ) -> (ctx: Context)
        requires
            terminal_width >= 1,
            y_origin <= terminal_height,
        ensures
            ctx.wf(),
            ctx.prompt_width == prompt@.len(),
            ctx.terminal_width == terminal_width,
            ctx.terminal_height == terminal_height,
            ctx.scroll == (ScrollState::Unscrolled { y_origin: y_origin as usize }),
    {
        Context::new(prompt.unicode_len(), terminal_width, terminal_height, y_origin)
    }
}

/// The position of the cursor in the drawn text, prompt included.
pub fn true_index(ctx: &Context, line: &LineBuffer) -> (index: usize)
    requires
        ctx.prompt_width + line@.cursor <= usize::MAX,
    ensures
        index == ctx.true_index(line@.cursor as int),
{
    ctx.prompt_width + line.cursor()
}

/// Whether the cursor stands on the screen, so that `cursor_y_coord` and
/// `cursor_coord` may be called.
pub fn cursor_on_screen(ctx: &Context, line: &LineBuffer) -> (shown: bool)
    requires
        ctx.wf(),
        ctx.prompt_width + line@.cursor <= usize::MAX,
    ensures
        shown == ctx.shows_cursor(line@.cursor as int),
{
    let base: usize = true_index(ctx, line) / ctx.terminal_width;
    match ctx.scroll {
        ScrollState::Unscrolled { y_origin } => base < ctx.terminal_height - y_origin,
        ScrollState::Scrolled { y_origin, scroll } => {
            base < ctx.terminal_height - (y_origin - scroll)
        },
        ScrollState::ScrolledPastPrompt { scroll } => {
            base >= scroll && base - scroll < ctx.terminal_height
        },
    }
}

/// Whether the row from which the line is drawn is on the screen, so that
/// `prompt_end_y_coord` and `prompt_end_coord` may be called.
pub fn prompt_end_on_screen(ctx: &Context) -> (shown: bool)
    requires
        ctx.wf(),
    ensures
        shown == ctx.shows_prompt_end(),
{
    let base: usize = ctx.prompt_width / ctx.terminal_width;
    match ctx.scroll {
        ScrollState::Unscrolled { y_origin } => base < ctx.terminal_height - y_origin,
        ScrollState::Scrolled { y_origin, scroll } => {
            base < ctx.terminal_height - (y_origin - scroll)
        },
        ScrollState::ScrolledPastPrompt { .. } => 0 < ctx.terminal_height,
    }
}

/// The screen coordinates of the cursor, column first. They are right once
/// the scroll state has been brought up to date with the line.
pub fn cursor_coord(ctx: &Context, line: &LineBuffer) -> (coord: (u16, u16))
    requires
        ctx.wf(),
        ctx.prompt_width + line@.cursor <= usize::MAX,
        ctx.shows_cursor(line@.cursor as int),
    ensures
        coord.0 == ctx.cursor_column(line@.cursor as int),
        coord.1 == ctx.cursor_row(line@.cursor as int),
        coord.0 < ctx.terminal_width,
        coord.1 < ctx.terminal_height,
{
    (cursor_x_coord(ctx, line), cursor_y_coord(ctx, line))
}

/// The screen coordinates, column first, of the cell from which the line is
/// drawn.
pub fn prompt_end_coord(ctx: &Context) -> (coord: (u16, u16))
    requires
        ctx.wf(),
        ctx.shows_prompt_end(),
    ensures
        coord.0 == ctx.prompt_end_column(),
        coord.1 == ctx.prompt_end_row(),
        coord.0 < ctx.terminal_width,
        coord.1 < ctx.terminal_height,
{
    (prompt_end_x_coord(ctx), prompt_end_y_coord(ctx))
}

/// The screen column of the cursor.
pub fn cursor_x_coord(ctx: &Context, line: &LineBuffer) -> (x: u16)
    requires
        ctx.wf(),
        ctx.prompt_width + line@.cursor <= usize::MAX,
    ensures
        x == ctx.cursor_column(line@.cursor as int),
        x < ctx.terminal_width,
{
    let x: usize = (ctx.prompt_width + line.cursor()) % ctx.terminal_width;
    x as u16
}

/// The screen row of the cursor.
pub fn cursor_y_coord(ctx: &Context, line: &LineBuffer) -> (y: u16)
    requires
        ctx.wf(),
        ctx.prompt_width + line@.cursor <= usize::MAX,
        ctx.shows_cursor(line@.cursor as int),
    ensures
        y == ctx.cursor_row(line@.cursor as int),
        y < ctx.terminal_height,
{
    let base: usize = true_index(ctx, line) / ctx.terminal_width;
    let y: usize = match ctx.scroll {
        ScrollState::Unscrolled { y_origin } => base + y_origin,
        ScrollState::Scrolled { y_origin, scroll } => base + y_origin - scroll,
        ScrollState::ScrolledPastPrompt { scroll } => base - scroll,
    };
    y as u16
}

/// The screen column in which the prompt ends.
pub fn prompt_end_x_coord(ctx: &Context) -> (x: u16)
    requires
        ctx.wf(),
    ensures
        x == ctx.prompt_end_column(),
        x < ctx.terminal_width,
{
    let x: usize = ctx.prompt_width % ctx.terminal_width;
    x as u16
}

/// The screen row from which the line is drawn.
pub fn prompt_end_y_coord(ctx: &Context) -> (y: u16)
    requires
        ctx.wf(),
        ctx.shows_prompt_end(),
    ensures
        y == ctx.prompt_end_row(),
        y < ctx.terminal_height,
{
    let base: usize = ctx.prompt_width / ctx.terminal_width;
    let y: usize = match ctx.scroll {
        ScrollState::Unscrolled { y_origin } => base + y_origin,
        ScrollState::Scrolled { y_origin, scroll } => base + (y_origin - scroll),
        ScrollState::ScrolledPastPrompt { scroll: _ } => 0,
    };
    y as u16
}

} // verus!
