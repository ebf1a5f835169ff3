//! What has to be drawn after an edit: how far to scroll, where the cursor
//! goes, and which part of the line to paint from where.

use vstd::prelude::*;
use crate::buffer::{Line, LineBuffer};
use crate::context::{cursor_coord, cursor_on_screen, prompt_end_coord, prompt_end_on_screen, Context};

verus! {

/// One redraw of the line, for a terminal to carry out in this order: scroll
/// the terminal up by `push_rows` rows, put the cursor at `cursor`, and
/// repaint from `draw_start` to the end of the screen with `text`, leaving
/// the cursor where it was put. Coordinates give the column first.
#[derive(Debug, PartialEq, Eq)]
pub struct Frame {
    pub push_rows: usize,
    pub cursor: (u16, u16),
    pub draw_start: (u16, u16),
    pub text: String,
}

impl Frame {
    /// The frame is the one that draws `line` in the context `ctx` after
    /// `push_rows` rows were pushed to reach it.
    pub open spec fn draws(&self, ctx: Context, line: Line, push_rows: int) -> bool {
        &&& self.push_rows == push_rows
        &&& self.cursor.0 == ctx.cursor_column(line.cursor as int)
        &&& self.cursor.1 == ctx.cursor_row(line.cursor as int)
        &&& self.draw_start.0 == ctx.prompt_end_column()
        &&& self.draw_start.1 == ctx.prompt_end_row()
        &&& self.text@ == line.segment(ctx.scroll, ctx.terminal_width as int)
    }

    /// Every coordinate of the frame is a cell of the terminal of `ctx`.
    pub open spec fn within(&self, ctx: Context) -> bool {
        &&& self.cursor.0 < ctx.terminal_width
        &&& self.cursor.1 < ctx.terminal_height
        &&& self.draw_start.0 < ctx.terminal_width
        &&& self.draw_start.1 < ctx.terminal_height
    }
}

impl Context {
    /// The number of rows that the prompt and `line` occupy on this terminal.
    pub open spec fn height_of(&self, line: Line) -> int {
        line.height(self.prompt_width as int, self.terminal_width as int)
    }

    /// The width of the prompt and of `line`, and the cursor's cell behind
    /// them, can be counted in a `usize`.
    pub open spec fn has_room(&self, line: Line) -> bool {
        self.prompt_width + line.width() + 1 <= usize::MAX
    }

    /// The rows between the first row of the text and the bottom of the
    /// terminal are enough for the prompt and `line`.
    pub open spec fn covers(&self, line: Line) -> bool {
        self.height_of(line) <= self.scroll.capacity(self.terminal_height as int)
    }

    /// The context after the viewport has followed `line`.
    pub open spec fn scrolled_for(&self, line: Line) -> Context {
        Context {
            prompt_width: self.prompt_width,
            terminal_width: self.terminal_width,
            terminal_height: self.terminal_height,
            scroll: self.scroll.spec_advance(self.height_of(line), self.terminal_height as int),
        }
    }

    /// The number of rows that the terminal is scrolled by when the viewport
    /// follows `line`.
    pub open spec fn rows_pushed_for(&self, line: Line) -> int {
        self.scroll.overrun(self.height_of(line), self.terminal_height as int)
    }

    /// The context in which `line` is drawn: after the viewport has followed
    /// the line where `scroll` asks for that, unchanged where it does not.
    pub open spec fn prepared(&self, line: Line, scroll: bool) -> Context {
        if scroll {
            self.scrolled_for(line)
        } else {
            *self
        }
    }

    /// `line` can be drawn: the viewport can follow it where `scroll` asks
    /// for that, and then both the cursor and the cell from which the line is
    /// painted are on the screen.
    pub open spec fn can_draw(&self, line: Line, scroll: bool) -> bool {
        &&& scroll ==> self.scroll.admits(self.height_of(line), self.terminal_height as int)
        &&& self.prepared(line, scroll).shows_cursor(line.cursor as int)
        &&& self.prepared(line, scroll).shows_prompt_end()
    }
}

/// Lets the viewport follow a line that may have grown. Returns the number
/// of rows by which the terminal has to be scrolled up; the context already
/// counts them as scrolled.
pub fn update_scroll(ctx: &mut Context, line: &LineBuffer) -> (rows: usize)
    requires
        old(ctx).terminal_width >= 1,
        old(ctx).has_room(line@),
        old(ctx).scroll.admits(old(ctx).height_of(line@), old(ctx).terminal_height as int),
    ensures
        *final(ctx) == old(ctx).scrolled_for(line@),
        rows == old(ctx).rows_pushed_for(line@),
        final(ctx).scroll.fits(old(ctx).height_of(line@), old(ctx).terminal_height as int),
{
    let lines: usize = line.height(ctx);
    let (next, rows) = ctx.scroll.advance(lines, ctx.terminal_height);
    ctx.scroll = next;
    rows
}

/// Whether `update_screen` may be called: whether the line can be drawn.
pub fn screen_ready(ctx: &Context, line: &LineBuffer, scroll: bool) -> (ready: bool)
    requires
        ctx.wf(),
        line@.wf(),
        ctx.has_room(line@),
    ensures
        ready == ctx.can_draw(line@, scroll),
{
    let mut next: Context = *ctx;
    if scroll {
        if !ctx.scroll.can_advance(line.height(ctx), ctx.terminal_height) {
            return false;
        }
        let _ = update_scroll(&mut next, line);
    }
    cursor_on_screen(&next, line) && prompt_end_on_screen(&next)
}

/// Brings the screen up to date with the line after an edit: lets the
/// viewport follow the line if `scroll` is set, then works out where the
/// cursor goes and what is painted from where.
pub fn update_screen(ctx: &mut Context, line: &LineBuffer, scroll: bool) -> (frame: Frame)
    requires
        old(ctx).wf(),
        line@.wf(),
        old(ctx).has_room(line@),
        old(ctx).can_draw(line@, scroll),
    ensures
        *final(ctx) == old(ctx).prepared(line@, scroll),
        final(ctx).wf(),
        frame.draws(*final(ctx), line@, if scroll { old(ctx).rows_pushed_for(line@) } else { 0 }),
        frame.within(*final(ctx)),
{
    let push_rows: usize = if scroll {
        update_scroll(ctx, line)
    } else {
        0
    };
    let cursor = cursor_coord(ctx, line);
    let draw_start = prompt_end_coord(ctx);
    let text = line.segment(ctx.scroll, ctx.terminal_width);
    Frame { push_rows, cursor, draw_start, text }
}

} // verus!
