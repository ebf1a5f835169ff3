//! What holds of a session from event to event: when the line is on the
//! screen, and which events keep it there.

use vstd::prelude::*;
use crate::arith::{lemma_ceil_div_bounds, lemma_ceil_div_monotone, lemma_ceil_div_succ};
use crate::buffer::Line;
use crate::context::Context;
use crate::event::{answerable, context_after, Command};
use crate::scroll::{
    lemma_advance_fits, lemma_advance_monotone, lemma_advance_origin, lemma_precedes_transitive,
};

verus! {

/// The line after each of `commands` in turn.
pub open spec fn apply_all(line: Line, commands: Seq<Command>) -> Line
    decreases commands.len(),
{
    if commands.len() == 0 {
        line
    } else {
        apply_all(commands[0].apply(line), commands.drop_first())
    }
}

/// No command takes the cursor out of the line.
pub proof fn lemma_command_keeps_cursor_in_line(line: Line, command: Command)
    requires
        line.wf(),
    ensures
        command.apply(line).wf(),
        command.moves() ==> command.apply(line).content == line.content,
{
}

/// Whatever the sequence of commands, the cursor stays between the start of
/// the line and the position behind its last character; a sequence of moves
/// to the left and to the right leaves the text as it was.
pub proof fn lemma_cursor_stays_in_line(line: Line, commands: Seq<Command>)
    requires
        line.wf(),
    ensures
        apply_all(line, commands).wf(),
        0 <= apply_all(line, commands).cursor <= apply_all(line, commands).width(),
        (forall|i: int| 0 <= i < commands.len() ==> commands[i].moves()) ==> apply_all(
            line,
            commands,
        ).content == line.content,
    decreases commands.len(),
{
    if commands.len() > 0 {
        let rest = commands.drop_first();
        lemma_command_keeps_cursor_in_line(line, commands[0]);
        lemma_cursor_stays_in_line(commands[0].apply(line), rest);
        if forall|i: int| 0 <= i < commands.len() ==> commands[i].moves() {
            assert forall|i: int| 0 <= i < rest.len() implies rest[i].moves() by {
                assert(rest[i] == commands[i + 1]);
            }
        }
    }
}

/// The row of the wrapped text in which the cursor stands is none before the
/// row in which the prompt ends and none behind the last row of the text;
/// behind the last character it is the last row.
proof fn lemma_cursor_row_in_text(ctx: Context, line: Line)
    requires
        ctx.terminal_width >= 1,
        line.wf(),
    ensures
        0 <= ctx.true_index(0) / (ctx.terminal_width as int),
        ctx.true_index(0) / (ctx.terminal_width as int) <= ctx.true_index(line.cursor as int) / (
        ctx.terminal_width as int),
        ctx.true_index(line.cursor as int) / (ctx.terminal_width as int) <= ctx.height_of(line) - 1,
        ctx.true_index(line.content.len() as int) / (ctx.terminal_width as int) == ctx.height_of(
            line,
        ) - 1,
        1 <= ctx.height_of(line) <= ctx.prompt_width + line.content.len() + 1,
{
    let p = ctx.prompt_width as int;
    let w = ctx.terminal_width as int;
    let c = line.cursor as int;
    let n = line.content.len() as int;
    lemma_ceil_div_succ(p + n, w);
    lemma_ceil_div_bounds(p + n + 1, w);
    assert(0 <= p / w <= (p + c) / w <= (p + n) / w) by (nonlinear_arith)
        requires
            w >= 1,
            0 <= p,
            0 <= c <= n,
    ;
}

/// While the rows from the first row of the text to the bottom of the
/// terminal are enough for the prompt and the line, the cursor and the cell
/// from which the line is painted are on the screen, unless the cursor's row
/// has left the screen at the top. That can happen only once the prompt has
/// left the screen.
pub proof fn lemma_covered_line_is_on_screen(ctx: Context, line: Line)
    requires
        ctx.wf(),
        line.wf(),
        ctx.covers(line),
        ctx.scroll is ScrolledPastPrompt ==> ctx.cursor_row(line.cursor as int) >= 0,
    ensures
        ctx.shows_cursor(line.cursor as int),
        ctx.shows_prompt_end(),
        0 <= ctx.cursor_column(line.cursor as int) < ctx.terminal_width,
        0 <= ctx.prompt_end_column() < ctx.terminal_width,
{
    lemma_cursor_row_in_text(ctx, line);
    let w = ctx.terminal_width as int;
    let t = ctx.true_index(line.cursor as int);
    let p = ctx.prompt_width as int;
    assert(0 <= t % w < w && 0 <= p % w < w) by (nonlinear_arith)
        requires
            w >= 1,
    ;
}

/// A command that is answered with an action never makes a covered line
/// uncovered: the rows from the first row of the text down are enough for
/// the line after it too, and the scroll state has not gone back.
pub proof fn lemma_line_stays_covered(command: Command, before: Context, line: Line)
    requires
        before.wf(),
        line.wf(),
        before.covers(line),
        before.has_room(command.apply(line)),
        answerable(command, before, command.apply(line)),
    ensures
        context_after(command, before, command.apply(line)).wf(),
        command.apply(line).wf(),
        context_after(command, before, command.apply(line)).covers(command.apply(line)),
        before.scroll.precedes(context_after(command, before, command.apply(line)).scroll),
{
    let edited = command.apply(line);
    let p = before.prompt_width as int;
    let w = before.terminal_width as int;
    let h = before.terminal_height as int;
    lemma_ceil_div_bounds(p + edited.content.len() + 1, w);
    if command.grows() {
        lemma_advance_fits(before.scroll, before.height_of(edited), h);
        lemma_advance_monotone(before.scroll, before.height_of(edited), h);
    } else {
        lemma_ceil_div_monotone(p + edited.content.len() + 1, p + line.content.len() + 1, w);
    }
}

/// While the prompt is on the screen every command is answered with an
/// action: if the line is covered before the command and the prompt has not
/// left the screen once the viewport has followed the changed line, the line
/// can be drawn and the cursor placed.
pub proof fn lemma_answerable_while_prompt_shown(command: Command, before: Context, line: Line)
    requires
        before.wf(),
        line.wf(),
        before.covers(line),
        before.has_room(command.apply(line)),
        !(before.prepared(command.apply(line), command.grows()).scroll is ScrolledPastPrompt),
    ensures
        answerable(command, before, command.apply(line)),
{
    let edited = command.apply(line);
    let p = before.prompt_width as int;
    let w = before.terminal_width as int;
    let h = before.terminal_height as int;
    let target = before.prepared(edited, command.grows());
    lemma_ceil_div_bounds(p + edited.content.len() + 1, w);
    if command.grows() {
        lemma_advance_monotone(before.scroll, before.height_of(edited), h);
        lemma_advance_origin(before.scroll, before.height_of(edited), h);
        lemma_advance_fits(before.scroll, before.height_of(edited), h);
    } else {
        lemma_ceil_div_monotone(p + edited.content.len() + 1, p + line.content.len() + 1, w);
    }
    lemma_covered_line_is_on_screen(target, edited);
}

/// Typing at the end of the line is always answered with a frame: if the
/// line fits its viewport, the cursor stands behind the last character and
/// the terminal has a row, then after a character or the debug marker was put
/// in the line can be drawn, it fits the viewport that followed it, and the
/// cursor stands behind the last character again.
pub proof fn lemma_typing_at_end_is_drawn(command: Command, before: Context, line: Line)
    requires
        before.wf(),
        line.wf(),
        before.terminal_height >= 1,
        before.scroll.fits(before.height_of(line), before.terminal_height as int),
        before.has_room(command.apply(line)),
        line.cursor == line.content.len(),
        command.grows(),
    ensures
        answerable(command, before, command.apply(line)),
        context_after(command, before, command.apply(line)).wf(),
        context_after(command, before, command.apply(line)).scroll.fits(
            before.height_of(command.apply(line)),
            before.terminal_height as int,
        ),
        command.apply(line).wf(),
        command.apply(line).cursor == command.apply(line).content.len(),
        command.apply(line).content.len() >= line.content.len(),
{
    let edited = command.apply(line);
    let p = before.prompt_width as int;
    let w = before.terminal_width as int;
    let h = before.terminal_height as int;
    let target = before.scrolled_for(edited);
    lemma_ceil_div_monotone(p + line.content.len() + 1, p + edited.content.len() + 1, w);
    lemma_ceil_div_bounds(p + edited.content.len() + 1, w);
    lemma_advance_origin(before.scroll, before.height_of(edited), h);
    lemma_advance_fits(before.scroll, before.height_of(edited), h);
    lemma_cursor_row_in_text(target, edited);
    lemma_covered_line_is_on_screen(target, edited);
}

/// Every one of `commands` in turn finds room for the line it makes and is
/// answered with an action.
pub open spec fn session_answered(ctx: Context, line: Line, commands: Seq<Command>) -> bool
    decreases commands.len(),
{
    commands.len() > 0 ==> {
        let edited = commands[0].apply(line);
        &&& ctx.has_room(edited)
        &&& answerable(commands[0], ctx, edited)
        &&& session_answered(
            context_after(commands[0], ctx, edited),
            edited,
            commands.drop_first(),
        )
    }
}

/// The context after each of `commands` in turn.
pub open spec fn session_context(ctx: Context, line: Line, commands: Seq<Command>) -> Context
    decreases commands.len(),
{
    if commands.len() == 0 {
        ctx
    } else {
        let edited = commands[0].apply(line);
        session_context(context_after(commands[0], ctx, edited), edited, commands.drop_first())
    }
}

/// Through a whole session a covered line stays covered and the scroll state
/// never goes back: whatever commands were answered with actions, the rows
/// from the first row of the text down are enough for the line at the end,
/// the state has kept its variant or moved on to a later one, and within one
/// variant its `scroll` has not decreased.
pub proof fn lemma_session_keeps_line_covered(ctx: Context, line: Line, commands: Seq<Command>)
    requires
        ctx.wf(),
        line.wf(),
        ctx.covers(line),
        session_answered(ctx, line, commands),
    ensures
        session_context(ctx, line, commands).wf(),
        session_context(ctx, line, commands).covers(apply_all(line, commands)),
        ctx.scroll.precedes(session_context(ctx, line, commands).scroll),
    decreases commands.len(),
{
    if commands.len() > 0 {
        let edited = commands[0].apply(line);
        let next = context_after(commands[0], ctx, edited);
        lemma_line_stays_covered(commands[0], ctx, line);
        lemma_session_keeps_line_covered(next, edited, commands.drop_first());
        lemma_precedes_transitive(
            ctx.scroll,
            next.scroll,
            session_context(ctx, line, commands).scroll,
        );
    }
}

/// A session of typing at the end of the line never fails: from a line that
/// fits its viewport, with the cursor behind its last character on a terminal
/// that has a row, any run of characters and debug markers for which the
/// counters have room is answered with a frame each time, and at the end the
/// line fits its viewport again.
pub proof fn lemma_typing_session_is_drawn(ctx: Context, line: Line, commands: Seq<Command>)
    requires
        ctx.wf(),
        line.wf(),
        ctx.terminal_height >= 1,
        ctx.scroll.fits(ctx.height_of(line), ctx.terminal_height as int),
        line.cursor == line.content.len(),
        forall|i: int| 0 <= i < commands.len() ==> commands[i].grows(),
        ctx.has_room(apply_all(line, commands)),
    ensures
        session_answered(ctx, line, commands),
        session_context(ctx, line, commands).scroll.fits(
            ctx.height_of(apply_all(line, commands)),
            ctx.terminal_height as int,
        ),
        apply_all(line, commands).cursor == apply_all(line, commands).content.len(),
        apply_all(line, commands).content.len() >= line.content.len(),
    decreases commands.len(),
{
    if commands.len() > 0 {
        let edited = commands[0].apply(line);
        let rest = commands.drop_first();
        assert forall|i: int| 0 <= i < rest.len() implies rest[i].grows() by {
            assert(rest[i] == commands[i + 1]);
        }
        lemma_typing_lengthens(edited, rest);
        lemma_typing_at_end_is_drawn(commands[0], ctx, line);
        lemma_typing_session_is_drawn(context_after(commands[0], ctx, edited), edited, rest);
    }
}

/// Typing only makes the line longer.
proof fn lemma_typing_lengthens(line: Line, commands: Seq<Command>)
    requires
        line.wf(),
        forall|i: int| 0 <= i < commands.len() ==> commands[i].grows(),
    ensures
        apply_all(line, commands).content.len() >= line.content.len(),
    decreases commands.len(),
{
    if commands.len() > 0 {
        let rest = commands.drop_first();
        assert forall|i: int| 0 <= i < rest.len() implies rest[i].grows() by {
            assert(rest[i] == commands[i + 1]);
        }
        lemma_command_keeps_cursor_in_line(line, commands[0]);
        lemma_typing_lengthens(commands[0].apply(line), rest);
    }
}

} // verus!
