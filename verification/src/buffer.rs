//! The text of the line and the cursor in it.

use vstd::prelude::*;
use vstd::std_specs::iter::IteratorSpec;
use crate::arith::{ceil_div, ciel_div};
use crate::context::Context;
use crate::scroll::ScrollState;

verus! {

/// The mathematical value of a line buffer: its characters in order and the
/// position of the cursor, counted in characters from the start.
pub struct Line {
    pub content: Seq<char>,
    pub cursor: nat,
}

impl Line {
    /// The cursor stands on a character or just behind the last one.
    pub open spec fn wf(self) -> bool {
        self.cursor <= self.content.len()
    }

    /// The line without characters.
    pub open spec fn empty() -> Line {
        Line { content: Seq::empty(), cursor: 0 }
    }

    /// The line after `c` was typed: `c` stands where the cursor was, and the
    /// cursor behind it.
    pub open spec fn insert(self, c: char) -> Line {
        Line { content: self.content.insert(self.cursor as int, c), cursor: self.cursor + 1 }
    }

    /// The line after `s` was put in at the cursor as a whole, the cursor
    /// behind its last character.
    pub open spec fn insert_str(self, s: Seq<char>) -> Line {
        Line {
            content: self.content.subrange(0, self.cursor as int) + s + self.content.subrange(
                self.cursor as int,
                self.content.len() as int,
            ),
            cursor: self.cursor + s.len(),
        }
    }

    /// The line with the cursor one character to the left, if there is one.
    pub open spec fn left(self) -> Line {
        Line { content: self.content, cursor: if self.cursor == 0 { 0 } else { (self.cursor - 1) as nat } }
    }

    /// The line with the cursor one character to the right, if it is not
    /// behind the last one already.
    pub open spec fn right(self) -> Line {
        Line {
            content: self.content,
            cursor: if self.cursor >= self.content.len() { self.cursor } else { self.cursor + 1 },
        }
    }

    /// The line without the character under the cursor. With the cursor
    /// behind the last character nothing is removed.
    pub open spec fn delete(self) -> Line {
        if self.cursor < self.content.len() {
            Line { content: self.content.remove(self.cursor as int), cursor: self.cursor }
        } else {
            self
        }
    }

    /// The line without the character before the cursor, the cursor in its
    /// place. With the cursor at the start nothing is removed.
    pub open spec fn backspace(self) -> Line {
        if self.cursor == 0 {
            self
        } else {
            Line {
                content: self.content.remove(self.cursor - 1),
                cursor: (self.cursor - 1) as nat,
            }
        }
    }

    /// The number of characters of the line.
    pub open spec fn width(self) -> nat {
        self.content.len()
    }

    /// The number of terminal rows that the prompt and the line occupy,
    /// counting the cell on which the cursor rests behind the last character.
    pub open spec fn height(self, prompt_width: int, terminal_width: int) -> int {
        ceil_div(prompt_width + self.content.len() + 1, terminal_width)
    }

    /// The part of the line that is drawn. Once the prompt has left the
    /// screen, the first `terminal_width * scroll` characters have left it
    /// too; before that the whole line is drawn.
    pub open spec fn segment(self, scroll: ScrollState, terminal_width: int) -> Seq<char> {
        match scroll {
            ScrollState::ScrolledPastPrompt { scroll } => {
                if terminal_width * scroll <= self.content.len() {
                    self.content.skip(terminal_width * scroll)
                } else {
                    Seq::empty()
                }
            },
            _ => self.content,
        }
    }
}

/// Typing a character and taking it back at once leaves the line as it was,
/// text and cursor both.
pub proof fn lemma_insert_then_backspace(line: Line, c: char)
    requires
        line.wf(),
    ensures
        line.insert(c).backspace() == line,
{
    assert(line.insert(c).backspace().content =~= line.content);
}

/// Putting a string in as a whole comes to the same as typing its characters
/// one after the other: the empty string changes nothing, and a string with
/// one more character at its end does what the string and then that
/// character do.
pub proof fn lemma_insert_str_by_characters(line: Line, s: Seq<char>, c: char)
    requires
        line.wf(),
    ensures
        line.insert_str(Seq::empty()) == line,
        line.insert_str(s.push(c)) == line.insert_str(s).insert(c),
{
    assert(line.insert_str(Seq::empty()).content =~= line.content);
    assert(line.insert_str(s.push(c)).content =~= line.insert_str(s).insert(c).content);
}

/// `String::push` of std: the string grows by the given character at its end.
pub assume_specification[ String::push ](s: &mut String, ch: char)
    ensures
        final(s)@ == old(s)@.push(ch),
;

/// The text being edited and the cursor in it. Positions count characters,
/// never bytes.
pub struct LineBuffer {
    buffer: Vec<char>,
    cursor_index: usize,
}

impl View for LineBuffer {
    type V = Line;

    closed spec fn view(&self) -> Line {
        Line { content: self.buffer@, cursor: self.cursor_index as nat }
    }
}

impl Default for LineBuffer {
    fn default() -> (line: LineBuffer)
        ensures
            line@ == Line::empty(),
            line@.wf(),
    {
        LineBuffer::new()
    }
}

impl LineBuffer {
    /// An empty line, the cursor at its start.
    pub fn new() -> (line: LineBuffer)
        ensures
            line@ == Line::empty(),
            line@.wf(),
    {
        LineBuffer { buffer: Vec::new(), cursor_index: 0 }
    }

    /// Puts `c` in at the cursor and moves the cursor behind it.
    pub fn insert(&mut self, c: char)
        requires
            old(self)@.wf(),
        ensures
            final(self)@ == old(self)@.insert(c),
            final(self)@.wf(),
    {
        self.buffer.insert(self.cursor_index, c);
        self.right();
    }

    /// Puts `s` in at the cursor as a whole and moves the cursor behind it.
    pub fn insert_str(&mut self, s: &str)
        requires
            old(self)@.wf(),
        ensures
            final(self)@ == old(self)@.insert_str(s@),
            final(self)@.wf(),
    {
        let ghost before = self@;
        let mut chars = s.chars();
        let ghost mut done: int = 0;
        assert(before.insert_str(s@.take(0)).content =~= before.content);
        loop
            invariant
                0 <= done <= s@.len(),
                chars.remaining() == s@.skip(done),
                self@ == before.insert_str(s@.take(done)),
                before.wf(),
                self@.wf(),
            ensures
                self@ == before.insert_str(s@),
            decreases s@.len() - done,
        {
            match chars.next() {
                Some(c) => {
                    proof {
                        assert(c == s@[done]);
                        assert(before.insert_str(s@.take(done)).insert(c).content
                            =~= before.insert_str(s@.take(done + 1)).content);
                        done = done + 1;
                    }
                    self.insert(c);
                    assert(chars.remaining() =~= s@.skip(done));
                },
                None => {
                    assert(s@.take(done) =~= s@);
                    break ;
                },
            }
        }
    }

    /// Moves the cursor one character to the left; at the start it stays.
    pub fn left(&mut self)
        requires
            old(self)@.wf(),
        ensures
            final(self)@ == old(self)@.left(),
            final(self)@.wf(),
    {
        if self.cursor_index > 0 {
            self.cursor_index = self.cursor_index - 1;
        }
    }

    /// Moves the cursor one character to the right; behind the last
    /// character it stays.
    pub fn right(&mut self)
        requires
            old(self)@.wf(),
        ensures
            final(self)@ == old(self)@.right(),
            final(self)@.wf(),
    {
        if self.cursor_index == self.buffer.len() {
            return ;
        }
        self.cursor_index = self.cursor_index + 1;
    }

    /// Removes the character before the cursor and moves the cursor into its
    /// place; at the start of the line nothing happens.
    pub fn backspace(&mut self)
        requires
            old(self)@.wf(),
        ensures
            final(self)@ == old(self)@.backspace(),
            final(self)@.wf(),
    {
        if self.cursor_index == 0 {
            return ;
        }
        self.left();
        self.delete();
    }

    /// Removes the character under the cursor; behind the last character
    /// nothing happens.
    pub fn delete(&mut self)
        requires
            old(self)@.wf(),
        ensures
            final(self)@ == old(self)@.delete(),
            final(self)@.wf(),
    {
        if self.cursor_index < self.buffer.len() {
            self.buffer.remove(self.cursor_index);
        }
    }

    /// The number of characters of the line.
    pub fn width(&self) -> (n: usize)
        ensures
            n == self@.width(),
    {
        self.buffer.len()
    }

    /// The position of the cursor, in characters from the start of the line.
    pub fn cursor(&self) -> (i: usize)
        ensures
            i == self@.cursor,
    {
        self.cursor_index
    }

    /// The number of terminal rows that the prompt and the line occupy.
    pub fn height(&self, ctx: &Context) -> (rows: usize)
        requires
            ctx.terminal_width >= 1,
            ctx.prompt_width + self@.width() + 1 <= usize::MAX,
        ensures
            rows == self@.height(ctx.prompt_width as int, ctx.terminal_width as int),
    {
        let true_width: usize = ctx.prompt_width + self.width() + 1;
        ciel_div(true_width, ctx.terminal_width)
    }

    /// The part of the line that is drawn in the given scroll state on a
    /// terminal of `terminal_width` columns.
    pub fn segment(&self, scroll: ScrollState, terminal_width: usize) -> (text: String)
        ensures
            text@ == self@.segment(scroll, terminal_width as int),
    {
        let len: usize = self.buffer.len();
        let start: usize = match scroll {
            ScrollState::ScrolledPastPrompt { scroll } => {
                match terminal_width.checked_mul(scroll) {
                    Some(chars_off_screen) => if chars_off_screen <= len {
                        chars_off_screen
                    } else {
                        len
                    },
                    None => len,
                }
            },
            _ => 0,
        };
        let text = self.text_from(start);
        proof {
            if start == len {
                assert(self.buffer@.skip(len as int) =~= Seq::<char>::empty());
            }
            if start == 0 {
                assert(self.buffer@.skip(0) =~= self.buffer@);
            }
        }
        text
    }

    /// The whole line as a string.
    pub fn text(&self) -> (text: String)
        ensures
            text@ == self@.content,
    {
        let text = self.text_from(0);
        assert(self.buffer@.skip(0) =~= self.buffer@);
        text
    }

    /// The characters from position `start` on, as a string.
    fn text_from(&self, start: usize) -> (text: String)
        requires
            start <= self.buffer@.len(),
        ensures
            text@ == self.buffer@.skip(start as int),
    {
        let mut text = String::new();
        let mut i: usize = start;
        while i < self.buffer.len()
            invariant
                start <= i <= self.buffer@.len(),
                text@ == self.buffer@.subrange(start as int, i as int),
            decreases self.buffer@.len() - i,
        {
            text.push(self.buffer[i]);
            i = i + 1;
            assert(text@ =~= self.buffer@.subrange(start as int, i as int));
        }
        assert(self.buffer@.subrange(start as int, i as int) =~= self.buffer@.skip(start as int));
        text
    }
}

} // verus!
