//! How far the viewport has moved since the prompt was printed.
//!
//! A line that outgrows the rows below its prompt pushes the terminal's
//! content upwards. `ScrollState` records how far, and `advance` is the one
//! transition of the machine: it is run whenever the line may have grown.

use vstd::prelude::*;

verus! {

/// The amount of scrolling that has happened since the prompt was printed.
#[derive(Clone, Copy, Debug, PartialEq, Eq, Structural)]
pub enum ScrollState {
    /// The prompt still stands on the row where it was printed, `y_origin`.
    Unscrolled { y_origin: usize },
    /// `scroll` rows were pushed off the top; the prompt, printed on row
    /// `y_origin`, is still on the screen.
    Scrolled { y_origin: usize, scroll: usize },
    /// The prompt's own row has left the screen, and `scroll` rows of the
    /// line with it.
    ScrolledPastPrompt { scroll: usize },
}

impl ScrollState {
    /// The screen row on which the first row of the line stands. It is
    /// negative once that row has left the screen.
    pub open spec fn origin(self) -> int {
        match self {
            ScrollState::Unscrolled { y_origin } => y_origin as int,
            ScrollState::Scrolled { y_origin, scroll } => y_origin - scroll,
            ScrollState::ScrolledPastPrompt { scroll } => -(scroll as int),
        }
    }

    /// The state is one that a terminal of `terminal_height` rows can be in:
    /// the prompt was printed on the screen, and while it is still there no
    /// more rows were pushed than stood above it.
    pub open spec fn wf(self, terminal_height: int) -> bool {
        match self {
            ScrollState::Unscrolled { y_origin } => y_origin <= terminal_height,
            ScrollState::Scrolled { y_origin, scroll } => scroll <= y_origin <= terminal_height,
            ScrollState::ScrolledPastPrompt { scroll } => true,
        }
    }

    /// The number of rows of the line that the screen can show: those from
    /// the line's first row down to the bottom of the terminal.
    pub open spec fn capacity(self, terminal_height: int) -> int {
        terminal_height - self.origin()
    }

    /// The number of rows by which a line of `buffer_height` rows exceeds
    /// what the screen can show.
    pub open spec fn overrun(self, buffer_height: int, terminal_height: int) -> int {
        if buffer_height > self.capacity(terminal_height) {
            buffer_height - self.capacity(terminal_height)
        } else {
            0
        }
    }

    /// A line of `buffer_height` rows is shown in full, and once the prompt
    /// has left the screen its last row stands on the bottom row.
    pub open spec fn fits(self, buffer_height: int, terminal_height: int) -> bool {
        &&& self.wf(terminal_height)
        &&& buffer_height <= self.capacity(terminal_height)
        &&& self is ScrolledPastPrompt ==> buffer_height == self.capacity(terminal_height)
    }

    /// The transition may be taken: the state is well formed, and once the
    /// prompt has left the screen the line still reaches the bottom row.
    pub open spec fn admits(self, buffer_height: int, terminal_height: int) -> bool {
        &&& self.wf(terminal_height)
        &&& self is ScrolledPastPrompt ==> buffer_height >= self.capacity(terminal_height)
    }

    /// The state after the line has come to occupy `buffer_height` rows.
    pub open spec fn spec_advance(self, buffer_height: int, terminal_height: int) -> ScrollState {
        let overrun = self.overrun(buffer_height, terminal_height);
        if overrun == 0 {
            self
        } else {
            match self {
                ScrollState::Unscrolled { y_origin } => {
                    if overrun > y_origin {
                        ScrollState::ScrolledPastPrompt { scroll: (overrun - y_origin) as usize }
                    } else {
                        ScrollState::Scrolled { y_origin, scroll: overrun as usize }
                    }
                },
                ScrollState::Scrolled { y_origin, scroll } => {
                    if overrun > y_origin - scroll {
                        ScrollState::ScrolledPastPrompt {
                            scroll: (scroll + overrun - y_origin) as usize,
                        }
                    } else {
                        ScrollState::Scrolled { y_origin, scroll: (scroll + overrun) as usize }
                    }
                },
                ScrollState::ScrolledPastPrompt { scroll } => {
                    ScrollState::ScrolledPastPrompt { scroll: (scroll + overrun) as usize }
                },
            }
        }
    }

    /// How far the machine has come: 0 before any scrolling, 1 while the
    /// prompt is on the screen, 2 once it has left.
    pub open spec fn rank(self) -> int {
        match self {
            ScrollState::Unscrolled { .. } => 0,
            ScrollState::Scrolled { .. } => 1,
            ScrollState::ScrolledPastPrompt { .. } => 2,
        }
    }

    /// The `scroll` field of the state, 0 where it has none.
    pub open spec fn scroll_rows(self) -> int {
        match self {
            ScrollState::Unscrolled { .. } => 0,
            ScrollState::Scrolled { scroll, .. } => scroll as int,
            ScrollState::ScrolledPastPrompt { scroll } => scroll as int,
        }
    }

    /// `later` is `self` or comes after it: the machine has not gone back to
    /// an earlier variant, and within one variant `scroll` has not decreased.
    pub open spec fn precedes(self, later: ScrollState) -> bool {
        ||| self.rank() < later.rank()
        ||| self.rank() == later.rank() && self.scroll_rows() <= later.scroll_rows()
    }

    /// The state after the line has taken each of `heights` in turn.
    pub open spec fn advance_through(self, heights: Seq<int>, terminal_height: int) -> ScrollState
        decreases heights.len(),
    {
        if heights.len() == 0 {
            self
        } else {
            self.spec_advance(heights[0], terminal_height).advance_through(
                heights.drop_first(),
                terminal_height,
            )
        }
    }

    /// Every transition on the way through `heights` may be taken.
    pub open spec fn admits_all(self, heights: Seq<int>, terminal_height: int) -> bool
        decreases heights.len(),
    {
        heights.len() > 0 ==> {
            &&& self.admits(heights[0], terminal_height)
            &&& self.spec_advance(heights[0], terminal_height).admits_all(
                heights.drop_first(),
                terminal_height,
            )
        }
    }

    /// The state when a session starts with the cursor on row `y_origin`.
    pub fn new(y_origin: usize) -> (state: ScrollState)
        ensures
            state == (ScrollState::Unscrolled { y_origin }),
    {
        ScrollState::Unscrolled { y_origin }
    }

    /// Whether `advance` may be called with these heights.
    pub fn can_advance(self, buffer_height: usize, terminal_height: usize) -> (ok: bool)
        ensures
            ok == self.admits(buffer_height as int, terminal_height as int),
    {
        match self {
            ScrollState::Unscrolled { y_origin } => y_origin <= terminal_height,
            ScrollState::Scrolled { y_origin, scroll } => {
                scroll <= y_origin && y_origin <= terminal_height
            },
            ScrollState::ScrolledPastPrompt { scroll } => {
                buffer_height >= scroll && buffer_height - scroll >= terminal_height
            },
        }
    }

    /// Takes the machine's transition for a line that now occupies
    /// `buffer_height` rows on a terminal of `terminal_height` rows. Returns
    /// the next state and the number of rows that the terminal has to be
    /// scrolled by to reach it.
    pub fn advance(self, buffer_height: usize, terminal_height: usize) -> (next: (ScrollState, usize))
        requires
            self.admits(buffer_height as int, terminal_height as int),
        ensures
            next.0 == self.spec_advance(buffer_height as int, terminal_height as int),
            next.1 == self.overrun(buffer_height as int, terminal_height as int),
            next.0.fits(buffer_height as int, terminal_height as int),
    {
        match self {
            ScrollState::Unscrolled { y_origin } => {
                let utilized_height: usize = terminal_height - y_origin;
                let remaining_height: usize = terminal_height - utilized_height;
                if buffer_height > utilized_height {
                    let overrun: usize = buffer_height - utilized_height;
                    if overrun > remaining_height {
                        (ScrollState::ScrolledPastPrompt { scroll: overrun - y_origin }, overrun)
                    } else {
                        (ScrollState::Scrolled { y_origin, scroll: overrun }, overrun)
                    }
                } else {
                    (self, 0)
                }
            },
            ScrollState::Scrolled { y_origin, scroll } => {
                let utilized_height: usize = terminal_height - y_origin + scroll;
                let remaining_height: usize = terminal_height - utilized_height;
                if buffer_height > utilized_height {
                    let overrun: usize = buffer_height - utilized_height;
                    if overrun > remaining_height {
                        (
                            ScrollState::ScrolledPastPrompt { scroll: scroll + overrun - y_origin },
                            overrun,
                        )
                    } else {
                        (ScrollState::Scrolled { y_origin, scroll: scroll + overrun }, overrun)
                    }
                } else {
                    (self, 0)
                }
            },
            ScrollState::ScrolledPastPrompt { scroll } => {
                let lines_on_screen: usize = buffer_height - scroll;
                if lines_on_screen > terminal_height {
                    let overrun: usize = lines_on_screen - terminal_height;
                    (ScrollState::ScrolledPastPrompt { scroll: scroll + overrun }, overrun)
                } else {
                    (self, 0)
                }
            },
        }
    }
}

/// One transition moves the line's first row up by exactly the rows pushed,
/// and by no more than it takes for the line's last row to be on the screen:
/// the new origin is the smaller of the old one and
/// `terminal_height - buffer_height`.
pub proof fn lemma_advance_origin(state: ScrollState, buffer_height: int, terminal_height: int)
    requires
        state.wf(terminal_height),
        buffer_height - terminal_height <= usize::MAX,
    ensures
        ({
            let next = state.spec_advance(buffer_height, terminal_height);
            &&& next.origin() == state.origin() - state.overrun(buffer_height, terminal_height)
            &&& next.origin() == if state.origin() <= terminal_height - buffer_height {
                state.origin()
            } else {
                terminal_height - buffer_height
            }
            &&& next.wf(terminal_height)
        }),
{
}

/// After a transition the line is shown in full; once the prompt has left the
/// screen, the line's last row stands on the bottom row of the terminal.
pub proof fn lemma_advance_fits(state: ScrollState, buffer_height: int, terminal_height: int)
    requires
        state.admits(buffer_height, terminal_height),
        buffer_height - terminal_height <= usize::MAX,
    ensures
        state.spec_advance(buffer_height, terminal_height).fits(buffer_height, terminal_height),
{
}

/// A transition never goes back: the state keeps its variant or moves on to
/// a later one, and where it keeps its variant `scroll` does not decrease.
pub proof fn lemma_advance_monotone(state: ScrollState, buffer_height: int, terminal_height: int)
    requires
        state.wf(terminal_height),
        buffer_height - terminal_height <= usize::MAX,
    ensures
        state.precedes(state.spec_advance(buffer_height, terminal_height)),
{
}

/// `precedes` is transitive.
pub proof fn lemma_precedes_transitive(a: ScrollState, b: ScrollState, c: ScrollState)
    requires
        a.precedes(b),
        b.precedes(c),
    ensures
        a.precedes(c),
{
}

/// While the line only grows, every transition may be taken: from a state in
/// which a line of `start` rows fits, any heights that never fall below
/// `start` nor below one another are admitted in turn.
pub proof fn lemma_growth_is_admitted(
    state: ScrollState,
    start: int,
    heights: Seq<int>,
    terminal_height: int,
)
    requires
        state.fits(start, terminal_height),
        heights.len() > 0 ==> start <= heights[0],
        forall|i: int, j: int| 0 <= i <= j < heights.len() ==> heights[i] <= heights[j],
        forall|i: int| 0 <= i < heights.len() ==> heights[i] - terminal_height <= usize::MAX,
    ensures
        state.admits_all(heights, terminal_height),
    decreases heights.len(),
{
    if heights.len() > 0 {
        let next = state.spec_advance(heights[0], terminal_height);
        let rest = heights.drop_first();
        lemma_advance_fits(state, heights[0], terminal_height);
        assert forall|i: int, j: int| 0 <= i <= j < rest.len() implies rest[i] <= rest[j] by {
            assert(rest[i] == heights[i + 1]);
            assert(rest[j] == heights[j + 1]);
        }
        assert forall|i: int| 0 <= i < rest.len() implies rest[i] - terminal_height
            <= usize::MAX by {
            assert(rest[i] == heights[i + 1]);
        }
        if rest.len() > 0 {
            assert(rest[0] == heights[1]);
        }
        lemma_growth_is_admitted(next, heights[0], rest, terminal_height);
    }
}

/// Over any run of transitions the state never goes back, and within one
/// variant its `scroll` never decreases.
pub proof fn lemma_scroll_never_decreases(
    state: ScrollState,
    heights: Seq<int>,
    terminal_height: int,
)
    requires
        state.wf(terminal_height),
        forall|i: int| 0 <= i < heights.len() ==> heights[i] - terminal_height <= usize::MAX,
    ensures
        state.precedes(state.advance_through(heights, terminal_height)),
        state.advance_through(heights, terminal_height).wf(terminal_height),
        state.advance_through(heights, terminal_height).origin() <= state.origin(),
    decreases heights.len(),
{
    if heights.len() > 0 {
        let next = state.spec_advance(heights[0], terminal_height);
        let rest = heights.drop_first();
        lemma_advance_origin(state, heights[0], terminal_height);
        lemma_advance_monotone(state, heights[0], terminal_height);
        assert forall|i: int| 0 <= i < rest.len() implies rest[i] - terminal_height
            <= usize::MAX by {
            assert(rest[i] == heights[i + 1]);
        }
        lemma_scroll_never_decreases(next, rest, terminal_height);
        lemma_precedes_transitive(state, next, next.advance_through(rest, terminal_height));
    }
}

} // verus!
