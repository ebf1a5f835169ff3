use ledit::ScrollState;

#[test]
fn new_state_is_unscrolled() {
    assert_eq!(ScrollState::new(7), ScrollState::Unscrolled { y_origin: 7 });
}

#[test]
fn unscrolled_stays_while_the_line_fits() {
    let state = ScrollState::Unscrolled { y_origin: 20 };
    assert_eq!(state.advance(1, 24), (state, 0));
    assert_eq!(state.advance(4, 24), (state, 0));
}

#[test]
fn unscrolled_at_row_twenty_of_twenty_four_with_six_rows() {
    // Four rows are left from the prompt down, so two are pushed; the twenty
    // rows above the prompt take them, and the prompt stays on the screen.
    let state = ScrollState::Unscrolled { y_origin: 20 };
    assert_eq!(state.advance(6, 24), (ScrollState::Scrolled { y_origin: 20, scroll: 2 }, 2));
}

#[test]
fn unscrolled_uses_up_all_rows_above_the_prompt() {
    let state = ScrollState::Unscrolled { y_origin: 20 };
    assert_eq!(state.advance(24, 24), (ScrollState::Scrolled { y_origin: 20, scroll: 20 }, 20));
}

#[test]
fn unscrolled_skips_scrolled_when_the_prompt_is_pushed_off() {
    let state = ScrollState::Unscrolled { y_origin: 20 };
    assert_eq!(state.advance(25, 24), (ScrollState::ScrolledPastPrompt { scroll: 1 }, 21));
    assert_eq!(state.advance(26, 24), (ScrollState::ScrolledPastPrompt { scroll: 2 }, 22));
    let top = ScrollState::Unscrolled { y_origin: 0 };
    assert_eq!(top.advance(24, 24), (top, 0));
    assert_eq!(top.advance(30, 24), (ScrollState::ScrolledPastPrompt { scroll: 6 }, 6));
}

#[test]
fn unscrolled_on_the_last_row_scrolls_with_the_second_row() {
    let state = ScrollState::Unscrolled { y_origin: 23 };
    assert_eq!(state.advance(1, 24), (state, 0));
    assert_eq!(state.advance(2, 24), (ScrollState::Scrolled { y_origin: 23, scroll: 1 }, 1));
}

#[test]
fn scrolled_stays_while_the_line_fits() {
    let state = ScrollState::Scrolled { y_origin: 20, scroll: 2 };
    assert_eq!(state.advance(6, 24), (state, 0));
    assert_eq!(state.advance(3, 24), (state, 0));
}

#[test]
fn scrolled_adds_the_overrun() {
    let state = ScrollState::Scrolled { y_origin: 20, scroll: 2 };
    assert_eq!(state.advance(7, 24), (ScrollState::Scrolled { y_origin: 20, scroll: 3 }, 1));
    assert_eq!(state.advance(24, 24), (ScrollState::Scrolled { y_origin: 20, scroll: 20 }, 18));
}

#[test]
fn scrolled_moves_past_the_prompt() {
    let state = ScrollState::Scrolled { y_origin: 5, scroll: 3 };
    assert_eq!(state.advance(26, 24), (ScrollState::ScrolledPastPrompt { scroll: 2 }, 4));
    let other = ScrollState::Scrolled { y_origin: 20, scroll: 2 };
    assert_eq!(other.advance(25, 24), (ScrollState::ScrolledPastPrompt { scroll: 1 }, 19));
}

#[test]
fn past_prompt_stays_while_the_last_row_is_at_the_bottom() {
    let state = ScrollState::ScrolledPastPrompt { scroll: 2 };
    assert_eq!(state.advance(26, 24), (state, 0));
}

#[test]
fn past_prompt_keeps_the_last_row_at_the_bottom() {
    let state = ScrollState::ScrolledPastPrompt { scroll: 2 };
    let (next, rows) = state.advance(27, 24);
    assert_eq!(next, ScrollState::ScrolledPastPrompt { scroll: 3 });
    assert_eq!(rows, 1);
    let (next, rows) = state.advance(40, 24);
    assert_eq!(next, ScrollState::ScrolledPastPrompt { scroll: 16 });
    assert_eq!(rows, 14);
    if let ScrollState::ScrolledPastPrompt { scroll } = next {
        assert_eq!(40 - scroll, 24);
    } else {
        panic!("the prompt came back");
    }
}

#[test]
fn can_advance_tells_when_the_viewport_can_follow() {
    assert!(ScrollState::Unscrolled { y_origin: 0 }.can_advance(1, 24));
    assert!(ScrollState::Unscrolled { y_origin: 24 }.can_advance(1, 24));
    assert!(!ScrollState::Unscrolled { y_origin: 25 }.can_advance(1, 24));
    assert!(ScrollState::Scrolled { y_origin: 20, scroll: 20 }.can_advance(3, 24));
    assert!(!ScrollState::Scrolled { y_origin: 20, scroll: 21 }.can_advance(3, 24));
    assert!(!ScrollState::Scrolled { y_origin: 25, scroll: 2 }.can_advance(3, 24));
    assert!(ScrollState::ScrolledPastPrompt { scroll: 2 }.can_advance(26, 24));
    assert!(ScrollState::ScrolledPastPrompt { scroll: 2 }.can_advance(30, 24));
    assert!(!ScrollState::ScrolledPastPrompt { scroll: 2 }.can_advance(25, 24));
    assert!(!ScrollState::ScrolledPastPrompt { scroll: 2 }.can_advance(1, 24));
    assert!(ScrollState::ScrolledPastPrompt { scroll: 0 }.can_advance(0, 0));
}

fn rank(state: ScrollState) -> (u8, usize) {
    match state {
        ScrollState::Unscrolled { .. } => (0, 0),
        ScrollState::Scrolled { scroll, .. } => (1, scroll),
        ScrollState::ScrolledPastPrompt { scroll } => (2, scroll),
    }
}

#[test]
fn scroll_never_goes_back_while_the_line_grows() {
    let mut state = ScrollState::new(3);
    let mut pushed = 0;
    let mut seen = Vec::new();
    for height in 1..=12 {
        assert!(state.can_advance(height, 6));
        let (next, rows) = state.advance(height, 6);
        assert!(rank(state) <= rank(next));
        pushed += rows;
        state = next;
        seen.push(state);
    }
    assert_eq!(seen[0], ScrollState::Unscrolled { y_origin: 3 });
    assert_eq!(seen[2], ScrollState::Unscrolled { y_origin: 3 });
    assert_eq!(seen[3], ScrollState::Scrolled { y_origin: 3, scroll: 1 });
    assert_eq!(seen[5], ScrollState::Scrolled { y_origin: 3, scroll: 3 });
    assert_eq!(seen[6], ScrollState::ScrolledPastPrompt { scroll: 1 });
    assert_eq!(seen[11], ScrollState::ScrolledPastPrompt { scroll: 6 });
    assert_eq!(pushed, 9);
}

#[test]
fn scroll_field_restarts_when_the_prompt_leaves() {
    // Within one variant `scroll` only grows; moving past the prompt it starts
    // to count the rows of the line that left the screen.
    let state = ScrollState::Scrolled { y_origin: 5, scroll: 3 };
    let (next, rows) = state.advance(23, 20);
    assert_eq!(next, ScrollState::ScrolledPastPrompt { scroll: 3 });
    assert_eq!(rows, 5);
    let (next, rows) = state.advance(21, 20);
    assert_eq!(next, ScrollState::ScrolledPastPrompt { scroll: 1 });
    assert_eq!(rows, 3);
}
