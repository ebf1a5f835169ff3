use ledit::{
    cursor_coord, cursor_on_screen, cursor_x_coord, cursor_y_coord, prompt_end_coord,
    prompt_end_on_screen, prompt_end_x_coord, prompt_end_y_coord, true_index, Context, LineBuffer,
    ScrollState,
};

fn line_with_cursor(width: usize, cursor: usize) -> LineBuffer {
    let mut line = LineBuffer::new();
    line.insert_str(&"x".repeat(width));
    for _ in cursor..width {
        line.left();
    }
    line
}

fn context(prompt_width: usize, scroll: ScrollState) -> Context {
    Context { prompt_width, terminal_width: 80, terminal_height: 24, scroll }
}

#[test]
fn context_new_starts_unscrolled() {
    let ctx = Context::new(4, 80, 24, 5);
    assert_eq!(
        ctx,
        Context {
            prompt_width: 4,
            terminal_width: 80,
            terminal_height: 24,
            scroll: ScrollState::Unscrolled { y_origin: 5 },
        }
    );
}

#[test]
fn context_for_prompt_counts_characters() {
    assert_eq!(Context::for_prompt("***$", 80, 24, 5), Context::new(4, 80, 24, 5));
    assert_eq!(Context::for_prompt("", 80, 24, 0), Context::new(0, 80, 24, 0));
    assert_eq!(Context::for_prompt("données → ", 80, 24, 24), Context::new(10, 80, 24, 24));
    assert_eq!(Context::for_prompt("日本 @ ~ -> ", 1, 0, 0).prompt_width, 10);
}

#[test]
fn true_index_adds_the_prompt() {
    let ctx = context(4, ScrollState::Unscrolled { y_origin: 0 });
    assert_eq!(true_index(&ctx, &line_with_cursor(10, 10)), 14);
    assert_eq!(true_index(&ctx, &line_with_cursor(10, 3)), 7);
    assert_eq!(true_index(&ctx, &LineBuffer::new()), 4);
}

#[test]
fn cursor_coord_unscrolled() {
    let ctx = context(4, ScrollState::Unscrolled { y_origin: 5 });
    assert_eq!(cursor_coord(&ctx, &LineBuffer::new()), (4, 5));
    assert_eq!(cursor_coord(&ctx, &line_with_cursor(75, 75)), (79, 5));
    assert_eq!(cursor_coord(&ctx, &line_with_cursor(76, 76)), (0, 6));
    assert_eq!(cursor_coord(&ctx, &line_with_cursor(200, 200)), (44, 7));
    assert_eq!(cursor_coord(&ctx, &line_with_cursor(200, 100)), (24, 6));
    assert_eq!(cursor_x_coord(&ctx, &line_with_cursor(200, 100)), 24);
    assert_eq!(cursor_y_coord(&ctx, &line_with_cursor(200, 100)), 6);
}

#[test]
fn cursor_coord_scrolled() {
    let ctx = context(4, ScrollState::Scrolled { y_origin: 20, scroll: 2 });
    assert_eq!(cursor_coord(&ctx, &LineBuffer::new()), (4, 18));
    assert_eq!(cursor_coord(&ctx, &line_with_cursor(400, 400)), (4, 23));
    assert_eq!(cursor_coord(&ctx, &line_with_cursor(400, 76)), (0, 19));
}

#[test]
fn cursor_coord_past_prompt() {
    let ctx = context(4, ScrollState::ScrolledPastPrompt { scroll: 2 });
    assert_eq!(cursor_coord(&ctx, &line_with_cursor(2000, 2000)), (4, 23));
    assert_eq!(cursor_coord(&ctx, &line_with_cursor(2000, 156)), (0, 0));
    assert_eq!(cursor_coord(&ctx, &line_with_cursor(2000, 1000)), (44, 10));
}

#[test]
fn cursor_column_is_always_in_the_terminal() {
    let ctx = Context {
        prompt_width: 7,
        terminal_width: 5,
        terminal_height: 3,
        scroll: ScrollState::ScrolledPastPrompt { scroll: 100 },
    };
    for cursor in 0..40 {
        let x = cursor_x_coord(&ctx, &line_with_cursor(40, cursor));
        assert_eq!(x as usize, (7 + cursor) % 5);
        assert!(x < 5);
    }
}

#[test]
fn cursor_on_screen_tells_rows_apart() {
    let unscrolled = context(4, ScrollState::Unscrolled { y_origin: 22 });
    assert!(cursor_on_screen(&unscrolled, &line_with_cursor(200, 155)));
    assert!(!cursor_on_screen(&unscrolled, &line_with_cursor(200, 156)));
    let scrolled = context(4, ScrollState::Scrolled { y_origin: 22, scroll: 1 });
    assert!(cursor_on_screen(&scrolled, &line_with_cursor(400, 235)));
    assert!(!cursor_on_screen(&scrolled, &line_with_cursor(400, 236)));
    let past = context(4, ScrollState::ScrolledPastPrompt { scroll: 2 });
    assert!(!cursor_on_screen(&past, &line_with_cursor(3000, 155)));
    assert!(cursor_on_screen(&past, &line_with_cursor(3000, 156)));
    assert!(cursor_on_screen(&past, &line_with_cursor(3000, 2075)));
    assert!(!cursor_on_screen(&past, &line_with_cursor(3000, 2076)));
}

#[test]
fn cursor_is_never_on_a_screen_without_rows() {
    let ctx = Context {
        prompt_width: 0,
        terminal_width: 80,
        terminal_height: 0,
        scroll: ScrollState::Unscrolled { y_origin: 0 },
    };
    assert!(!cursor_on_screen(&ctx, &LineBuffer::new()));
    assert!(!prompt_end_on_screen(&ctx));
    let past = Context { scroll: ScrollState::ScrolledPastPrompt { scroll: 0 }, ..ctx };
    assert!(!cursor_on_screen(&past, &LineBuffer::new()));
    assert!(!prompt_end_on_screen(&past));
}

#[test]
fn prompt_end_coord_follows_the_prompt() {
    assert_eq!(prompt_end_coord(&context(4, ScrollState::Unscrolled { y_origin: 5 })), (4, 5));
    assert_eq!(prompt_end_coord(&context(84, ScrollState::Unscrolled { y_origin: 5 })), (4, 6));
    assert_eq!(prompt_end_coord(&context(80, ScrollState::Unscrolled { y_origin: 0 })), (0, 1));
    assert_eq!(
        prompt_end_coord(&context(4, ScrollState::Scrolled { y_origin: 20, scroll: 2 })),
        (4, 18)
    );
    assert_eq!(
        prompt_end_coord(&context(164, ScrollState::Scrolled { y_origin: 20, scroll: 20 })),
        (4, 2)
    );
}

#[test]
fn prompt_end_is_the_top_row_once_the_prompt_left() {
    let ctx = context(4, ScrollState::ScrolledPastPrompt { scroll: 7 });
    assert_eq!(prompt_end_coord(&ctx), (4, 0));
    assert_eq!(prompt_end_x_coord(&ctx), 4);
    assert_eq!(prompt_end_y_coord(&ctx), 0);
    let wide = context(170, ScrollState::ScrolledPastPrompt { scroll: 1 });
    assert_eq!(prompt_end_coord(&wide), (10, 0));
}

#[test]
fn prompt_end_on_screen_tells_rows_apart() {
    assert!(prompt_end_on_screen(&context(4, ScrollState::Unscrolled { y_origin: 23 })));
    assert!(!prompt_end_on_screen(&context(4, ScrollState::Unscrolled { y_origin: 24 })));
    assert!(!prompt_end_on_screen(&context(84, ScrollState::Unscrolled { y_origin: 23 })));
    assert!(prompt_end_on_screen(&context(84, ScrollState::Scrolled { y_origin: 23, scroll: 1 })));
    assert!(prompt_end_on_screen(&context(4000, ScrollState::ScrolledPastPrompt { scroll: 1 })));
}

#[test]
fn coordinates_stay_in_the_terminal_while_the_line_fits() {
    let line_width = 400;
    let ctx = context(4, ScrollState::Unscrolled { y_origin: 20 });
    let full = line_with_cursor(line_width, line_width);
    let (scroll, _) = ctx.scroll.advance(full.height(&ctx), ctx.terminal_height);
    let ctx = Context { scroll, ..ctx };
    assert_eq!(scroll, ScrollState::Scrolled { y_origin: 20, scroll: 2 });
    for cursor in 0..=line_width {
        let line = line_with_cursor(line_width, cursor);
        assert!(cursor_on_screen(&ctx, &line));
        let (x, y) = cursor_coord(&ctx, &line);
        assert!(x < 80 && y < 24);
        assert_eq!(x as usize, (4 + cursor) % 80);
        assert_eq!(y as usize, (4 + cursor) / 80 + 18);
    }
}
