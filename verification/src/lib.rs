//! A single-line text editor for character-cell terminals: the text buffer,
//! the scroll state of the viewport, and the arithmetic that places the
//! cursor on the screen. The crate performs no I/O; a host feeds it input
//! events and carries out the actions it returns.

pub mod arith;
pub mod buffer;
pub mod context;
pub mod event;
pub mod invariants;
pub mod scroll;
pub mod screen;

pub use arith::ciel_div;
pub use buffer::{Line, LineBuffer};
pub use context::{
    cursor_coord, cursor_on_screen, cursor_x_coord, cursor_y_coord, prompt_end_coord,
    prompt_end_on_screen, prompt_end_x_coord, prompt_end_y_coord, true_index, Context,
};
pub use event::{
    handle, has_room_for, try_move_cursor, try_update_screen, Action, Command, Fault, InputEvent,
    KeyCode, Modifiers,
};
pub use screen::{screen_ready, update_screen, update_scroll, Frame};
pub use scroll::ScrollState;
