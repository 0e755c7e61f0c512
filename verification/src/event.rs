//! What passes between the editor and the loop around it: keys, the
//! terminal's size, what one poll of the key source gave, and what the loop
//! is to do next.

use vstd::prelude::*;

verus! {

/// A key press, as a terminal reports it.
#[derive(Clone, Copy, Debug, PartialEq, Eq, Structural)]
pub enum Key {
    Backspace,
    Left,
    Right,
    Up,
    Down,
    Home,
    End,
    PageUp,
    PageDown,
    BackTab,
    Delete,
    Insert,
    /// A function key, by its number.
    F(u8),
    /// A plain character.
    Char(char),
    /// A character typed with Alt held.
    Alt(char),
    /// A character typed with Ctrl held.
    Ctrl(char),
    Null,
    Esc,
}

/// The size of the terminal's viewport, in character cells.
#[derive(Clone, Copy, Debug, PartialEq, Eq, Structural)]
pub struct Terminal {
    pub width: u16,
    pub height: u16,
}

/// What one non-blocking poll of the key source produced.
#[derive(Clone, Copy, Debug, PartialEq, Eq, Structural)]
pub enum Input {
    /// A key was waiting.
    Key(Key),
    /// No key was waiting; the terminal's size was read again and is handed in.
    Idle(Terminal),
}

/// What the surrounding loop has to do before it polls again.
#[derive(Clone, Copy, Debug, PartialEq, Eq, Structural)]
pub enum Action {
    /// Clear the screen, put the cursor at the top left and stop.
    Exit,
    /// Draw the frame.
    Render,
    /// Sleep for this many milliseconds, then draw the frame.
    Pause(u64),
}

/// How long the loop sleeps after a poll that found no key, in milliseconds.
pub const IDLE_PAUSE_MS: u64 = 24;

} // verus!
