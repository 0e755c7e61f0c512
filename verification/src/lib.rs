//! The core of a small terminal text editor: a cursor, a scroll offset into a
//! buffer of lines, the transitions that key presses cause, and the frame
//! that is drawn for a terminal of a given size.

pub mod editor;
pub mod event;
pub mod frame;
pub mod laws;
pub mod model;
pub mod style;
pub mod text;
