//! The frame: what each row of the terminal shows for a given state.

use vstd::prelude::*;
use vstd::string::*;
use crate::model::State;
use crate::style::{
    bg_reset, bg_reset_code, bg_rgb, bg_rgb_code, bold, bold_code, fg_blue, fg_blue_code, fg_reset,
    fg_reset_code, fg_rgb, fg_rgb_code, style_reset, style_reset_code,
};
use crate::text::{decimal, joined, push_decimal, push_spaces, spaces};

verus! {

/// The editor's version, as the banner and the status line show it.
pub const VERSION: &'static str = "0.1.0";

/// The first line of the welcome banner, up to the version.
pub const TITLE: &'static str = "Ox editor v";

/// The second line of the welcome banner.
pub const SUBTITLE: &'static str = "A speedy editor built with Rust";

/// The third line of the welcome banner.
pub const ATTRIBUTION: &'static str = "by curlpipe";

/// The last line of the welcome banner.
pub const QUIT_HINT: &'static str = "Ctrl + Q:  Exit";

/// What a row shows that has nothing else to show, and what each banner row
/// starts with.
pub const PLACEHOLDER: &'static str = "~";

/// What stands between two rows of the frame.
pub const ROW_BREAK: &'static str = "\r\n";

/// What the status line starts with, before the version.
pub const STATUS_NAME: &'static str = " Ox: ";

/// What the status line says before the cursor's column.
pub const STATUS_COLUMN: &'static str = " | x: ";

/// What the status line says before the cursor's row.
pub const STATUS_ROW: &'static str = " | y: ";

/// How many spaces put a text of `len` characters in the middle of a row of
/// `width` cells: half the width less half the length, and none if that is
/// negative.
pub open spec fn centre_pad(width: int, len: int) -> nat {
    if width / 2 >= len / 2 {
        (width / 2 - len / 2) as nat
    } else {
        0
    }
}

/// A banner row: the placeholder, then `text` pushed to the middle.
pub open spec fn banner_row(width: int, text: Seq<char>) -> Seq<char> {
    PLACEHOLDER@ + spaces(centre_pad(width, text.len() as int)) + text
}

/// The banner row that tells how to leave, its text in blue.
pub open spec fn hint_row(width: int) -> Seq<char> {
    PLACEHOLDER@ + spaces(centre_pad(width, QUIT_HINT@.len() as int)) + fg_blue_code() + QUIT_HINT@
        + fg_reset_code()
}

/// The words of the status line: name and version, column, row.
pub open spec fn status_text(x: int, y: int) -> Seq<char> {
    STATUS_NAME@ + VERSION@ + STATUS_COLUMN@ + decimal(x as nat) + STATUS_ROW@ + decimal(y as nat)
}

/// How many spaces fill the status line up to the terminal's width.
pub open spec fn status_pad(width: int, len: int) -> nat {
    if width >= len {
        (width - len) as nat
    } else {
        0
    }
}

/// The status row: dark bold text on green, filled up with spaces to the
/// terminal's width, then colours and style as they were.
pub open spec fn status_row(width: int, x: int, y: int) -> Seq<char> {
    fg_rgb_code(38, 38, 38) + bg_rgb_code(0, 175, 135) + bold_code() + status_text(x, y) + spaces(
        status_pad(width, status_text(x, y).len() as int),
    ) + fg_reset_code() + bg_reset_code() + style_reset_code()
}

/// What row `row` of the terminal shows. The last row is the command line
/// and the one above it the status line. Above those, an empty buffer shows
/// the four banner rows, a third of the way down; every other row shows the
/// buffer line that the offset puts there, or the placeholder if there is
/// none.
pub open spec fn row_text(s: State, row: int) -> Seq<char> {
    if row == s.height - 1 {
        s.command_bar
    } else if row == s.height - 2 {
        status_row(s.width, s.x, s.y)
    } else if s.is_empty() && row == s.height / 3 {
        banner_row(s.width, TITLE@ + VERSION@)
    } else if s.is_empty() && row == s.height / 3 + 2 {
        banner_row(s.width, SUBTITLE@)
    } else if s.is_empty() && row == s.height / 3 + 3 {
        banner_row(s.width, ATTRIBUTION@)
    } else if s.is_empty() && row == s.height / 3 + 5 {
        hint_row(s.width)
    } else if row + s.offset < s.lines.len() {
        s.lines[row + s.offset]
    } else {
        PLACEHOLDER@
    }
}

/// The frame: one row for each row of the terminal.
pub open spec fn frame(s: State) -> Seq<Seq<char>> {
    Seq::new(s.height as nat, |row: int| row_text(s, row))
}

/// The frame as one text, its rows parted by carriage return and line feed.
pub open spec fn screen(s: State) -> Seq<char> {
    joined(frame(s), ROW_BREAK@)
}

/// The number of spaces that `centre_pad` asks for.
fn centre(width: u16, len: usize) -> (pad: usize)
    ensures
        pad == centre_pad(width as int, len as int),
{
    let half = (width / 2) as usize;
    let back = len / 2;
    if half >= back {
        half - back
    } else {
        0
    }
}

/// Builds a banner row for a terminal `width` cells wide.
pub fn banner(width: u16, text: &str) -> (row: String)
    ensures
        row@ == banner_row(width as int, text@),
{
    let mut row = String::from_str(PLACEHOLDER);
    push_spaces(&mut row, centre(width, text.unicode_len()));
    row.append(text);
    row
}

/// Builds the banner row that tells how to leave.
pub fn hint(width: u16) -> (row: String)
    ensures
        row@ == hint_row(width as int),
{
    let mut row = String::from_str(PLACEHOLDER);
    push_spaces(&mut row, centre(width, QUIT_HINT.unicode_len()));
    row.append(fg_blue().as_str());
    row.append(QUIT_HINT);
    row.append(fg_reset().as_str());
    row
}

/// Builds the status row for a cursor at column `x` of row `y`.
pub fn status(width: u16, x: u16, y: u16) -> (row: String)
    ensures
        row@ == status_row(width as int, x as int, y as int),
{
    let mut text = String::from_str(STATUS_NAME);
    text.append(VERSION);
    text.append(STATUS_COLUMN);
    push_decimal(&mut text, x);
    text.append(STATUS_ROW);
    push_decimal(&mut text, y);
    let pad = (width as usize).saturating_sub(text.as_str().unicode_len());
    let mut row = fg_rgb(38, 38, 38);
    row.append(bg_rgb(0, 175, 135).as_str());
    row.append(bold().as_str());
    row.append(text.as_str());
    push_spaces(&mut row, pad);
    row.append(fg_reset().as_str());
    row.append(bg_reset().as_str());
    row.append(style_reset().as_str());
    row
}

} // verus!
