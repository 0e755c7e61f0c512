//! The escape sequences that colour and embolden the frame. The terminal
//! library renders them; nothing of what this module claims is proved.

use vstd::prelude::*;
use termion::{color, style};
use crate::text::decimal;

verus! {

/// Selects a foreground colour by its red, green and blue parts.
pub open spec fn fg_rgb_code(r: u8, g: u8, b: u8) -> Seq<char> {
    "\x1b[38;2;"@ + decimal(r as nat) + ";"@ + decimal(g as nat) + ";"@ + decimal(b as nat) + "m"@
}

/// Selects a background colour by its red, green and blue parts.
pub open spec fn bg_rgb_code(r: u8, g: u8, b: u8) -> Seq<char> {
    "\x1b[48;2;"@ + decimal(r as nat) + ";"@ + decimal(g as nat) + ";"@ + decimal(b as nat) + "m"@
}

/// Selects blue as the foreground colour.
pub open spec fn fg_blue_code() -> Seq<char> {
    "\x1b[38;5;4m"@
}

/// Gives the foreground its default colour back.
pub open spec fn fg_reset_code() -> Seq<char> {
    "\x1b[39m"@
}

/// Gives the background its default colour back.
pub open spec fn bg_reset_code() -> Seq<char> {
    "\x1b[49m"@
}

/// Switches bold text on.
pub open spec fn bold_code() -> Seq<char> {
    "\x1b[1m"@
}

/// Switches every text attribute off.
pub open spec fn style_reset_code() -> Seq<char> {
    "\x1b[m"@
}

/// Formats `termion::color::Fg(termion::color::Rgb(r, g, b))` through its
/// `Display` impl. Claimed: the text is the true-colour foreground sequence,
/// `ESC [ 38 ; 2 ;` then the three parts in decimal between semicolons, then
/// `m`.
#[verifier::external_body]
pub(crate) fn fg_rgb(r: u8, g: u8, b: u8) -> (code: String)
    ensures
        code@ == fg_rgb_code(r, g, b),
{
    format!("{}", color::Fg(color::Rgb(r, g, b)))
}

/// Formats `termion::color::Bg(termion::color::Rgb(r, g, b))` through its
/// `Display` impl. Claimed: the text is the true-colour background sequence,
/// `ESC [ 48 ; 2 ;` then the three parts in decimal between semicolons, then
/// `m`.
#[verifier::external_body]
pub(crate) fn bg_rgb(r: u8, g: u8, b: u8) -> (code: String)
    ensures
        code@ == bg_rgb_code(r, g, b),
{
    format!("{}", color::Bg(color::Rgb(r, g, b)))
}

/// Formats `termion::color::Fg(termion::color::Blue)` through its `Display`
/// impl. Claimed: the text is `ESC [ 38 ; 5 ; 4 m`.
#[verifier::external_body]
pub(crate) fn fg_blue() -> (code: String)
    ensures
        code@ == fg_blue_code(),
{
    format!("{}", color::Fg(color::Blue))
}

/// Formats `termion::color::Fg(termion::color::Reset)` through its `Display`
/// impl. Claimed: the text is `ESC [ 39 m`.
#[verifier::external_body]
pub(crate) fn fg_reset() -> (code: String)
    ensures
        code@ == fg_reset_code(),
{
    format!("{}", color::Fg(color::Reset))
}

/// Formats `termion::color::Bg(termion::color::Reset)` through its `Display`
/// impl. Claimed: the text is `ESC [ 49 m`.
#[verifier::external_body]
pub(crate) fn bg_reset() -> (code: String)
    ensures
        code@ == bg_reset_code(),
{
    format!("{}", color::Bg(color::Reset))
}

/// Formats `termion::style::Bold` through its `Display` impl. Claimed: the
/// text is `ESC [ 1 m`.
#[verifier::external_body]
pub(crate) fn bold() -> (code: String)
    ensures
        code@ == bold_code(),
{
    format!("{}", style::Bold)
}

/// Formats `termion::style::Reset` through its `Display` impl. Claimed: the
/// text is `ESC [ m`.
#[verifier::external_body]
pub(crate) fn style_reset() -> (code: String)
    ensures
        code@ == style_reset_code(),
{
    format!("{}", style::Reset)
}

} // verus!
