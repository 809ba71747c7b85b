//! Coloured text for the console, produced by `owo_colors`.

use owo_colors::OwoColorize;
use vstd::prelude::*;

verus! {

/// The escape sequence that switches the foreground back to the terminal's default.
pub open spec fn reset_code() -> Seq<char> {
    "\x1b[39m"@
}

/// The escape sequence that switches the foreground to red.
pub open spec fn red_code() -> Seq<char> {
    "\x1b[31m"@
}

/// The escape sequence that switches the foreground to green.
pub open spec fn green_code() -> Seq<char> {
    "\x1b[32m"@
}

/// The escape sequence that switches the foreground to yellow.
pub open spec fn yellow_code() -> Seq<char> {
    "\x1b[33m"@
}

/// `text` between a colour's escape sequence and the reset sequence.
pub open spec fn painted(code: Seq<char>, text: Seq<char>) -> Seq<char> {
    code + text + reset_code()
}

/// Trusted: formats `OwoColorize::red` of a string slice. The `Display` impl of
/// `owo_colors::FgColorDisplay` writes the colour's foreground sequence
/// (`ESC [ 31 m` for red), the text itself, then `ESC [ 39 m`.
#[verifier::external_body]
pub(crate) fn red(text: &str) -> (out: String)
    ensures
        out@ == painted(red_code(), text@),
{
    format!("{}", text.red())
}

/// Trusted: formats `OwoColorize::green` of a string slice. The `Display` impl of
/// `owo_colors::FgColorDisplay` writes the colour's foreground sequence
/// (`ESC [ 32 m` for green), the text itself, then `ESC [ 39 m`.
#[verifier::external_body]
pub(crate) fn green(text: &str) -> (out: String)
    ensures
        out@ == painted(green_code(), text@),
{
    format!("{}", text.green())
}

/// Trusted: formats `OwoColorize::yellow` of a string slice. The `Display` impl of
/// `owo_colors::FgColorDisplay` writes the colour's foreground sequence
/// (`ESC [ 33 m` for yellow), the text itself, then `ESC [ 39 m`.
#[verifier::external_body]
pub(crate) fn yellow(text: &str) -> (out: String)
    ensures
        out@ == painted(yellow_code(), text@),
{
    format!("{}", text.yellow())
}

} // verus!
