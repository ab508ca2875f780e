//! Colour for the status words, by the `console` crate.
//!
//! Whether `console` colours anything depends on the terminal and on the
//! environment, so the contracts here state both outcomes: the text as it
//! is, or the text between the escape sequence of the colour and the one
//! that resets it.

use vstd::prelude::*;

verus! {

/// The escape sequence that selects the graphic rendition `code`.
pub open spec fn escape(code: Seq<char>) -> Seq<char> {
    seq!['\x1b', '['] + code + seq!['m']
}

/// A text in a colour: the colour is switched on before it and everything is
/// reset after it.
pub open spec fn coloured(text: Seq<char>, code: Seq<char>) -> Seq<char> {
    escape(code) + text + escape(seq!['0'])
}

/// The rendition code of a green foreground.
pub open spec fn green_code() -> Seq<char> {
    seq!['3', '2']
}

/// The rendition code of a red foreground.
pub open spec fn red_code() -> Seq<char> {
    seq!['3', '1']
}

/// A text as `console` hands it out for the colour `code`: coloured, or left
/// alone where colours are switched off.
pub open spec fn styled_as(styled: Seq<char>, text: Seq<char>, code: Seq<char>) -> bool {
    styled == text || styled == coloured(text, code)
}

/// Calls `console::style(text).green()` and formats the result. Trusted: the
/// result is `text` itself where `console` finds colours disabled, and
/// otherwise `text` between `ESC [ 3 2 m` and `ESC [ 0 m`.
#[verifier::external_body]
pub(crate) fn green(text: &str) -> (styled: String)
    ensures
        styled_as(styled@, text@, green_code()),
{
    console::style(text).green().to_string()
}

/// Calls `console::style(text).red()` and formats the result. Trusted: the
/// result is `text` itself where `console` finds colours disabled, and
/// otherwise `text` between `ESC [ 3 1 m` and `ESC [ 0 m`.
#[verifier::external_body]
pub(crate) fn red(text: &str) -> (styled: String)
    ensures
        styled_as(styled@, text@, red_code()),
{
    console::style(text).red().to_string()
}

} // verus!
