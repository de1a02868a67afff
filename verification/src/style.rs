//! Text styling for terminals, by ANSI escape sequences.
//!
//! A styled text is the escape `ESC [`, the style's codes separated by `;`,
//! the letter `m`, the text itself, and the reset sequence `ESC [ 0 m`.

use crate::decimal::decimal_digits;
use iridescent::Styled;
use vstd::prelude::*;

verus! {

/// `text` in bold: style code 1.
pub open spec fn bold(text: Seq<char>) -> Seq<char> {
    "\x1b[1m"@ + text + "\x1b[0m"@
}

/// `text` in the 24-bit foreground colour of the given red, green and blue:
/// style codes 38 and 2, then the three values.
pub open spec fn foreground(text: Seq<char>, red: u8, green: u8, blue: u8) -> Seq<char> {
    "\x1b[38;2;"@ + decimal_digits(red as nat) + ";"@ + decimal_digits(green as nat) + ";"@
        + decimal_digits(blue as nat) + "m"@ + text + "\x1b[0m"@
}

/// The low eight bits of `value`, which is what a conversion to a byte keeps.
pub open spec fn low_byte(value: i64) -> u8 {
    (value as int % 256) as u8
}

/// Calls iridescent's `Styled::bold` on `text` and formats the `StyledString`
/// that it returns. The mode list then holds the one code 1 and no colour is
/// set, so what comes out is `ESC [ 1 m`, the text, and `ESC [ 0 m`.
#[verifier::external_body]
pub(crate) fn render_bold(text: &str) -> (styled: String)
    ensures
        styled@ == bold(text@),
{
    text.bold().to_string()
}

/// Calls iridescent's `Styled::foreground` on `text` with an RGB colour and
/// formats the `StyledString` that it returns. No mode is set, so the codes
/// are 38, 2 and the three colour values, each written in base ten.
#[verifier::external_body]
pub(crate) fn render_foreground(text: &str, red: u8, green: u8, blue: u8) -> (styled: String)
    ensures
        styled@ == foreground(text@, red, green, blue),
{
    text.foreground(&[red, green, blue]).to_string()
}

} // verus!
