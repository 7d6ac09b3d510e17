//! Terminal styling of a cell's text, done by the `colored` crate.
//!
//! A `ColoredString` is opaque to the verifier. What the board's drawing
//! depends on (its text, its two colours and whether it is bold) is named by
//! `styling`, and the functions below say what each `colored` call does to it.
//! None of these statements is proved: they restate the `colored` source.

use colored::ColoredString;
use colored::Colorize;
use vstd::prelude::*;

verus! {

/// `colored::ColoredString`: a text together with the colours and the style
/// it is to be printed in. Nothing inside it is visible to proofs.
#[verifier::external_type_specification]
#[verifier::external_body]
pub struct ExColoredString(colored::ColoredString);

/// The colours the board is drawn in.
#[derive(Clone, Copy, Debug, PartialEq, Eq, Structural)]
pub enum Tint {
    Black,
    BrightCyan,
    BrightGreen,
    BrightMagenta,
}

/// The part of a styled string that the drawing depends on.
pub struct Styling {
    pub text: Seq<char>,
    pub foreground: Option<Tint>,
    pub background: Option<Tint>,
    pub bold: bool,
}

/// The text, colours and weight that a `ColoredString` carries: its `input`,
/// `fgcolor` and `bgcolor` fields, and whether its `style` contains
/// `Styles::Bold`. Of colours outside `Tint` nothing is said.
pub uninterp spec fn styling(cs: ColoredString) -> Styling;

/// `Colorize::bold` on a `&str`: a fresh string with the given text, no
/// colours, and the bold style switched on.
#[verifier::external_body]
pub(crate) fn bold(text: &str) -> (cs: ColoredString)
    ensures
        styling(cs) == (Styling { text: text@, foreground: None, background: None, bold: true }),
{
    text.bold()
}

/// `Colorize::black` on a `ColoredString`: sets the foreground colour to
/// black and leaves the rest as it was.
#[verifier::external_body]
pub(crate) fn black(cs: ColoredString) -> (out: ColoredString)
    ensures
        styling(out) == (Styling { foreground: Some(Tint::Black), ..styling(cs) }),
{
    cs.black()
}

/// `Colorize::on_bright_green` on a `ColoredString`: sets the background
/// colour to bright green and leaves the rest as it was.
#[verifier::external_body]
pub(crate) fn on_bright_green(cs: ColoredString) -> (out: ColoredString)
    ensures
        styling(out) == (Styling { background: Some(Tint::BrightGreen), ..styling(cs) }),
{
    cs.on_bright_green()
}

/// `Colorize::on_bright_magenta` on a `ColoredString`: sets the background
/// colour to bright magenta and leaves the rest as it was.
#[verifier::external_body]
pub(crate) fn on_bright_magenta(cs: ColoredString) -> (out: ColoredString)
    ensures
        styling(out) == (Styling { background: Some(Tint::BrightMagenta), ..styling(cs) }),
{
    cs.on_bright_magenta()
}

/// `Colorize::on_bright_cyan` on a `ColoredString`: sets the background
/// colour to bright cyan and leaves the rest as it was.
#[verifier::external_body]
pub(crate) fn on_bright_cyan(cs: ColoredString) -> (out: ColoredString)
    ensures
        styling(out) == (Styling { background: Some(Tint::BrightCyan), ..styling(cs) }),
{
    cs.on_bright_cyan()
}

} // verus!
