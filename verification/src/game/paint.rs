//! The calls into the `colored` crate. Verus does not read that crate: what
//! this file says of it is taken on trust from its source.

use colored::{ColoredString, Colorize};
use vstd::prelude::*;

verus! {

/// A text together with the colours it is printed in, as `colored` holds it.
/// Nothing inside it is visible to the proofs.
#[verifier::external_type_specification]
#[verifier::external_body]
pub struct ExColoredString(ColoredString);

/// What `Colorize::red` makes of a text: the text with a red foreground.
pub uninterp spec fn red_text(text: Seq<char>) -> ColoredString;

/// What `Colorize::blue` makes of a text: the text with a blue foreground.
pub uninterp spec fn blue_text(text: Seq<char>) -> ColoredString;

/// What `Colorize::truecolor` makes of a text: the text with the foreground
/// of the given red, green and blue parts.
pub uninterp spec fn truecolor_text(text: Seq<char>, r: u8, g: u8, b: u8) -> ColoredString;

/// What `Colorize::clear` makes of a text: the text without colour or style.
pub uninterp spec fn clear_text(text: Seq<char>) -> ColoredString;

/// What `Colorize::on_white` makes of a coloured text: the same text and
/// foreground on a white background.
pub uninterp spec fn on_white_text(base: ColoredString) -> ColoredString;

/// Calls `Colorize::red` on a string slice. The result depends on the text
/// alone: `colored` copies the text and sets the foreground to red.
#[verifier::external_body]
pub(crate) fn red(text: &str) -> (colored: ColoredString)
    ensures
        colored == red_text(text@),
{
    text.red()
}

/// Calls `Colorize::blue` on a string slice. The result depends on the text
/// alone: `colored` copies the text and sets the foreground to blue.
#[verifier::external_body]
pub(crate) fn blue(text: &str) -> (colored: ColoredString)
    ensures
        colored == blue_text(text@),
{
    text.blue()
}

/// Calls `Colorize::truecolor` on a string slice. The result depends on the
/// text and the three parts alone: `colored` copies the text and sets the
/// foreground to that colour.
#[verifier::external_body]
pub(crate) fn truecolor(text: &str, r: u8, g: u8, b: u8) -> (colored: ColoredString)
    ensures
        colored == truecolor_text(text@, r, g, b),
{
    text.truecolor(r, g, b)
}

/// Calls `Colorize::clear` on a string slice. The result depends on the text
/// alone: `colored` copies the text and leaves colours and style unset.
#[verifier::external_body]
pub(crate) fn clear(text: &str) -> (colored: ColoredString)
    ensures
        colored == clear_text(text@),
{
    text.clear()
}

/// Calls `Colorize::on_white` on a coloured text. The result depends on that
/// value alone: `colored` sets its background to white and changes nothing
/// else.
#[verifier::external_body]
pub(crate) fn on_white(base: ColoredString) -> (colored: ColoredString)
    ensures
        colored == on_white_text(base),
{
    base.on_white()
}

} // verus!
