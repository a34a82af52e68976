//! The styled text of the progress display and the verbose header.
//!
//! The progress bar is painted: its two header lines yellow, its glyphs
//! cyan — muted for the columns a previous run already covered, full for
//! the columns this run crosses. The escape sequences around the text come
//! from the `ansi_term` crate through trusted wrappers; everything composed
//! out of them is verified against the exact sequences that crate writes.

use vstd::prelude::*;

verus! {

/// The escape sequence `ansi_term` writes before cyan text.
pub open spec fn cyan_prefix() -> Seq<char> {
    "\u{1b}[36m"@
}

/// The escape sequence `ansi_term` writes before dimmed cyan text.
pub open spec fn dim_cyan_prefix() -> Seq<char> {
    "\u{1b}[2;36m"@
}

/// The escape sequence `ansi_term` writes before yellow text.
pub open spec fn yellow_prefix() -> Seq<char> {
    "\u{1b}[33m"@
}

/// The reset sequence that closes every painted stretch of text.
pub open spec fn style_reset() -> Seq<char> {
    "\u{1b}[0m"@
}

/// Paint `text` cyan.
///
/// Relies on `ansi_term::Colour::paint` and on the display of the string it
/// returns: the text between the cyan foreground code and the reset code.
#[verifier::external_body]
fn paint_cyan(text: &str) -> (r: String)
    ensures
        r@ == cyan_prefix() + text@ + style_reset(),
{
    ansi_term::Colour::Cyan.paint(text).to_string()
}

/// Paint `text` dimmed cyan, the muted weight of the resumed prefix.
///
/// Relies on `ansi_term::Style::paint` for the dimmed-cyan style and on the
/// display of the string it returns: the text between the dimmed cyan code
/// and the reset code.
#[verifier::external_body]
fn paint_cyan_dimmed(text: &str) -> (r: String)
    ensures
        r@ == dim_cyan_prefix() + text@ + style_reset(),
{
    ansi_term::Colour::Cyan.dimmed().paint(text).to_string()
}

/// Paint `text` yellow.
///
/// Relies on `ansi_term::Colour::paint` and on the display of the string it
/// returns: the text between the yellow foreground code and the reset code.
#[verifier::external_body]
fn paint_yellow(text: &str) -> (r: String)
    ensures
        r@ == yellow_prefix() + text@ + style_reset(),
{
    ansi_term::Colour::Yellow.paint(text).to_string()
}

/// The glyph one progress column is drawn with: a hash mark in ASCII
/// style, a medium-shade block otherwise.
pub open spec fn glyph_spec(ascii: bool) -> Seq<char> {
    if ascii {
        "#"@
    } else {
        "\u{2592}"@
    }
}

/// Pick the glyph of one progress column.
pub fn glyph(ascii: bool) -> (g: &'static str)
    ensures
        g@ == glyph_spec(ascii),
{
    if ascii {
        "#"
    } else {
        "\u{2592}"
    }
}

/// One painted glyph of the bar: muted cyan for a column the resumed
/// prefix already covered, full cyan for a column this run crossed.
pub fn render_glyph(ascii: bool, resumed: bool) -> (r: String)
    ensures
        r@ == (if resumed {
            dim_cyan_prefix()
        } else {
            cyan_prefix()
        }) + glyph_spec(ascii) + style_reset(),
{
    if resumed {
        paint_cyan_dimmed(glyph(ascii))
    } else {
        paint_cyan(glyph(ascii))
    }
}

/// The first header line of the scale: the numbers 0 to 100 spread over
/// the 101 columns.
pub open spec fn scale_text() -> Seq<char> {
    "0        10        20        30        40        50        60        70        80        90       100"@
}

/// The second header line: the ruler under the numbers, with a tick at
/// every tenth column, in ASCII or box-drawing style.
pub open spec fn ruler_text(ascii: bool) -> Seq<char> {
    if ascii {
        "|--------|---------|---------|---------|---------|---------|---------|---------|---------|---------|"@
    } else {
        "\u{2523}\u{252f}\u{252f}\u{252f}\u{252f}\u{252f}\u{252f}\u{252f}\u{252f}\u{254b}\u{252f}\u{252f}\u{252f}\u{252f}\u{252f}\u{252f}\u{252f}\u{252f}\u{252f}\u{254b}\u{252f}\u{252f}\u{252f}\u{252f}\u{252f}\u{252f}\u{252f}\u{252f}\u{252f}\u{254b}\u{252f}\u{252f}\u{252f}\u{252f}\u{252f}\u{252f}\u{252f}\u{252f}\u{252f}\u{254b}\u{252f}\u{252f}\u{252f}\u{252f}\u{252f}\u{252f}\u{252f}\u{252f}\u{252f}\u{254b}\u{252f}\u{252f}\u{252f}\u{252f}\u{252f}\u{252f}\u{252f}\u{252f}\u{252f}\u{254b}\u{252f}\u{252f}\u{252f}\u{252f}\u{252f}\u{252f}\u{252f}\u{252f}\u{252f}\u{2547}\u{252f}\u{252f}\u{252f}\u{252f}\u{252f}\u{252f}\u{252f}\u{252f}\u{252f}\u{254b}\u{252f}\u{252f}\u{252f}\u{252f}\u{252f}\u{252f}\u{252f}\u{252f}\u{252f}\u{254b}\u{252f}\u{252f}\u{252f}\u{252f}\u{252f}\u{252f}\u{252f}\u{252f}\u{252f}\u{252b}"@
    }
}

/// The painted first header line of the progress scale.
pub fn scale_line() -> (r: String)
    ensures
        r@ == yellow_prefix() + scale_text() + style_reset(),
{
    paint_yellow(
        "0        10        20        30        40        50        60        70        80        90       100",
    )
}

/// The painted second header line of the progress scale.
pub fn ruler_line(ascii: bool) -> (r: String)
    ensures
        r@ == yellow_prefix() + ruler_text(ascii) + style_reset(),
{
    if ascii {
        paint_yellow(
            "|--------|---------|---------|---------|---------|---------|---------|---------|---------|---------|",
        )
    } else {
        paint_yellow(
            "\u{2523}\u{252f}\u{252f}\u{252f}\u{252f}\u{252f}\u{252f}\u{252f}\u{252f}\u{254b}\u{252f}\u{252f}\u{252f}\u{252f}\u{252f}\u{252f}\u{252f}\u{252f}\u{252f}\u{254b}\u{252f}\u{252f}\u{252f}\u{252f}\u{252f}\u{252f}\u{252f}\u{252f}\u{252f}\u{254b}\u{252f}\u{252f}\u{252f}\u{252f}\u{252f}\u{252f}\u{252f}\u{252f}\u{252f}\u{254b}\u{252f}\u{252f}\u{252f}\u{252f}\u{252f}\u{252f}\u{252f}\u{252f}\u{252f}\u{254b}\u{252f}\u{252f}\u{252f}\u{252f}\u{252f}\u{252f}\u{252f}\u{252f}\u{252f}\u{254b}\u{252f}\u{252f}\u{252f}\u{252f}\u{252f}\u{252f}\u{252f}\u{252f}\u{252f}\u{2547}\u{252f}\u{252f}\u{252f}\u{252f}\u{252f}\u{252f}\u{252f}\u{252f}\u{252f}\u{254b}\u{252f}\u{252f}\u{252f}\u{252f}\u{252f}\u{252f}\u{252f}\u{252f}\u{252f}\u{254b}\u{252f}\u{252f}\u{252f}\u{252f}\u{252f}\u{252f}\u{252f}\u{252f}\u{252f}\u{252b}",
        )
    }
}

/// The unit a byte count is reported in by the verbose header, stepping up
/// at each power of 1024.
pub open spec fn size_unit_spec(size: int) -> Seq<char> {
    if size < 1024 {
        "bytes"@
    } else if size < 1024 * 1024 {
        "Kb"@
    } else if size < 1024 * 1024 * 1024 {
        "Mb"@
    } else if size < 1024 * 1024 * 1024 * 1024 {
        "Gb"@
    } else {
        "Tb"@
    }
}

/// What a byte count is divided by before it is reported in its unit.
pub open spec fn size_divisor_spec(size: int) -> int {
    if size < 1024 {
        1int
    } else if size < 1024 * 1024 {
        1024int
    } else if size < 1024 * 1024 * 1024 {
        (1024 * 1024) as int
    } else if size < 1024 * 1024 * 1024 * 1024 {
        (1024 * 1024 * 1024) as int
    } else {
        (1024 * 1024 * 1024 * 1024) as int
    }
}

/// Pick the unit a byte count is reported in.
pub fn size_unit(size: u64) -> (u: &'static str)
    ensures
        u@ == size_unit_spec(size as int),
{
    if size < 1024 {
        "bytes"
    } else if size < 1024 * 1024 {
        "Kb"
    } else if size < 1024 * 1024 * 1024 {
        "Mb"
    } else if size < 1024 * 1024 * 1024 * 1024 {
        "Gb"
    } else {
        "Tb"
    }
}

/// Pick the divisor that scales a byte count into its unit.
pub fn size_divisor(size: u64) -> (d: u64)
    ensures
        d == size_divisor_spec(size as int),
        d >= 1,
{
    if size < 1024 {
        1
    } else if size < 1024 * 1024 {
        1024
    } else if size < 1024 * 1024 * 1024 {
        1024 * 1024
    } else if size < 1024 * 1024 * 1024 * 1024 {
        1024 * 1024 * 1024
    } else {
        1024 * 1024 * 1024 * 1024
    }
}

} // verus!
