//! The closed set of display styles, and the line type every renderer
//! produces.

use crate::text::{ascii_lower, ascii_lowercase, eq_chars_str, string_of};
use vstd::prelude::*;

verus! {

/// The display styles a session can be rendered in.
#[derive(Debug, Clone, Copy, PartialEq, Eq, Structural)]
pub enum Style {
    Default,
    Hourglass,
    Retro,
    Synthwave,
}

/// Which style a name selects: matching is case-insensitive, and an
/// unrecognized name falls back to the default style.
pub open spec fn spec_style_from_name(name: Seq<char>) -> Style {
    let lowered = ascii_lower(name);
    if lowered == "hourglass"@ {
        Style::Hourglass
    } else if lowered == "retro"@ {
        Style::Retro
    } else if lowered == "synthwave"@ {
        Style::Synthwave
    } else {
        Style::Default
    }
}

impl Style {
    /// Selects the style that `name` names, case-insensitively; an
    /// unrecognized name selects the default style.
    pub fn from_name(name: &str) -> (r: Style)
        ensures
            r == spec_style_from_name(name@),
    {
        let lowered = ascii_lowercase(name);
        if eq_chars_str(&lowered, "hourglass") {
            Style::Hourglass
        } else if eq_chars_str(&lowered, "retro") {
            Style::Retro
        } else if eq_chars_str(&lowered, "synthwave") {
            Style::Synthwave
        } else {
            Style::Default
        }
    }
}

/// The widest terminal any renderer lays a frame out for; keeps every width
/// computation inside machine integers.
pub const MAX_WIDTH: usize = 1000000;

/// How many of `width` bar cells are filled at `ratio` hundredths: the exact
/// fraction rounded to the nearest cell, halves up.
pub open spec fn bar_fill(ratio: int, width: int) -> int {
    (ratio * width + 50) / 100
}

/// The fill count lies between empty and full.
pub proof fn lemma_bar_fill_bounds(ratio: int, width: int)
    requires
        0 <= ratio <= 100,
        0 <= width,
    ensures
        0 <= bar_fill(ratio, width) <= width,
{
    vstd::arithmetic::div_mod::lemma_div_pos_is_pos(ratio * width + 50, 100);
    assert(ratio * width <= 100 * width) by (nonlinear_arith)
        requires
            0 <= ratio <= 100,
            0 <= width,
    ;
    vstd::arithmetic::div_mod::lemma_div_is_ordered(ratio * width + 50, 100 * width + 50, 100);
    vstd::arithmetic::div_mod::lemma_div_multiples_vanish_fancy(width, 50, 100);
}

/// A full-at-completion, proportional-otherwise bar: `fill` filled cells
/// followed by `width - fill` empty ones.
pub open spec fn spec_bar_cells(ratio: int, width: int) -> Seq<char> {
    let fill = bar_fill(ratio, width);
    crate::text::char_repeat('\u{2588}', fill) + crate::text::char_repeat(
        '\u{2591}',
        width - fill,
    )
}

/// Appends `width` bar cells, filled proportionally to `ratio` hundredths.
pub fn append_bar_cells(buf: &mut Vec<char>, ratio: u8, width: usize)
    requires
        ratio <= 100,
        width <= MAX_WIDTH,
    ensures
        final(buf)@ == old(buf)@ + spec_bar_cells(ratio as int, width as int),
{
    proof {
        lemma_bar_fill_bounds(ratio as int, width as int);
    }
    let fill: usize = (ratio as usize * width + 50) / 100;
    crate::text::append_repeat(buf, '\u{2588}', fill);
    crate::text::append_repeat(buf, '\u{2591}', width - fill);
    proof {
        assert(buf@ =~= old(buf)@ + spec_bar_cells(ratio as int, width as int));
    }
}

/// One rendered terminal line: its text, and whether it is emphasized.
#[derive(Debug)]
pub struct Line {
    pub text: String,
    pub bold: bool,
}

/// The mathematical value of a [`Line`].
pub ghost struct LineModel {
    pub text: Seq<char>,
    pub bold: bool,
}

impl View for Line {
    type V = LineModel;

    open spec fn view(&self) -> LineModel {
        LineModel { text: self.text@, bold: self.bold }
    }
}

/// An unemphasized line of the text `t`.
pub open spec fn plain(t: Seq<char>) -> LineModel {
    LineModel { text: t, bold: false }
}

/// An emphasized line of the text `t`.
pub open spec fn bold(t: Seq<char>) -> LineModel {
    LineModel { text: t, bold: true }
}

/// The models of a sequence of lines.
pub open spec fn lines_model(s: Seq<Line>) -> Seq<LineModel> {
    s.map_values(|l: Line| l@)
}

/// Packs an assembled character buffer into an unemphasized line.
pub fn plain_line(buf: Vec<char>) -> (r: Line)
    ensures
        r@ == plain(buf@),
{
    Line { text: string_of(buf), bold: false }
}

/// Packs an assembled character buffer into an emphasized line.
pub fn bold_line(buf: Vec<char>) -> (r: Line)
    ensures
        r@ == bold(buf@),
{
    Line { text: string_of(buf), bold: true }
}

/// An unemphasized line holding the text of `s`.
pub fn plain_line_str(s: &str) -> (r: Line)
    ensures
        r@ == plain(s@),
{
    let mut buf: Vec<char> = Vec::new();
    crate::text::append_str(&mut buf, s);
    plain_line(buf)
}

/// Appends a line to a frame.
pub fn push_line(lines: &mut Vec<Line>, l: Line)
    ensures
        lines_model(final(lines)@) == lines_model(old(lines)@).push(l@),
{
    lines.push(l);
    proof {
        assert(lines_model(lines@) =~= lines_model(old(lines)@).push(l@));
    }
}

} // verus!
