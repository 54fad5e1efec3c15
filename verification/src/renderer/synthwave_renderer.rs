//! The synthwave frame: a double-lined box holding the bar between the
//! window's boundaries, and an energy message beneath.

use crate::progress::Progress;
use crate::renderer::styled_renderer::{
    bold, bold_line, lines_model, plain, plain_line, plain_line_str, push_line, spec_bar_cells,
    Line, LineModel, MAX_WIDTH,
};
use crate::text::{self, char_repeat, dec_str, sat_add, sat_sub, upper_of};
use crate::timespan::{spec_duration_str, spec_format_string};
use crate::wallclock::formatted_or_empty;
use vstd::prelude::*;
use vstd::string::StrSliceExecFns;

verus! {

/// Renders the synthwave style.
pub struct SynthwaveRenderer {
    pub title: Option<String>,
    pub progress: Progress,
}

/// The title line: the uppercased title between horizontal rules.
pub open spec fn spec_synthwave_title(title: Seq<char>) -> Seq<char> {
    "\u{2550} "@ + upper_of(title) + " \u{2550}"@
}

/// The top border of the box.
pub open spec fn spec_synthwave_top(width: int) -> Seq<char> {
    "\u{2554}"@ + char_repeat('\u{2550}', sat_sub(width, 2)) + "\u{2557}"@
}

/// The bottom border of the box.
pub open spec fn spec_synthwave_bottom(width: int) -> Seq<char> {
    "\u{255a}"@ + char_repeat('\u{2550}', sat_sub(width, 2)) + "\u{255d}"@
}

/// The columns left for bar cells once the borders, paddings and both
/// boundary labels are placed.
pub open spec fn spec_synthwave_bar_width(p: Progress, width: int) -> int {
    let f = spec_format_string(p.timespan.duration as int);
    let from_len = formatted_or_empty(p.timespan.from as int, f).len() as int;
    let to_len = formatted_or_empty(p.timespan.to as int, f).len() as int;
    sat_sub(
        sat_sub(
            sat_sub(
                sat_sub(
                    sat_sub(
                        sat_sub(
                            sat_sub(sat_sub(sat_sub(sat_sub(width, 1), 1), from_len), 1),
                            1,
                        ),
                        1,
                    ),
                    1,
                ),
                to_len,
            ),
            1,
        ),
        1,
    )
}

/// The bar line: the boundary labels and the proportional bar, walled in.
pub open spec fn spec_synthwave_bar(p: Progress, width: int) -> Seq<char> {
    let f = spec_format_string(p.timespan.duration as int);
    "\u{2551} "@ + formatted_or_empty(p.timespan.from as int, f) + "  "@ + spec_bar_cells(
        p.ratio as int,
        spec_synthwave_bar_width(p, width),
    ) + "  "@ + formatted_or_empty(p.timespan.to as int, f) + " \u{2551}"@
}

/// The info text: percentage, elapsed time, and the window's total duration.
pub open spec fn spec_synthwave_info(p: Progress) -> Seq<char> {
    dec_str(p.ratio as int) + "% | "@ + spec_duration_str(p.elapsed as int) + " elapsed | "@
        + spec_duration_str(p.timespan.duration as int) + " remaining"@
}

/// The info line: the info text aligned under the bar and padded out to the
/// right wall.
pub open spec fn spec_synthwave_progress(p: Progress, width: int) -> Seq<char> {
    let f = spec_format_string(p.timespan.duration as int);
    let left = sat_add(formatted_or_empty(p.timespan.from as int, f).len() as int, 3);
    let info = spec_synthwave_info(p);
    let right = sat_sub(sat_sub(sat_sub(sat_sub(width, 1), left), info.len() as int), 1);
    "\u{2551}"@ + char_repeat(' ', left) + info + char_repeat(' ', right) + "\u{2551}"@
}

/// The message shown beneath the box.
pub open spec fn spec_synthwave_message_text(p: Progress) -> (Seq<char>, Seq<char>) {
    if p.current_time >= p.timespan.to {
        ("\u{2714}"@, "COMPLETED\u{fe0e}"@)
    } else {
        ("\u{26a1}"@, "KEEP THE ENERGY FLOWING"@)
    }
}

/// The message line, centred under the box.
pub open spec fn spec_synthwave_message(p: Progress, width: int) -> Seq<char> {
    let (sym, msg) = spec_synthwave_message_text(p);
    let msg_len = sat_add(msg.len() as int, 4);
    let left = sat_sub(width, msg_len) / 2;
    let right = sat_sub(sat_sub(width, left), msg_len);
    char_repeat(' ', left) + sym + " "@ + msg + " "@ + sym + char_repeat(' ', right)
}

/// The whole synthwave frame, in order.
pub open spec fn spec_synthwave_render(p: Progress, title: Option<Seq<char>>, width: int) -> Seq<
    LineModel,
> {
    let base = seq![
        plain(spec_synthwave_top(width)),
        plain(spec_synthwave_bar(p, width)),
        plain(spec_synthwave_progress(p, width)),
        plain(spec_synthwave_bottom(width)),
        plain(spec_synthwave_message(p, width)),
    ];
    match title {
        Some(t) => seq![bold(spec_synthwave_title(t))] + base,
        None => base,
    }
}

impl SynthwaveRenderer {
    /// The renderer invariant: a well-formed snapshot.
    pub open spec fn wf(&self) -> bool {
        self.progress.wf()
    }

    /// Pairs a snapshot with an optional title.
    pub fn new(title: Option<String>, progress: Progress) -> (r: SynthwaveRenderer)
        ensures
            r == (SynthwaveRenderer { title, progress }),
    {
        SynthwaveRenderer { title, progress }
    }

    /// The title line, when a title was given.
    pub fn build_title(&self) -> (r: Option<String>)
        ensures
            text::opt_view(r) == match text::opt_view(self.title) {
                Some(t) => Some(spec_synthwave_title(t)),
                None => None::<Seq<char>>,
            },
    {
        match &self.title {
            Some(title) => {
                let upper = text::uppercase(title.as_str());
                let mut buf: Vec<char> = Vec::new();
                text::append_str(&mut buf, "\u{2550} ");
                text::append_str(&mut buf, upper.as_str());
                text::append_str(&mut buf, " \u{2550}");
                proof {
                    assert(buf@ =~= spec_synthwave_title(self.title->Some_0@));
                }
                Some(text::string_of(buf))
            },
            None => None,
        }
    }

    /// The top border.
    pub fn build_top_border(&self, width: usize) -> (r: String)
        ensures
            r@ == spec_synthwave_top(width as int),
    {
        let mut buf: Vec<char> = Vec::new();
        text::append_str(&mut buf, "\u{2554}");
        text::append_repeat(&mut buf, '\u{2550}', text::usize_sat_sub(width, 2));
        text::append_str(&mut buf, "\u{2557}");
        proof {
            assert(buf@ =~= spec_synthwave_top(width as int));
        }
        text::string_of(buf)
    }

    /// The bottom border.
    pub fn build_bottom_border(&self, width: usize) -> (r: String)
        ensures
            r@ == spec_synthwave_bottom(width as int),
    {
        let mut buf: Vec<char> = Vec::new();
        text::append_str(&mut buf, "\u{255a}");
        text::append_repeat(&mut buf, '\u{2550}', text::usize_sat_sub(width, 2));
        text::append_str(&mut buf, "\u{255d}");
        proof {
            assert(buf@ =~= spec_synthwave_bottom(width as int));
        }
        text::string_of(buf)
    }

    /// How many columns of a `width`-column terminal the bar cells get.
    pub fn bar_width(&self, width: usize) -> (r: usize)
        requires
            self.wf(),
        ensures
            r as int == spec_synthwave_bar_width(self.progress, width as int),
            r <= width,
    {
        let from = self.progress.timespan.format_from();
        let to = self.progress.timespan.format_to();
        let from_len = from.as_str().unicode_len();
        let to_len = to.as_str().unicode_len();
        let mut r = text::usize_sat_sub(width, 1);
        r = text::usize_sat_sub(r, 1);
        r = text::usize_sat_sub(r, from_len);
        r = text::usize_sat_sub(r, 1);
        r = text::usize_sat_sub(r, 1);
        r = text::usize_sat_sub(r, 1);
        r = text::usize_sat_sub(r, 1);
        r = text::usize_sat_sub(r, to_len);
        r = text::usize_sat_sub(r, 1);
        r = text::usize_sat_sub(r, 1);
        r
    }

    /// The bar line.
    pub fn build_bar(&self, width: usize) -> (r: String)
        requires
            self.wf(),
            width <= MAX_WIDTH,
        ensures
            r@ == spec_synthwave_bar(self.progress, width as int),
    {
        let from = self.progress.timespan.format_from();
        let to = self.progress.timespan.format_to();
        let cells = self.bar_width(width);
        let mut buf: Vec<char> = Vec::new();
        text::append_str(&mut buf, "\u{2551} ");
        text::append_str(&mut buf, from.as_str());
        text::append_str(&mut buf, "  ");
        proof {
            crate::progress::lemma_ratio_bounds(
                self.progress.timespan,
                self.progress.current_time as int,
            );
        }
        crate::renderer::styled_renderer::append_bar_cells(&mut buf, self.progress.ratio, cells);
        text::append_str(&mut buf, "  ");
        text::append_str(&mut buf, to.as_str());
        text::append_str(&mut buf, " \u{2551}");
        proof {
            assert(buf@ =~= spec_synthwave_bar(self.progress, width as int));
        }
        text::string_of(buf)
    }

    /// The info line.
    pub fn build_progress(&self, width: usize) -> (r: String)
        requires
            self.wf(),
            width <= MAX_WIDTH,
        ensures
            r@ == spec_synthwave_progress(self.progress, width as int),
    {
        let from = self.progress.timespan.format_from();
        let elapsed = self.progress.format_elapsed();
        let total = self.progress.timespan.format_duration();
        let left = text::usize_sat_add(from.as_str().unicode_len(), 3);
        let mut info: Vec<char> = Vec::new();
        text::append_u64(&mut info, self.progress.ratio as u64);
        text::append_str(&mut info, "% | ");
        text::append_str(&mut info, elapsed.as_str());
        text::append_str(&mut info, " elapsed | ");
        text::append_str(&mut info, total.as_str());
        text::append_str(&mut info, " remaining");
        proof {
            assert(info@ =~= spec_synthwave_info(self.progress));
        }
        let mut right = text::usize_sat_sub(width, 1);
        right = text::usize_sat_sub(right, left);
        right = text::usize_sat_sub(right, info.len());
        right = text::usize_sat_sub(right, 1);
        let mut buf: Vec<char> = Vec::new();
        text::append_str(&mut buf, "\u{2551}");
        text::append_repeat(&mut buf, ' ', left);
        text::append_chars(&mut buf, &info);
        text::append_repeat(&mut buf, ' ', right);
        text::append_str(&mut buf, "\u{2551}");
        proof {
            assert(buf@ =~= spec_synthwave_progress(self.progress, width as int));
        }
        text::string_of(buf)
    }

    /// The message line.
    pub fn build_message(&self, width: usize) -> (r: String)
        requires
            self.wf(),
            width <= MAX_WIDTH,
        ensures
            r@ == spec_synthwave_message(self.progress, width as int),
    {
        let (sym, msg): (&str, &str) = if self.progress.is_complete() {
            ("\u{2714}", "COMPLETED\u{fe0e}")
        } else {
            ("\u{26a1}", "KEEP THE ENERGY FLOWING")
        };
        let msg_len = text::usize_sat_add(msg.unicode_len(), 4);
        let left = text::usize_sat_sub(width, msg_len) / 2;
        let right = text::usize_sat_sub(text::usize_sat_sub(width, left), msg_len);
        let mut buf: Vec<char> = Vec::new();
        text::append_repeat(&mut buf, ' ', left);
        text::append_str(&mut buf, sym);
        text::append_str(&mut buf, " ");
        text::append_str(&mut buf, msg);
        text::append_str(&mut buf, " ");
        text::append_str(&mut buf, sym);
        text::append_repeat(&mut buf, ' ', right);
        proof {
            assert(buf@ =~= spec_synthwave_message(self.progress, width as int));
        }
        text::string_of(buf)
    }

    /// The frame's lines for a terminal `width` columns wide.  The same
    /// snapshot, title and width always yield the same lines.
    pub fn render(&self, width: usize) -> (r: Vec<Line>)
        requires
            self.wf(),
            width <= MAX_WIDTH,
        ensures
            lines_model(r@) == spec_synthwave_render(
                self.progress,
                text::opt_view(self.title),
                width as int,
            ),
    {
        let mut lines: Vec<Line> = Vec::new();
        match self.build_title() {
            Some(t) => {
                let mut buf: Vec<char> = Vec::new();
                text::append_str(&mut buf, t.as_str());
                push_line(&mut lines, bold_line(buf));
            },
            None => {},
        }
        let top = self.build_top_border(width);
        push_line(&mut lines, plain_line_str(top.as_str()));
        let bar = self.build_bar(width);
        push_line(&mut lines, plain_line_str(bar.as_str()));
        let info = self.build_progress(width);
        push_line(&mut lines, plain_line_str(info.as_str()));
        let bottom = self.build_bottom_border(width);
        push_line(&mut lines, plain_line_str(bottom.as_str()));
        let message = self.build_message(width);
        push_line(&mut lines, plain_line_str(message.as_str()));
        proof {
            assert(lines_model(lines@) =~= spec_synthwave_render(
                self.progress,
                text::opt_view(self.title),
                width as int,
            ));
        }
        lines
    }
}

/// Idempotence: the frame is a function of the snapshot, title and width
/// alone, so rendering the same inputs twice yields identical output.
pub proof fn lemma_synthwave_render_idempotent(
    p: Progress,
    title: Option<Seq<char>>,
    width: int,
    first: Seq<LineModel>,
    second: Seq<LineModel>,
)
    requires
        first == spec_synthwave_render(p, title, width),
        second == spec_synthwave_render(p, title, width),
    ensures
        first == second,
{
}

} // verus!
