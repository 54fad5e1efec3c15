//! The default frame: an information line, a proportional bar, and the
//! remaining time.

use crate::progress::Progress;
use crate::renderer::styled_renderer::{
    lines_model, plain, plain_line, plain_line_str, push_line, spec_bar_cells, Line, MAX_WIDTH,
};
use crate::text;
use crate::timespan::{spec_duration_str, spec_format_string};
use crate::wallclock::formatted_or_empty;
use vstd::prelude::*;

verus! {

/// Renders the default style: title, information line, bar and remaining
/// time, all unemphasized.
pub struct DefaultRenderer {
    pub title: Option<String>,
    pub progress: Progress,
}

/// The information line: boundaries, percentage, and elapsed over total.
pub open spec fn spec_default_information(p: Progress) -> Seq<char> {
    let f = spec_format_string(p.timespan.duration as int);
    formatted_or_empty(p.timespan.from as int, f) + " \u{2192} "@ + formatted_or_empty(
        p.timespan.to as int,
        f,
    ) + "   |   "@ + text::dec_str(p.ratio as int) + "%"@ + "   |   "@ + spec_duration_str(
        p.elapsed as int,
    ) + " / "@ + spec_duration_str(p.timespan.duration as int)
}

/// The closing line: a completion notice once the window has elapsed, the
/// remaining time before that.
pub open spec fn spec_default_remaining(p: Progress) -> Seq<char> {
    if p.current_time >= p.timespan.to {
        "Completed"@
    } else {
        spec_duration_str(p.remaining as int) + " remaining"@
    }
}

/// The whole default frame, in order: the optional title, the information
/// line, a blank line, the bar, a blank line, and the closing line.
pub open spec fn spec_default_render(p: Progress, title: Option<Seq<char>>, width: int) -> Seq<
    crate::renderer::styled_renderer::LineModel,
> {
    let base = seq![
        plain(spec_default_information(p)),
        plain(Seq::empty()),
        plain(spec_bar_cells(p.ratio as int, width)),
        plain(Seq::empty()),
        plain(spec_default_remaining(p)),
    ];
    match title {
        Some(t) => seq![plain(t)] + base,
        None => base,
    }
}

impl DefaultRenderer {
    /// The renderer invariant: a well-formed snapshot.
    pub open spec fn wf(&self) -> bool {
        self.progress.wf()
    }

    /// Pairs a snapshot with an optional title line.
    pub fn new(title: Option<String>, progress: Progress) -> (r: DefaultRenderer)
        ensures
            r == (DefaultRenderer { title, progress }),
    {
        DefaultRenderer { title, progress }
    }

    /// The information line of this frame.
    pub fn build_information(&self) -> (r: String)
        requires
            self.wf(),
        ensures
            r@ == spec_default_information(self.progress),
    {
        let mut buf: Vec<char> = Vec::new();
        let from = self.progress.timespan.format_from();
        let to = self.progress.timespan.format_to();
        let elapsed = self.progress.format_elapsed();
        let total = self.progress.timespan.format_duration();
        text::append_str(&mut buf, from.as_str());
        text::append_str(&mut buf, " \u{2192} ");
        text::append_str(&mut buf, to.as_str());
        text::append_str(&mut buf, "   |   ");
        text::append_u64(&mut buf, self.progress.ratio as u64);
        text::append_str(&mut buf, "%");
        text::append_str(&mut buf, "   |   ");
        text::append_str(&mut buf, elapsed.as_str());
        text::append_str(&mut buf, " / ");
        text::append_str(&mut buf, total.as_str());
        proof {
            assert(buf@ =~= spec_default_information(self.progress));
        }
        text::string_of(buf)
    }

    /// The bar of this frame: `width` cells, filled proportionally (and so
    /// entirely filled exactly at completion).
    pub fn build_bar(&self, width: usize) -> (r: String)
        requires
            self.wf(),
            width <= MAX_WIDTH,
        ensures
            r@ == spec_bar_cells(self.progress.ratio as int, width as int),
    {
        let mut buf: Vec<char> = Vec::new();
        proof {
            crate::progress::lemma_ratio_bounds(
                self.progress.timespan,
                self.progress.current_time as int,
            );
        }
        crate::renderer::styled_renderer::append_bar_cells(&mut buf, self.progress.ratio, width);
        text::string_of(buf)
    }

    /// The closing line of this frame.
    pub fn build_remaining(&self) -> (r: String)
        requires
            self.wf(),
        ensures
            r@ == spec_default_remaining(self.progress),
    {
        if self.progress.is_complete() {
            let mut buf: Vec<char> = Vec::new();
            text::append_str(&mut buf, "Completed");
            text::string_of(buf)
        } else {
            let remaining = self.progress.format_remaining();
            let mut buf: Vec<char> = Vec::new();
            text::append_str(&mut buf, remaining.as_str());
            text::append_str(&mut buf, " remaining");
            proof {
                assert(buf@ =~= spec_default_remaining(self.progress));
            }
            text::string_of(buf)
        }
    }

    /// The frame's lines for a terminal `width` columns wide.  The same
    /// snapshot, title and width always yield the same lines.
    pub fn render(&self, width: usize) -> (r: Vec<Line>)
        requires
            self.wf(),
            width <= MAX_WIDTH,
        ensures
            lines_model(r@) == spec_default_render(
                self.progress,
                text::opt_view(self.title),
                width as int,
            ),
    {
        let mut lines: Vec<Line> = Vec::new();
        match &self.title {
            Some(t) => {
                push_line(&mut lines, plain_line_str(t.as_str()));
            },
            None => {},
        }
        let information = self.build_information();
        push_line(&mut lines, plain_line_str(information.as_str()));
        push_line(&mut lines, plain_line(Vec::new()));
        let bar = self.build_bar(width);
        push_line(&mut lines, plain_line_str(bar.as_str()));
        push_line(&mut lines, plain_line(Vec::new()));
        let remaining = self.build_remaining();
        push_line(&mut lines, plain_line_str(remaining.as_str()));
        proof {
            assert(lines_model(lines@) =~= spec_default_render(
                self.progress,
                text::opt_view(self.title),
                width as int,
            ));
        }
        lines
    }
}

/// Idempotence: the frame is a function of the snapshot, title and width
/// alone, so rendering the same inputs twice yields identical output.
pub proof fn lemma_default_render_idempotent(
    p: Progress,
    title: Option<Seq<char>>,
    width: int,
    first: Seq<crate::renderer::styled_renderer::LineModel>,
    second: Seq<crate::renderer::styled_renderer::LineModel>,
)
    requires
        first == spec_default_render(p, title, width),
        second == spec_default_render(p, title, width),
    ensures
        first == second,
{
}

} // verus!
