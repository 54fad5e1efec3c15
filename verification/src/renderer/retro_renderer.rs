//! The retro frame: bracketed labels, `=` rules, and a battle-report status
//! line picked by completion bucket.

use crate::progress::Progress;
use crate::renderer::styled_renderer::{
    lines_model, plain, plain_line, plain_line_str, push_line, spec_bar_cells, Line, LineModel,
    MAX_WIDTH,
};
use crate::text::{self, char_repeat, dec_str, upper_of};
use crate::timespan::spec_duration_str;
use crate::wallclock::formatted_or_empty;
use vstd::prelude::*;

verus! {

/// Renders the retro style.
pub struct RetroRenderer {
    pub title: Option<String>,
    pub progress: Progress,
}

/// The title line: the uppercased title in brackets, with a rallying cry.
pub open spec fn spec_retro_title(title: Seq<char>) -> Seq<char> {
    "["@ + upper_of(title) + "] FOCUS SESSION INITIATED"@
}

/// The start line, always under the full date-and-time format.
pub open spec fn spec_retro_from(p: Progress) -> Seq<char> {
    "[START]     "@ + formatted_or_empty(p.timespan.from as int, "%Y-%m-%d %H:%M:%S"@)
}

/// The end line, always under the full date-and-time format.
pub open spec fn spec_retro_to(p: Progress) -> Seq<char> {
    "[END]       "@ + formatted_or_empty(p.timespan.to as int, "%Y-%m-%d %H:%M:%S"@)
}

/// The elapsed line: percentage and elapsed time.
pub open spec fn spec_retro_elapsed(p: Progress) -> Seq<char> {
    "[ELAPSED]   "@ + dec_str(p.ratio as int) + "% | "@ + spec_duration_str(p.elapsed as int)
}

/// The remaining line.
pub open spec fn spec_retro_remaining(p: Progress) -> Seq<char> {
    "[REMAINING] "@ + spec_duration_str(p.remaining as int)
}

/// The bar: proportional cells between literal brackets, which take two of
/// the `width` columns.
pub open spec fn spec_retro_bar(ratio: int, width: int) -> Seq<char> {
    let inner = if width >= 2 {
        width - 2
    } else {
        0
    };
    "["@ + spec_bar_cells(ratio, inner) + "]"@
}

/// The status message for a completion of `ratio` hundredths.  Buckets are
/// inclusive on their upper end; only a full 100 reports the mission done.
pub open spec fn spec_retro_status(ratio: int) -> Seq<char> {
    if ratio <= 10 {
        "MISSION INITIATED. LOCK AND LOAD, SOLDIER!"@
    } else if ratio <= 25 {
        "ENGAGING TARGET. MAINTAIN FOCUS AND DISCIPLINE."@
    } else if ratio <= 50 {
        "BATTLE IN PROGRESS. HOLD YOUR POSITION, WARRIOR!"@
    } else if ratio <= 75 {
        "VICTORY IS WITHIN REACH. PUSH FORWARD!"@
    } else if ratio <= 90 {
        "ALMOST THERE, SOLDIER! HOLD YOUR POSITION."@
    } else if ratio <= 99 {
        "FINAL ASSAULT! BREAK THROUGH THE ENEMY LINES!"@
    } else {
        "MISSION ACCOMPLISHED! EXCELLENT WORK, SOLDIER!"@
    }
}

/// The whole retro frame, in order.
pub open spec fn spec_retro_render(p: Progress, title: Option<Seq<char>>, width: int) -> Seq<
    LineModel,
> {
    let divider = plain(char_repeat('=', width));
    let base = seq![
        divider,
        plain(spec_retro_from(p)),
        plain(spec_retro_to(p)),
        plain(spec_retro_elapsed(p)),
        plain(spec_retro_remaining(p)),
        plain(Seq::empty()),
        plain("[PROGRESS]"@),
        plain(spec_retro_bar(p.ratio as int, width)),
        divider,
        plain("STATUS: > "@ + spec_retro_status(p.ratio as int)),
        divider,
        plain("(Q) QUIT | (CTRL+C) ABORT"@),
    ];
    match title {
        Some(t) => seq![plain(spec_retro_title(t))] + base,
        None => base,
    }
}

impl RetroRenderer {
    /// The renderer invariant: a well-formed snapshot.
    pub open spec fn wf(&self) -> bool {
        self.progress.wf()
    }

    /// Pairs a snapshot with an optional title.
    pub fn new(title: Option<String>, progress: Progress) -> (r: RetroRenderer)
        ensures
            r == (RetroRenderer { title, progress }),
    {
        RetroRenderer { title, progress }
    }

    /// The title line, when a title was given.
    pub fn build_title(&self) -> (r: Option<String>)
        ensures
            text::opt_view(r) == match text::opt_view(self.title) {
                Some(t) => Some(spec_retro_title(t)),
                None => None::<Seq<char>>,
            },
    {
        match &self.title {
            Some(title) => {
                let upper = text::uppercase(title.as_str());
                let mut buf: Vec<char> = Vec::new();
                text::append_str(&mut buf, "[");
                text::append_str(&mut buf, upper.as_str());
                text::append_str(&mut buf, "] FOCUS SESSION INITIATED");
                proof {
                    assert(buf@ =~= spec_retro_title(self.title->Some_0@));
                }
                Some(text::string_of(buf))
            },
            None => None,
        }
    }

    /// The `=` rule that frames the report.
    pub fn build_divider(width: usize) -> (r: String)
        ensures
            r@ == char_repeat('=', width as int),
    {
        let mut buf: Vec<char> = Vec::new();
        text::append_repeat(&mut buf, '=', width);
        proof {
            assert(buf@ =~= char_repeat('=', width as int));
        }
        text::string_of(buf)
    }

    /// The start line.
    pub fn build_from(&self) -> (r: String)
        requires
            self.wf(),
        ensures
            r@ == spec_retro_from(self.progress),
    {
        let formatted = self.progress.timespan.format_from_with_string("%Y-%m-%d %H:%M:%S");
        let mut buf: Vec<char> = Vec::new();
        text::append_str(&mut buf, "[START]     ");
        text::append_str(&mut buf, formatted.as_str());
        proof {
            assert(buf@ =~= spec_retro_from(self.progress));
        }
        text::string_of(buf)
    }

    /// The end line.
    pub fn build_to(&self) -> (r: String)
        requires
            self.wf(),
        ensures
            r@ == spec_retro_to(self.progress),
    {
        let formatted = self.progress.timespan.format_to_with_string("%Y-%m-%d %H:%M:%S");
        let mut buf: Vec<char> = Vec::new();
        text::append_str(&mut buf, "[END]       ");
        text::append_str(&mut buf, formatted.as_str());
        proof {
            assert(buf@ =~= spec_retro_to(self.progress));
        }
        text::string_of(buf)
    }

    /// The elapsed line.
    pub fn build_elapsed(&self) -> (r: String)
        requires
            self.wf(),
        ensures
            r@ == spec_retro_elapsed(self.progress),
    {
        let elapsed = self.progress.format_elapsed();
        let mut buf: Vec<char> = Vec::new();
        text::append_str(&mut buf, "[ELAPSED]   ");
        text::append_u64(&mut buf, self.progress.ratio as u64);
        text::append_str(&mut buf, "% | ");
        text::append_str(&mut buf, elapsed.as_str());
        proof {
            assert(buf@ =~= spec_retro_elapsed(self.progress));
        }
        text::string_of(buf)
    }

    /// The remaining line.
    pub fn build_remaining(&self) -> (r: String)
        requires
            self.wf(),
        ensures
            r@ == spec_retro_remaining(self.progress),
    {
        let remaining = self.progress.format_remaining();
        let mut buf: Vec<char> = Vec::new();
        text::append_str(&mut buf, "[REMAINING] ");
        text::append_str(&mut buf, remaining.as_str());
        proof {
            assert(buf@ =~= spec_retro_remaining(self.progress));
        }
        text::string_of(buf)
    }

    /// The bracketed bar.
    pub fn build_bar(&self, width: usize) -> (r: String)
        requires
            self.wf(),
            width <= MAX_WIDTH,
        ensures
            r@ == spec_retro_bar(self.progress.ratio as int, width as int),
    {
        let inner: usize = if width >= 2 {
            width - 2
        } else {
            0
        };
        let mut buf: Vec<char> = Vec::new();
        text::append_str(&mut buf, "[");
        proof {
            crate::progress::lemma_ratio_bounds(
                self.progress.timespan,
                self.progress.current_time as int,
            );
        }
        crate::renderer::styled_renderer::append_bar_cells(&mut buf, self.progress.ratio, inner);
        text::append_str(&mut buf, "]");
        proof {
            assert(buf@ =~= spec_retro_bar(self.progress.ratio as int, width as int));
        }
        text::string_of(buf)
    }

    /// The status line.
    pub fn build_status(&self) -> (r: String)
        requires
            self.wf(),
        ensures
            r@ == "STATUS: > "@ + spec_retro_status(self.progress.ratio as int),
    {
        let ratio = self.progress.ratio;
        let status: &str = if ratio <= 10 {
            "MISSION INITIATED. LOCK AND LOAD, SOLDIER!"
        } else if ratio <= 25 {
            "ENGAGING TARGET. MAINTAIN FOCUS AND DISCIPLINE."
        } else if ratio <= 50 {
            "BATTLE IN PROGRESS. HOLD YOUR POSITION, WARRIOR!"
        } else if ratio <= 75 {
            "VICTORY IS WITHIN REACH. PUSH FORWARD!"
        } else if ratio <= 90 {
            "ALMOST THERE, SOLDIER! HOLD YOUR POSITION."
        } else if ratio <= 99 {
            "FINAL ASSAULT! BREAK THROUGH THE ENEMY LINES!"
        } else {
            "MISSION ACCOMPLISHED! EXCELLENT WORK, SOLDIER!"
        };
        let mut buf: Vec<char> = Vec::new();
        text::append_str(&mut buf, "STATUS: > ");
        text::append_str(&mut buf, status);
        text::string_of(buf)
    }

    /// The frame's lines for a terminal `width` columns wide.  The same
    /// snapshot, title and width always yield the same lines.
    pub fn render(&self, width: usize) -> (r: Vec<Line>)
        requires
            self.wf(),
            width <= MAX_WIDTH,
        ensures
            lines_model(r@) == spec_retro_render(
                self.progress,
                text::opt_view(self.title),
                width as int,
            ),
    {
        let mut lines: Vec<Line> = Vec::new();
        match self.build_title() {
            Some(t) => {
                push_line(&mut lines, plain_line_str(t.as_str()));
            },
            None => {},
        }
        let divider = Self::build_divider(width);
        push_line(&mut lines, plain_line_str(divider.as_str()));
        let from = self.build_from();
        push_line(&mut lines, plain_line_str(from.as_str()));
        let to = self.build_to();
        push_line(&mut lines, plain_line_str(to.as_str()));
        let elapsed = self.build_elapsed();
        push_line(&mut lines, plain_line_str(elapsed.as_str()));
        let remaining = self.build_remaining();
        push_line(&mut lines, plain_line_str(remaining.as_str()));
        push_line(&mut lines, plain_line(Vec::new()));
        push_line(&mut lines, plain_line_str("[PROGRESS]"));
        let bar = self.build_bar(width);
        push_line(&mut lines, plain_line_str(bar.as_str()));
        push_line(&mut lines, plain_line_str(divider.as_str()));
        let status = self.build_status();
        push_line(&mut lines, plain_line_str(status.as_str()));
        push_line(&mut lines, plain_line_str(divider.as_str()));
        push_line(&mut lines, plain_line_str("(Q) QUIT | (CTRL+C) ABORT"));
        proof {
            assert(lines_model(lines@) =~= spec_retro_render(
                self.progress,
                text::opt_view(self.title),
                width as int,
            ));
        }
        lines
    }
}

/// Idempotence: the frame is a function of the snapshot, title and width
/// alone, so rendering the same inputs twice yields identical output.
pub proof fn lemma_retro_render_idempotent(
    p: Progress,
    title: Option<Seq<char>>,
    width: int,
    first: Seq<LineModel>,
    second: Seq<LineModel>,
)
    requires
        first == spec_retro_render(p, title, width),
        second == spec_retro_render(p, title, width),
    ensures
        first == second,
{
}

} // verus!
