//! The theme system: a render context shared by all themes, three concrete
//! themes, and a registry that selects one by name.

use crate::renderer::styled_renderer::{
    bold, bold_line, lines_model, plain, plain_line, plain_line_str, push_line, spec_bar_cells,
    Line, LineModel, MAX_WIDTH,
};
use crate::text::{self, ascii_lower, char_repeat, dec_str, sat_add, sat_sub, strs_model, upper_of};
use crate::timespan::spec_format_string;
use crate::wallclock::{formatted_or_empty, valid_instant};
use vstd::prelude::*;
use vstd::string::StrSliceExecFns;

verus! {

broadcast use vstd::string::group_string_axioms;

/// Context data shared across all themes: the window, an optional title, the
/// sampling instant, and the completion in hundredths.
pub struct RenderContext {
    pub start: i64,
    pub end: i64,
    pub title: Option<String>,
    pub current_time: i64,
    /// Completion in hundredths, `0` to `100`.
    pub progress: u8,
}

/// The compactly formatted total duration of `d` seconds: minutes under an
/// hour, hours(+minutes) under a day, days(+hours) up to a week,
/// weeks(+days) under a year, else years(+days), omitting a zero remainder
/// term throughout.
pub open spec fn spec_ctx_total(d: int) -> Seq<char> {
    let total_minutes = d / 60;
    let total_hours = d / 3600;
    let total_days = d / 86400;
    if total_minutes < 60 {
        dec_str(total_minutes) + "m"@
    } else if total_hours < 24 {
        let minutes = total_minutes % 60;
        if minutes > 0 {
            dec_str(total_hours) + "h "@ + dec_str(minutes) + "m"@
        } else {
            dec_str(total_hours) + "h"@
        }
    } else if total_days <= 7 {
        let hours = total_hours % 24;
        if hours > 0 {
            dec_str(total_days) + "d "@ + dec_str(hours) + "h"@
        } else {
            dec_str(total_days) + "d"@
        }
    } else if total_days < 365 {
        let days = total_days % 7;
        if days > 0 {
            dec_str(total_days / 7) + "w "@ + dec_str(days) + "d"@
        } else {
            dec_str(total_days / 7) + "w"@
        }
    } else {
        let days = total_days % 365;
        if days > 0 {
            dec_str(total_days / 365) + "y "@ + dec_str(days) + "d"@
        } else {
            dec_str(total_days / 365) + "y"@
        }
    }
}

/// The seconds of the window behind the context's sampling instant, clamped
/// to `[0, duration]`.
pub open spec fn spec_ctx_elapsed(c: RenderContext) -> int {
    if c.current_time < c.start {
        0
    } else if c.current_time > c.end {
        c.end - c.start
    } else {
        c.current_time - c.start
    }
}

/// The seconds of the window ahead of the context's sampling instant,
/// clamped to `[0, duration]`.
pub open spec fn spec_ctx_remaining(c: RenderContext) -> int {
    if c.current_time < c.start {
        c.end - c.start
    } else if c.current_time > c.end {
        0
    } else {
        c.end - c.current_time
    }
}

/// The spaced formatting of an elapsed span of `e` seconds: minutes, then
/// hours and minutes, then days (with hours only under three days), then
/// years and days.
pub open spec fn spec_ctx_elapsed_str(e: int) -> Seq<char> {
    let minutes = e / 60;
    let hours = e / 3600;
    let days = e / 86400;
    if minutes < 60 {
        dec_str(minutes) + " m"@
    } else if hours < 24 {
        dec_str(hours) + " h "@ + dec_str(minutes % 60) + " m"@
    } else if days < 365 {
        if days < 3 {
            dec_str(days) + " d "@ + dec_str(hours % 24) + " h"@
        } else {
            dec_str(days) + " d"@
        }
    } else {
        let remaining_days = days % 365;
        if remaining_days > 0 {
            dec_str(days / 365) + " y "@ + dec_str(remaining_days) + " d"@
        } else {
            dec_str(days / 365) + " y"@
        }
    }
}

/// The spaced formatting of a remaining span of `e` seconds: minutes, then
/// hours and minutes, then days and hours, then years and days.
pub open spec fn spec_ctx_remaining_str(e: int) -> Seq<char> {
    let minutes = e / 60;
    let hours = e / 3600;
    let days = e / 86400;
    if minutes < 60 {
        dec_str(minutes) + " m"@
    } else if hours < 24 {
        dec_str(hours) + " h "@ + dec_str(minutes % 60) + " m"@
    } else if days < 365 {
        dec_str(days) + " d "@ + dec_str(hours % 24) + " h"@
    } else {
        let remaining_days = days % 365;
        if remaining_days > 0 {
            dec_str(days / 365) + " y "@ + dec_str(remaining_days) + " d"@
        } else {
            dec_str(days / 365) + " y"@
        }
    }
}

impl RenderContext {
    /// The context invariant: in-range instants, a forward window, and a
    /// completion of at most 100 hundredths.
    pub open spec fn wf(&self) -> bool {
        &&& valid_instant(self.start)
        &&& valid_instant(self.end)
        &&& self.start < self.end
        &&& valid_instant(self.current_time)
        &&& self.progress <= 100
    }

    /// Packs the validated per-tick inputs for the themes.
    pub fn new(start: i64, end: i64, title: Option<String>, current_time: i64, progress: u8) -> (r:
        RenderContext)
        requires
            valid_instant(start),
            valid_instant(end),
            start < end,
            valid_instant(current_time),
            progress <= 100,
        ensures
            r == (RenderContext { start, end, title, current_time, progress }),
            r.wf(),
    {
        RenderContext { start, end, title, current_time, progress }
    }

    /// The duration-adaptive boundary format string: clock time for windows
    /// under a day, month-day clock time under three weeks, calendar date
    /// otherwise.
    pub fn get_time_format(&self) -> (r: &'static str)
        requires
            self.wf(),
        ensures
            r@ == spec_format_string(self.end - self.start),
    {
        let duration = self.end - self.start;
        if duration < 86400 {
            "%H:%M"
        } else if duration < 1814400 {
            "%m-%d %H:%M"
        } else {
            "%Y-%m-%d"
        }
    }

    /// The window's start under the duration-adaptive format.
    pub fn format_start_time(&self) -> (r: String)
        requires
            self.wf(),
        ensures
            r@ == formatted_or_empty(self.start as int, spec_format_string(self.end - self.start)),
    {
        let fmt = self.get_time_format();
        let formatted = crate::wallclock::format_instant(self.start, fmt);
        formatted.unwrap()
    }

    /// The window's end under the duration-adaptive format.
    pub fn format_end_time(&self) -> (r: String)
        requires
            self.wf(),
        ensures
            r@ == formatted_or_empty(self.end as int, spec_format_string(self.end - self.start)),
    {
        let fmt = self.get_time_format();
        let formatted = crate::wallclock::format_instant(self.end, fmt);
        formatted.unwrap()
    }

    /// The window's start under the full date-and-time format.
    pub fn format_start_time_retro(&self) -> (r: String)
        requires
            self.wf(),
        ensures
            r@ == formatted_or_empty(self.start as int, "%Y-%m-%d %H:%M:%S"@),
    {
        let formatted = crate::wallclock::format_instant(self.start, "%Y-%m-%d %H:%M:%S");
        formatted.unwrap()
    }

    /// The window's end under the full date-and-time format.
    pub fn format_end_time_retro(&self) -> (r: String)
        requires
            self.wf(),
        ensures
            r@ == formatted_or_empty(self.end as int, "%Y-%m-%d %H:%M:%S"@),
    {
        let formatted = crate::wallclock::format_instant(self.end, "%Y-%m-%d %H:%M:%S");
        formatted.unwrap()
    }

    /// The window's total duration, compactly formatted.
    pub fn format_total_time(&self) -> (r: String)
        requires
            self.wf(),
        ensures
            r@ == spec_ctx_total(self.end - self.start),
    {
        let d = self.end - self.start;
        let total_minutes = d / 60;
        let total_hours = d / 3600;
        let total_days = d / 86400;
        let mut buf: Vec<char> = Vec::new();
        if total_minutes < 60 {
            text::append_u64(&mut buf, total_minutes as u64);
            text::append_str(&mut buf, "m");
        } else if total_hours < 24 {
            let minutes = total_minutes % 60;
            text::append_u64(&mut buf, total_hours as u64);
            if minutes > 0 {
                text::append_str(&mut buf, "h ");
                text::append_u64(&mut buf, minutes as u64);
                text::append_str(&mut buf, "m");
            } else {
                text::append_str(&mut buf, "h");
            }
        } else if total_days <= 7 {
            let hours = total_hours % 24;
            text::append_u64(&mut buf, total_days as u64);
            if hours > 0 {
                text::append_str(&mut buf, "d ");
                text::append_u64(&mut buf, hours as u64);
                text::append_str(&mut buf, "h");
            } else {
                text::append_str(&mut buf, "d");
            }
        } else if total_days < 365 {
            let days = total_days % 7;
            text::append_u64(&mut buf, (total_days / 7) as u64);
            if days > 0 {
                text::append_str(&mut buf, "w ");
                text::append_u64(&mut buf, days as u64);
                text::append_str(&mut buf, "d");
            } else {
                text::append_str(&mut buf, "w");
            }
        } else {
            let days = total_days % 365;
            text::append_u64(&mut buf, (total_days / 365) as u64);
            if days > 0 {
                text::append_str(&mut buf, "y ");
                text::append_u64(&mut buf, days as u64);
                text::append_str(&mut buf, "d");
            } else {
                text::append_str(&mut buf, "y");
            }
        }
        proof {
            assert(buf@ =~= spec_ctx_total(d as int));
        }
        text::string_of(buf)
    }

    /// The elapsed seconds, clamped into the window.
    pub fn calculate_elapsed_time(&self) -> (r: i64)
        requires
            self.wf(),
        ensures
            r as int == spec_ctx_elapsed(*self),
    {
        if self.current_time < self.start {
            0
        } else if self.current_time > self.end {
            self.end - self.start
        } else {
            self.current_time - self.start
        }
    }

    /// The remaining seconds, clamped into the window.
    pub fn calculate_remaining_time(&self) -> (r: i64)
        requires
            self.wf(),
        ensures
            r as int == spec_ctx_remaining(*self),
    {
        if self.current_time < self.start {
            self.end - self.start
        } else if self.current_time > self.end {
            0
        } else {
            self.end - self.current_time
        }
    }

    /// The elapsed time, spaced human-readable.
    pub fn format_elapsed_time(&self) -> (r: String)
        requires
            self.wf(),
        ensures
            r@ == spec_ctx_elapsed_str(spec_ctx_elapsed(*self)),
    {
        let e = self.calculate_elapsed_time();
        let minutes = e / 60;
        let hours = e / 3600;
        let days = e / 86400;
        let mut buf: Vec<char> = Vec::new();
        if minutes < 60 {
            text::append_u64(&mut buf, minutes as u64);
            text::append_str(&mut buf, " m");
        } else if hours < 24 {
            text::append_u64(&mut buf, hours as u64);
            text::append_str(&mut buf, " h ");
            text::append_u64(&mut buf, (minutes % 60) as u64);
            text::append_str(&mut buf, " m");
        } else if days < 365 {
            if days < 3 {
                text::append_u64(&mut buf, days as u64);
                text::append_str(&mut buf, " d ");
                text::append_u64(&mut buf, (hours % 24) as u64);
                text::append_str(&mut buf, " h");
            } else {
                text::append_u64(&mut buf, days as u64);
                text::append_str(&mut buf, " d");
            }
        } else {
            let remaining_days = days % 365;
            text::append_u64(&mut buf, (days / 365) as u64);
            if remaining_days > 0 {
                text::append_str(&mut buf, " y ");
                text::append_u64(&mut buf, remaining_days as u64);
                text::append_str(&mut buf, " d");
            } else {
                text::append_str(&mut buf, " y");
            }
        }
        proof {
            assert(buf@ =~= spec_ctx_elapsed_str(e as int));
        }
        text::string_of(buf)
    }

    /// The remaining time, spaced human-readable.
    pub fn format_remaining_time(&self) -> (r: String)
        requires
            self.wf(),
        ensures
            r@ == spec_ctx_remaining_str(spec_ctx_remaining(*self)),
    {
        let e = self.calculate_remaining_time();
        let minutes = e / 60;
        let hours = e / 3600;
        let days = e / 86400;
        let mut buf: Vec<char> = Vec::new();
        if minutes < 60 {
            text::append_u64(&mut buf, minutes as u64);
            text::append_str(&mut buf, " m");
        } else if hours < 24 {
            text::append_u64(&mut buf, hours as u64);
            text::append_str(&mut buf, " h ");
            text::append_u64(&mut buf, (minutes % 60) as u64);
            text::append_str(&mut buf, " m");
        } else if days < 365 {
            text::append_u64(&mut buf, days as u64);
            text::append_str(&mut buf, " d ");
            text::append_u64(&mut buf, (hours % 24) as u64);
            text::append_str(&mut buf, " h");
        } else {
            let remaining_days = days % 365;
            text::append_u64(&mut buf, (days / 365) as u64);
            if remaining_days > 0 {
                text::append_str(&mut buf, " y ");
                text::append_u64(&mut buf, remaining_days as u64);
                text::append_str(&mut buf, " d");
            } else {
                text::append_str(&mut buf, " y");
            }
        }
        proof {
            assert(buf@ =~= spec_ctx_remaining_str(e as int));
        }
        text::string_of(buf)
    }
}

/// The closed set of themes the registry can hand out.
#[derive(Debug, Clone, Copy, PartialEq, Eq, Structural)]
pub enum ThemeType {
    Default,
    Retro,
    Synthwave,
}

/// The default theme's information line: boundaries, percentage, and elapsed
/// over total.
pub open spec fn spec_theme_information(c: RenderContext) -> Seq<char> {
    let f = spec_format_string(c.end - c.start);
    formatted_or_empty(c.start as int, f) + " \u{2192} "@ + formatted_or_empty(c.end as int, f)
        + "   |   "@ + dec_str(c.progress as int) + "%"@ + "   |   "@ + spec_ctx_elapsed_str(
        spec_ctx_elapsed(c),
    ) + " / "@ + spec_ctx_total(c.end - c.start)
}

/// The default theme's whole frame, in order: the optional title, the
/// information line, a blank line, the bar, a blank line, the remaining
/// time.
pub open spec fn spec_default_theme_render(c: RenderContext, width: int) -> Seq<LineModel> {
    let base = seq![
        plain(spec_theme_information(c)),
        plain(Seq::empty()),
        plain(spec_bar_cells(c.progress as int, width)),
        plain(Seq::empty()),
        plain(spec_ctx_remaining_str(spec_ctx_remaining(c)) + " remaining"@),
    ];
    match crate::text::opt_view(c.title) {
        Some(t) => seq![plain(t)] + base,
        None => base,
    }
}

/// Renders the default theme.
pub struct DefaultTheme;

impl DefaultTheme {
    /// The theme's registry name.
    pub fn name(&self) -> (r: &'static str)
        ensures
            r@ == "default"@,
    {
        "default"
    }

    /// The bar: `width` cells, filled proportionally.
    pub fn build_bar(progress: u8, width: usize) -> (r: String)
        requires
            progress <= 100,
            width <= MAX_WIDTH,
        ensures
            r@ == spec_bar_cells(progress as int, width as int),
    {
        let mut buf: Vec<char> = Vec::new();
        crate::renderer::styled_renderer::append_bar_cells(&mut buf, progress, width);
        text::string_of(buf)
    }

    /// The frame's lines for a terminal `width` columns wide.  The same
    /// context and width always yield the same lines.
    pub fn render(&self, context: &RenderContext, width: usize) -> (r: Vec<Line>)
        requires
            context.wf(),
            width <= MAX_WIDTH,
        ensures
            lines_model(r@) == spec_default_theme_render(*context, width as int),
    {
        let mut lines: Vec<Line> = Vec::new();
        match &context.title {
            Some(t) => {
                push_line(&mut lines, plain_line_str(t.as_str()));
            },
            None => {},
        }
        let start_time = context.format_start_time();
        let end_time = context.format_end_time();
        let elapsed_time = context.format_elapsed_time();
        let total_time = context.format_total_time();
        let mut info: Vec<char> = Vec::new();
        text::append_str(&mut info, start_time.as_str());
        text::append_str(&mut info, " \u{2192} ");
        text::append_str(&mut info, end_time.as_str());
        text::append_str(&mut info, "   |   ");
        text::append_u64(&mut info, context.progress as u64);
        text::append_str(&mut info, "%");
        text::append_str(&mut info, "   |   ");
        text::append_str(&mut info, elapsed_time.as_str());
        text::append_str(&mut info, " / ");
        text::append_str(&mut info, total_time.as_str());
        proof {
            assert(info@ =~= spec_theme_information(*context));
        }
        push_line(&mut lines, plain_line(info));
        push_line(&mut lines, plain_line(Vec::new()));
        let bar = Self::build_bar(context.progress, width);
        push_line(&mut lines, plain_line_str(bar.as_str()));
        push_line(&mut lines, plain_line(Vec::new()));
        let remaining_time = context.format_remaining_time();
        let mut remaining: Vec<char> = Vec::new();
        text::append_str(&mut remaining, remaining_time.as_str());
        text::append_str(&mut remaining, " remaining");
        push_line(&mut lines, plain_line(remaining));
        proof {
            assert(lines_model(lines@) =~= spec_default_theme_render(*context, width as int));
        }
        lines
    }
}

/// The status message for a completion of `ratio` hundredths.  Buckets are
/// inclusive on their upper end; only a full 100 reports the mission done.
pub open spec fn spec_theme_status(ratio: int) -> Seq<char> {
    if ratio <= 10 {
        "MISSION INITIATED. LOCK AND LOAD, SOLDIER!"@
    } else if ratio <= 25 {
        "ENGAGING TARGET. MAINTAIN FOCUS AND DISCIPLINE."@
    } else if ratio <= 50 {
        "BATTLE IN PROGRESS. HOLD YOUR POSITION, WARRIOR!"@
    } else if ratio <= 75 {
        "VICTORY IS WITHIN REACH. PUSH FORWARD!"@
    } else if ratio <= 90 {
        "ALMOST THERE, SOLDIER! HOLD YOUR POSITION."@
    } else if ratio <= 99 {
        "FINAL ASSAULT! BREAK THROUGH THE ENEMY LINES!"@
    } else {
        "MISSION ACCOMPLISHED! EXCELLENT WORK, SOLDIER!"@
    }
}

/// The retro theme's whole frame, in order.
pub open spec fn spec_retro_theme_render(c: RenderContext, width: int) -> Seq<LineModel> {
    let divider = plain(char_repeat('=', width));
    let base = seq![
        divider,
        plain("[START]     "@ + formatted_or_empty(c.start as int, "%Y-%m-%d %H:%M:%S"@)),
        plain("[END]       "@ + formatted_or_empty(c.end as int, "%Y-%m-%d %H:%M:%S"@)),
        plain(
            "[ELAPSED]   "@ + dec_str(c.progress as int) + "% | "@ + spec_ctx_elapsed_str(
                spec_ctx_elapsed(c),
            ),
        ),
        plain("[REMAINING] "@ + spec_ctx_remaining_str(spec_ctx_remaining(c))),
        plain(Seq::empty()),
        plain("[PROGRESS]"@),
        plain(
            "["@ + spec_bar_cells(c.progress as int, sat_sub(width, 2)) + "]"@,
        ),
        divider,
        bold("STATUS: > "@ + spec_theme_status(c.progress as int)),
        divider,
        plain("(Q) QUIT | (CTRL+C) ABORT"@),
    ];
    match crate::text::opt_view(c.title) {
        Some(t) => seq![bold("["@ + t + "] FOCUS SESSION INITIATED"@)] + base,
        None => base,
    }
}

/// Renders the retro theme.
pub struct RetroTheme;

impl RetroTheme {
    /// The theme's registry name.
    pub fn name(&self) -> (r: &'static str)
        ensures
            r@ == "retro"@,
    {
        "retro"
    }

    /// The bar: proportional cells between literal brackets.
    pub fn build_retro_bar(progress: u8, width: usize) -> (r: String)
        requires
            progress <= 100,
            width <= MAX_WIDTH,
        ensures
            r@ == "["@ + spec_bar_cells(progress as int, sat_sub(width as int, 2)) + "]"@,
    {
        let inner = text::usize_sat_sub(width, 2);
        let mut buf: Vec<char> = Vec::new();
        text::append_str(&mut buf, "[");
        crate::renderer::styled_renderer::append_bar_cells(&mut buf, progress, inner);
        text::append_str(&mut buf, "]");
        proof {
            assert(buf@ =~= "["@ + spec_bar_cells(progress as int, sat_sub(width as int, 2))
                + "]"@);
        }
        text::string_of(buf)
    }

    /// The status message the completion bucket selects.
    pub fn get_retro_status_message(progress: u8) -> (r: &'static str)
        ensures
            r@ == spec_theme_status(progress as int),
    {
        if progress <= 10 {
            "MISSION INITIATED. LOCK AND LOAD, SOLDIER!"
        } else if progress <= 25 {
            "ENGAGING TARGET. MAINTAIN FOCUS AND DISCIPLINE."
        } else if progress <= 50 {
            "BATTLE IN PROGRESS. HOLD YOUR POSITION, WARRIOR!"
        } else if progress <= 75 {
            "VICTORY IS WITHIN REACH. PUSH FORWARD!"
        } else if progress <= 90 {
            "ALMOST THERE, SOLDIER! HOLD YOUR POSITION."
        } else if progress <= 99 {
            "FINAL ASSAULT! BREAK THROUGH THE ENEMY LINES!"
        } else {
            "MISSION ACCOMPLISHED! EXCELLENT WORK, SOLDIER!"
        }
    }

    /// The frame's lines for a terminal `width` columns wide.  The same
    /// context and width always yield the same lines.
    pub fn render(&self, context: &RenderContext, width: usize) -> (r: Vec<Line>)
        requires
            context.wf(),
            width <= MAX_WIDTH,
        ensures
            lines_model(r@) == spec_retro_theme_render(*context, width as int),
    {
        let mut lines: Vec<Line> = Vec::new();
        match &context.title {
            Some(t) => {
                let mut buf: Vec<char> = Vec::new();
                text::append_str(&mut buf, "[");
                text::append_str(&mut buf, t.as_str());
                text::append_str(&mut buf, "] FOCUS SESSION INITIATED");
                push_line(&mut lines, bold_line(buf));
            },
            None => {},
        }
        let mut divider: Vec<char> = Vec::new();
        text::append_repeat(&mut divider, '=', width);
        let divider = text::string_of(divider);
        push_line(&mut lines, plain_line_str(divider.as_str()));
        let start = context.format_start_time_retro();
        let mut buf: Vec<char> = Vec::new();
        text::append_str(&mut buf, "[START]     ");
        text::append_str(&mut buf, start.as_str());
        push_line(&mut lines, plain_line(buf));
        let end = context.format_end_time_retro();
        let mut buf: Vec<char> = Vec::new();
        text::append_str(&mut buf, "[END]       ");
        text::append_str(&mut buf, end.as_str());
        push_line(&mut lines, plain_line(buf));
        let elapsed_time = context.format_elapsed_time();
        let mut buf: Vec<char> = Vec::new();
        text::append_str(&mut buf, "[ELAPSED]   ");
        text::append_u64(&mut buf, context.progress as u64);
        text::append_str(&mut buf, "% | ");
        text::append_str(&mut buf, elapsed_time.as_str());
        push_line(&mut lines, plain_line(buf));
        let remaining_time = context.format_remaining_time();
        let mut buf: Vec<char> = Vec::new();
        text::append_str(&mut buf, "[REMAINING] ");
        text::append_str(&mut buf, remaining_time.as_str());
        push_line(&mut lines, plain_line(buf));
        push_line(&mut lines, plain_line(Vec::new()));
        push_line(&mut lines, plain_line_str("[PROGRESS]"));
        let bar = Self::build_retro_bar(context.progress, width);
        push_line(&mut lines, plain_line_str(bar.as_str()));
        push_line(&mut lines, plain_line_str(divider.as_str()));
        let status = Self::get_retro_status_message(context.progress);
        let mut buf: Vec<char> = Vec::new();
        text::append_str(&mut buf, "STATUS: > ");
        text::append_str(&mut buf, status);
        push_line(&mut lines, bold_line(buf));
        push_line(&mut lines, plain_line_str(divider.as_str()));
        push_line(&mut lines, plain_line_str("(Q) QUIT | (CTRL+C) ABORT"));
        proof {
            assert(lines_model(lines@) =~= spec_retro_theme_render(*context, width as int));
        }
        lines
    }
}

/// The synthwave theme's info text: percentage, elapsed and remaining.
pub open spec fn spec_synthwave_theme_info(c: RenderContext) -> Seq<char> {
    dec_str(c.progress as int) + "% | "@ + spec_ctx_elapsed_str(spec_ctx_elapsed(c))
        + " elapsed | "@ + spec_ctx_remaining_str(spec_ctx_remaining(c)) + " remaining"@
}

/// The columns left for the synthwave theme's bar cells once the walls,
/// paddings and boundary labels are placed.
pub open spec fn spec_synthwave_theme_bar_width(c: RenderContext, width: int) -> int {
    let f = spec_format_string(c.end - c.start);
    let s = formatted_or_empty(c.start as int, f).len() as int;
    let e = formatted_or_empty(c.end as int, f).len() as int;
    sat_sub(width, sat_add(sat_add(8, s), e))
}

/// The synthwave theme's whole frame, in order.
pub open spec fn spec_synthwave_theme_render(c: RenderContext, width: int) -> Seq<LineModel> {
    let f = spec_format_string(c.end - c.start);
    let start = formatted_or_empty(c.start as int, f);
    let end = formatted_or_empty(c.end as int, f);
    let info = spec_synthwave_theme_info(c);
    let padding = sat_sub(width, sat_add(sat_add(20, info.len() as int), 1));
    let msg = "\u{26a1} KEEP THE ENERGY FLOWING \u{26a1}"@;
    let mpad = sat_sub(width, msg.len() as int) / 2;
    let base = seq![
        plain("\u{2554}"@ + char_repeat('\u{2550}', sat_sub(width, 2)) + "\u{2557}"@),
        plain(
            "\u{2551} "@ + start + "  "@ + spec_bar_cells(
                c.progress as int,
                spec_synthwave_theme_bar_width(c, width),
            ) + "  "@ + end + " \u{2551}"@,
        ),
        plain(
            "\u{2551}                   "@ + info + char_repeat(' ', padding) + "\u{2551}"@,
        ),
        plain("\u{255a}"@ + char_repeat('\u{2550}', sat_sub(width, 2)) + "\u{255d}"@),
        plain(char_repeat(' ', mpad) + msg),
    ];
    match crate::text::opt_view(c.title) {
        Some(t) => seq![bold(" \u{2550} "@ + upper_of(t) + " \u{2550}"@)] + base,
        None => base,
    }
}

/// Renders the synthwave theme.
pub struct SynthwaveTheme;

impl SynthwaveTheme {
    /// The theme's registry name.
    pub fn name(&self) -> (r: &'static str)
        ensures
            r@ == "synthwave"@,
    {
        "synthwave"
    }

    /// The bar: `available_width` cells, filled proportionally.
    pub fn build_synthwave_bar(progress: u8, available_width: usize) -> (r: String)
        requires
            progress <= 100,
            available_width <= MAX_WIDTH,
        ensures
            r@ == spec_bar_cells(progress as int, available_width as int),
    {
        let mut buf: Vec<char> = Vec::new();
        crate::renderer::styled_renderer::append_bar_cells(&mut buf, progress, available_width);
        text::string_of(buf)
    }

    /// The frame's lines for a terminal `width` columns wide.  The same
    /// context and width always yield the same lines.
    pub fn render(&self, context: &RenderContext, width: usize) -> (r: Vec<Line>)
        requires
            context.wf(),
            width <= MAX_WIDTH,
        ensures
            lines_model(r@) == spec_synthwave_theme_render(*context, width as int),
    {
        let mut lines: Vec<Line> = Vec::new();
        match &context.title {
            Some(t) => {
                let upper = text::uppercase(t.as_str());
                let mut buf: Vec<char> = Vec::new();
                text::append_str(&mut buf, " \u{2550} ");
                text::append_str(&mut buf, upper.as_str());
                text::append_str(&mut buf, " \u{2550}");
                push_line(&mut lines, bold_line(buf));
            },
            None => {},
        }
        let mut top: Vec<char> = Vec::new();
        text::append_str(&mut top, "\u{2554}");
        text::append_repeat(&mut top, '\u{2550}', text::usize_sat_sub(width, 2));
        text::append_str(&mut top, "\u{2557}");
        push_line(&mut lines, plain_line(top));

        let start_time = context.format_start_time();
        let end_time = context.format_end_time();
        let start_len = start_time.as_str().unicode_len();
        let end_len = end_time.as_str().unicode_len();
        let fixed = text::usize_sat_add(text::usize_sat_add(8, start_len), end_len);
        let bar_inner = text::usize_sat_sub(width, fixed);
        let mut bar: Vec<char> = Vec::new();
        text::append_str(&mut bar, "\u{2551} ");
        text::append_str(&mut bar, start_time.as_str());
        text::append_str(&mut bar, "  ");
        crate::renderer::styled_renderer::append_bar_cells(&mut bar, context.progress, bar_inner);
        text::append_str(&mut bar, "  ");
        text::append_str(&mut bar, end_time.as_str());
        text::append_str(&mut bar, " \u{2551}");
        proof {
            assert(bar@ =~= spec_synthwave_theme_render(*context, width as int)[
                if context.title is Some { 2int } else { 1int }].text);
        }
        push_line(&mut lines, plain_line(bar));

        let elapsed_time = context.format_elapsed_time();
        let remaining_time = context.format_remaining_time();
        let mut info: Vec<char> = Vec::new();
        text::append_u64(&mut info, context.progress as u64);
        text::append_str(&mut info, "% | ");
        text::append_str(&mut info, elapsed_time.as_str());
        text::append_str(&mut info, " elapsed | ");
        text::append_str(&mut info, remaining_time.as_str());
        text::append_str(&mut info, " remaining");
        proof {
            assert(info@ =~= spec_synthwave_theme_info(*context));
        }
        let content = text::usize_sat_add(text::usize_sat_add(20, info.len()), 1);
        let padding = text::usize_sat_sub(width, content);
        let mut line: Vec<char> = Vec::new();
        text::append_str(&mut line, "\u{2551}                   ");
        text::append_chars(&mut line, &info);
        text::append_repeat(&mut line, ' ', padding);
        text::append_str(&mut line, "\u{2551}");
        push_line(&mut lines, plain_line(line));

        let mut bottom: Vec<char> = Vec::new();
        text::append_str(&mut bottom, "\u{255a}");
        text::append_repeat(&mut bottom, '\u{2550}', text::usize_sat_sub(width, 2));
        text::append_str(&mut bottom, "\u{255d}");
        push_line(&mut lines, plain_line(bottom));

        let msg = "\u{26a1} KEEP THE ENERGY FLOWING \u{26a1}";
        let mpad = text::usize_sat_sub(width, msg.unicode_len()) / 2;
        let mut message: Vec<char> = Vec::new();
        text::append_repeat(&mut message, ' ', mpad);
        text::append_str(&mut message, msg);
        push_line(&mut lines, plain_line(message));
        proof {
            assert(lines_model(lines@) =~= spec_synthwave_theme_render(*context, width as int));
        }
        lines
    }
}

/// The theme a name selects in a registry held as name–theme pairs: the
/// first pair whose name matches, or `None`.
pub open spec fn reg_lookup(s: Seq<(String, ThemeType)>, name: Seq<char>) -> Option<ThemeType>
    decreases s.len(),
{
    if s.len() == 0 {
        None
    } else if s[0].0@ == name {
        Some(s[0].1)
    } else {
        reg_lookup(s.drop_first(), name)
    }
}

/// The registered names, in registration order.
pub open spec fn reg_keys(s: Seq<(String, ThemeType)>) -> Seq<Seq<char>> {
    s.map_values(|p: (String, ThemeType)| p.0@)
}

proof fn lemma_reg_lookup_first_match(s: Seq<(String, ThemeType)>, i: int, name: Seq<char>)
    requires
        0 <= i < s.len(),
        s[i].0@ == name,
        forall|j: int| 0 <= j < i ==> s[j].0@ != name,
    ensures
        reg_lookup(s, name) == Some(s[i].1),
    decreases i,
{
    if i > 0 {
        lemma_reg_lookup_first_match(s.drop_first(), i - 1, name);
    }
}

proof fn lemma_reg_lookup_absent(s: Seq<(String, ThemeType)>, name: Seq<char>)
    requires
        forall|j: int| 0 <= j < s.len() ==> s[j].0@ != name,
    ensures
        reg_lookup(s, name) is None,
    decreases s.len(),
{
    if s.len() > 0 {
        lemma_reg_lookup_absent(s.drop_first(), name);
    }
}

proof fn lemma_reg_lookup_push(s: Seq<(String, ThemeType)>, p: (String, ThemeType), n: Seq<char>)
    ensures
        reg_lookup(s.push(p), n) == if reg_lookup(s, n) is Some {
            reg_lookup(s, n)
        } else if p.0@ == n {
            Some(p.1)
        } else {
            None::<ThemeType>
        },
    decreases s.len(),
{
    if s.len() == 0 {
        assert(s.push(p).drop_first() =~= s);
    } else {
        assert(s.push(p).drop_first() =~= s.drop_first().push(p));
        lemma_reg_lookup_push(s.drop_first(), p, n);
    }
}

proof fn lemma_reg_lookup_update_value(
    s: Seq<(String, ThemeType)>,
    i: int,
    p: (String, ThemeType),
    n: Seq<char>,
)
    requires
        0 <= i < s.len(),
        p.0@ == s[i].0@,
        forall|j: int| 0 <= j < i ==> s[j].0@ != s[i].0@,
    ensures
        reg_lookup(s.update(i, p), n) == if n == s[i].0@ {
            Some(p.1)
        } else {
            reg_lookup(s, n)
        },
    decreases i,
{
    if i == 0 {
        assert(s.update(0, p)[0] == p);
        assert(s.update(0, p).drop_first() =~= s.drop_first());
    } else {
        assert(s.update(i, p)[0] == s[0]);
        assert(s.update(i, p).drop_first() =~= s.drop_first().update(i - 1, p));
        lemma_reg_lookup_update_value(s.drop_first(), i - 1, p, n);
    }
}

/// The registry of available themes, keyed by name.  Names are matched
/// case-insensitively — they are folded to small letters before storing and
/// looking up — and are unique; a re-registered name replaces its theme.
pub struct ThemeRegistry {
    pub themes: Vec<(String, ThemeType)>,
}

impl ThemeRegistry {
    /// The registry invariant: every stored name is case-folded, and no name
    /// is registered twice.
    pub open spec fn wf(&self) -> bool {
        &&& forall|i: int, j: int|
            #![trigger self.themes@[i].0@, self.themes@[j].0@]
            0 <= i < j < self.themes@.len() ==> self.themes@[i].0@ != self.themes@[j].0@
        &&& forall|i: int|
            #![trigger self.themes@[i].0@]
            0 <= i < self.themes@.len() ==> self.themes@[i].0@ == ascii_lower(
                self.themes@[i].0@,
            )
    }

    /// The three built-in themes, under their canonical names.
    pub fn new() -> (r: ThemeRegistry)
        ensures
            r.wf(),
            reg_keys(r.themes@) == seq!["default"@, "retro"@, "synthwave"@],
            reg_lookup(r.themes@, "default"@) == Some(ThemeType::Default),
            reg_lookup(r.themes@, "retro"@) == Some(ThemeType::Retro),
            reg_lookup(r.themes@, "synthwave"@) == Some(ThemeType::Synthwave),
    {
        let mut registry = ThemeRegistry { themes: Vec::new() };
        registry.register("default", ThemeType::Default);
        proof {
            reveal_strlit("default");
            assert(ascii_lower("default"@) =~= "default"@);
            assert(reg_keys(registry.themes@) =~~= seq!["default"@]);
        }
        let ghost k1 = reg_keys(registry.themes@);
        proof {
            reveal_strlit("default");
            reveal_strlit("retro");
            assert(ascii_lower("retro"@) =~= "retro"@);
            assert("retro"@.len() == 5);
            assert("default"@.len() == 7);
            assert("retro"@ != "default"@);
            assert(reg_lookup(registry.themes@, ascii_lower("retro"@)) is None);
        }
        registry.register("retro", ThemeType::Retro);
        proof {
            reveal_strlit("retro");
            assert(ascii_lower("retro"@) =~= "retro"@);
            assert(reg_keys(registry.themes@) =~~= k1.push("retro"@));
            assert(k1.push("retro"@) =~~= seq!["default"@, "retro"@]);
        }
        let ghost k2 = reg_keys(registry.themes@);
        proof {
            reveal_strlit("default");
            reveal_strlit("retro");
            reveal_strlit("synthwave");
            assert(ascii_lower("synthwave"@) =~= "synthwave"@);
            assert("synthwave"@ != "default"@ && "synthwave"@ != "retro"@);
            assert(reg_lookup(registry.themes@, ascii_lower("synthwave"@)) is None);
        }
        registry.register("synthwave", ThemeType::Synthwave);
        proof {
            reveal_strlit("synthwave");
            assert(ascii_lower("synthwave"@) =~= "synthwave"@);
            assert(reg_keys(registry.themes@) =~~= k2.push("synthwave"@));
            assert(k2.push("synthwave"@) =~~= seq!["default"@, "retro"@, "synthwave"@]);
        }
        registry
    }

    /// Registers `theme_type` under `name`, case-insensitively: the folded
    /// name is stored, and any theme already registered under it is replaced.
    pub fn register(&mut self, name: &str, theme_type: ThemeType)
        requires
            old(self).wf(),
        ensures
            final(self).wf(),
            forall|n: Seq<char>|
                #![trigger reg_lookup(final(self).themes@, n)]
                reg_lookup(final(self).themes@, n) == if n == ascii_lower(name@) {
                    Some(theme_type)
                } else {
                    reg_lookup(old(self).themes@, n)
                },
            reg_keys(final(self).themes@) == if reg_lookup(
                old(self).themes@,
                ascii_lower(name@),
            ) is Some {
                reg_keys(old(self).themes@)
            } else {
                reg_keys(old(self).themes@).push(ascii_lower(name@))
            },
    {
        let folded = text::string_of(text::ascii_lowercase(name));
        let n = self.themes.len();
        let mut i: usize = 0;
        while i < n
            invariant
                self == old(self),
                old(self).wf(),
                folded@ == ascii_lower(name@),
                n == self.themes@.len(),
                i <= n,
                forall|j: int| 0 <= j < i ==> self.themes@[j].0@ != folded@,
            decreases n - i,
        {
            if text::str_eq(self.themes[i].0.as_str(), folded.as_str()) {
                let pair = (folded.clone(), theme_type);
                proof {
                    lemma_reg_lookup_first_match(self.themes@, i as int, folded@);
                    lemma_reg_lookup_update_value(self.themes@, i as int, pair, folded@);
                    assert forall|n2: Seq<char>| n2 != folded@ implies reg_lookup(
                        self.themes@.update(i as int, pair),
                        n2,
                    ) == reg_lookup(self.themes@, n2) by {
                        lemma_reg_lookup_update_value(self.themes@, i as int, pair, n2);
                    }
                }
                self.themes[i] = pair;
                proof {
                    assert forall|a: int, b: int|
                        0 <= a < b < self.themes@.len() implies self.themes@[a].0@
                        != self.themes@[b].0@ by {
                        assert(self.themes@[a].0@ == old(self).themes@[a].0@);
                        assert(self.themes@[b].0@ == old(self).themes@[b].0@);
                        assert(old(self).themes@[a].0@ != old(self).themes@[b].0@);
                    }
                    text::lemma_ascii_lower_idempotent(name@);
                    assert forall|a: int|
                        0 <= a < self.themes@.len() implies self.themes@[a].0@ == ascii_lower(
                        self.themes@[a].0@,
                    ) by {
                        if a != i {
                            assert(self.themes@[a].0@ == old(self).themes@[a].0@);
                        }
                    }
                    assert(reg_keys(self.themes@) =~~= reg_keys(old(self).themes@));
                }
                return ;
            }
            i += 1;
        }
        let pair = (folded, theme_type);
        proof {
            lemma_reg_lookup_absent(self.themes@, pair.0@);
            assert forall|n2: Seq<char>| true implies reg_lookup(
                self.themes@.push(pair),
                n2,
            ) == (if n2 == pair.0@ {
                Some(theme_type)
            } else {
                reg_lookup(self.themes@, n2)
            }) by {
                lemma_reg_lookup_push(self.themes@, pair, n2);
                if n2 != pair.0@ && reg_lookup(self.themes@, n2) is None {
                }
            }
        }
        self.themes.push(pair);
        proof {
            assert forall|a: int, b: int|
                0 <= a < b < self.themes@.len() implies self.themes@[a].0@
                != self.themes@[b].0@ by {
                if b < self.themes@.len() - 1 {
                    assert(old(self).themes@[a].0@ != old(self).themes@[b].0@);
                } else {
                    assert(self.themes@[b].0@ == ascii_lower(name@));
                    assert(old(self).themes@[a].0@ != ascii_lower(name@));
                }
            }
            text::lemma_ascii_lower_idempotent(name@);
            assert forall|a: int|
                0 <= a < self.themes@.len() implies self.themes@[a].0@ == ascii_lower(
                self.themes@[a].0@,
            ) by {
                if a < self.themes@.len() - 1 {
                    assert(self.themes@[a].0@ == old(self).themes@[a].0@);
                }
            }
            assert(reg_keys(self.themes@) =~~= reg_keys(old(self).themes@).push(
                ascii_lower(name@),
            ));
        }
    }

    /// The theme registered under `name`, matched case-insensitively, if
    /// any.
    pub fn get(&self, name: &str) -> (r: Option<ThemeType>)
        ensures
            r == reg_lookup(self.themes@, ascii_lower(name@)),
    {
        let folded = text::string_of(text::ascii_lowercase(name));
        let n = self.themes.len();
        let mut i: usize = 0;
        while i < n
            invariant
                folded@ == ascii_lower(name@),
                n == self.themes@.len(),
                i <= n,
                forall|j: int| 0 <= j < i ==> self.themes@[j].0@ != folded@,
            decreases n - i,
        {
            if text::str_eq(self.themes[i].0.as_str(), folded.as_str()) {
                proof {
                    lemma_reg_lookup_first_match(self.themes@, i as int, folded@);
                }
                return Some(self.themes[i].1);
            }
            i += 1;
        }
        proof {
            lemma_reg_lookup_absent(self.themes@, folded@);
        }
        None
    }

    /// The registered names, in registration order.
    pub fn list_themes(&self) -> (r: Vec<String>)
        ensures
            strs_model(r@) == reg_keys(self.themes@),
    {
        let n = self.themes.len();
        let mut r: Vec<String> = Vec::new();
        proof {
            assert(strs_model(r@) =~~= reg_keys(self.themes@).subrange(0, 0));
        }
        let mut i: usize = 0;
        while i < n
            invariant
                n == self.themes@.len(),
                i <= n,
                strs_model(r@) == reg_keys(self.themes@).subrange(0, i as int),
            decreases n - i,
        {
            let ghost prev = r@;
            r.push(self.themes[i].0.clone());
            proof {
                assert(strs_model(r@) =~~= strs_model(prev).push(self.themes@[i as int].0@));
                assert(strs_model(prev).push(self.themes@[i as int].0@) =~~= reg_keys(
                    self.themes@,
                ).subrange(0, i + 1));
            }
            i += 1;
        }
        proof {
            assert(reg_keys(self.themes@).subrange(0, n as int) =~= reg_keys(self.themes@));
        }
        r
    }
}

impl Default for ThemeRegistry {
    /// The same registry as [`ThemeRegistry::new`].
    fn default() -> (r: ThemeRegistry)
        ensures
            r.wf(),
            reg_keys(r.themes@) == seq!["default"@, "retro"@, "synthwave"@],
            reg_lookup(r.themes@, "default"@) == Some(ThemeType::Default),
            reg_lookup(r.themes@, "retro"@) == Some(ThemeType::Retro),
            reg_lookup(r.themes@, "synthwave"@) == Some(ThemeType::Synthwave),
    {
        ThemeRegistry::new()
    }
}

} // verus!
