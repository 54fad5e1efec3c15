//! The immutable time window a session tracks progress against.

use crate::error::DoItError;
use crate::text::{self, dec_str};
use crate::wallclock::{formatted_instant, formatted_or_empty, known_time_format, valid_instant};
use vstd::prelude::*;

verus! {

/// A validated wall-clock window: `from` lies strictly before `to`, and
/// `duration` is their distance in seconds.  Constructed once per session and
/// never mutated.
#[derive(Debug, Clone, Copy, PartialEq, Eq, Structural)]
pub struct Timespan {
    pub from: i64,
    pub to: i64,
    pub duration: i64,
}

/// The duration-adaptive format string for a window's boundaries: clock time
/// for windows under a day, month-day clock time under three weeks, calendar
/// date otherwise.
pub open spec fn spec_format_string(d: int) -> Seq<char> {
    if d < 86400 {
        "%H:%M"@
    } else if d < 1814400 {
        "%m-%d %H:%M"@
    } else {
        "%Y-%m-%d"@
    }
}

/// `"{hours} h"`, with a `"{minutes} m"` term when the minutes are not zero.
pub open spec fn spec_hours_str(d: int) -> Seq<char> {
    let hours = d / 3600;
    let minutes = (d / 60) % 60;
    if minutes == 0 {
        dec_str(hours) + " h"@
    } else {
        dec_str(hours) + " h "@ + dec_str(minutes) + " m"@
    }
}

/// `"{days} d"`, with an `"{hours} h"` term when the hours are not zero.
pub open spec fn spec_days_str(d: int) -> Seq<char> {
    let days = d / 86400;
    let hours = (d / 3600) % 24;
    if hours == 0 {
        dec_str(days) + " d"@
    } else {
        dec_str(days) + " d "@ + dec_str(hours) + " h"@
    }
}

/// The tiered human-readable rendering of a duration of `d` seconds: minutes
/// under an hour, hours+minutes under a day, days+hours under a week, whole
/// days under a year, else whole years (years are 365 days; no leap-year
/// correction — a documented approximation).
pub open spec fn spec_duration_str(d: int) -> Seq<char> {
    let minutes = d / 60;
    let hours = d / 3600;
    let days = d / 86400;
    if minutes < 60 {
        dec_str(minutes) + " m"@
    } else if hours < 24 {
        spec_hours_str(d)
    } else if days < 7 {
        spec_days_str(d)
    } else if days < 365 {
        dec_str(days) + " d"@
    } else {
        dec_str(days / 365) + " y"@
    }
}

impl Timespan {
    /// The window invariant: in-range instants, a strictly positive span, and
    /// the stored duration equal to the span.
    pub open spec fn wf(&self) -> bool {
        &&& valid_instant(self.from)
        &&& valid_instant(self.to)
        &&& self.from < self.to
        &&& self.duration == self.to - self.from
    }

    /// Builds a window, rejecting `from >= to`: a zero-length window is
    /// invalid input, not an instantly complete session.
    pub fn new(from: i64, to: i64) -> (r: Result<Timespan, DoItError>)
        requires
            valid_instant(from),
            valid_instant(to),
        ensures
            from < to ==> r == Ok::<Timespan, DoItError>(
                Timespan { from, to, duration: (to - from) as i64 },
            ) && r->Ok_0.wf(),
            from >= to ==> r == Err::<Timespan, DoItError>(DoItError::FromAfterTo { from, to }),
    {
        if from >= to {
            Err(DoItError::FromAfterTo { from, to })
        } else {
            let duration = to - from;
            Ok(Timespan { from, to, duration })
        }
    }

    /// The snapshot of this window at `current_time`.
    pub fn progress(&self, current_time: i64) -> (r: crate::progress::Progress)
        requires
            self.wf(),
            valid_instant(current_time),
        ensures
            r == (crate::progress::Progress {
                timespan: *self,
                current_time,
                ratio: crate::progress::spec_ratio(*self, current_time as int) as u8,
                elapsed: crate::progress::spec_elapsed(*self, current_time as int) as i64,
                remaining: crate::progress::spec_remaining(*self, current_time as int) as i64,
            }),
            r.wf(),
    {
        crate::progress::Progress::new(*self, current_time)
    }

    /// Whether the window has elapsed at `current_time`.
    pub fn has_expired(&self, current_time: i64) -> (r: bool)
        ensures
            r == (current_time >= self.to),
    {
        current_time >= self.to
    }

    /// The boundary format string this window's duration selects.
    pub fn format_string(&self) -> (r: &'static str)
        requires
            self.wf(),
        ensures
            r@ == spec_format_string(self.duration as int),
    {
        if self.duration < 86400 {
            "%H:%M"
        } else if self.duration < 1814400 {
            "%m-%d %H:%M"
        } else {
            "%Y-%m-%d"
        }
    }

    /// The `from` boundary under the duration-adaptive format.
    pub fn format_from(&self) -> (r: String)
        requires
            self.wf(),
        ensures
            r@ == formatted_or_empty(self.from as int, spec_format_string(self.duration as int)),
    {
        let fmt = self.format_string();
        let formatted = crate::wallclock::format_instant(self.from, fmt);
        formatted.unwrap()
    }

    /// The `to` boundary under the duration-adaptive format.
    pub fn format_to(&self) -> (r: String)
        requires
            self.wf(),
        ensures
            r@ == formatted_or_empty(self.to as int, spec_format_string(self.duration as int)),
    {
        let fmt = self.format_string();
        let formatted = crate::wallclock::format_instant(self.to, fmt);
        formatted.unwrap()
    }

    /// The `from` boundary under an explicitly supplied format string.
    pub fn format_from_with_string(&self, string: &str) -> (r: String)
        requires
            self.wf(),
            known_time_format(string@) || formatted_instant(self.from as int, string@) is Some,
        ensures
            r@ == formatted_or_empty(self.from as int, string@),
    {
        let formatted = crate::wallclock::format_instant(self.from, string);
        formatted.unwrap()
    }

    /// The `to` boundary under an explicitly supplied format string.
    pub fn format_to_with_string(&self, string: &str) -> (r: String)
        requires
            self.wf(),
            known_time_format(string@) || formatted_instant(self.to as int, string@) is Some,
        ensures
            r@ == formatted_or_empty(self.to as int, string@),
    {
        let formatted = crate::wallclock::format_instant(self.to, string);
        formatted.unwrap()
    }

    /// The `from` boundary under an arbitrary format string; `None` exactly
    /// where the format string is not renderable.
    pub fn try_format_from_with_string(&self, string: &str) -> (r: Option<String>)
        requires
            self.wf(),
        ensures
            crate::text::opt_view(r) == formatted_instant(self.from as int, string@),
    {
        let probe = crate::wallclock::format_instant(self.from, string);
        if probe.is_some() {
            Some(self.format_from_with_string(string))
        } else {
            None
        }
    }

    /// The `to` boundary under an arbitrary format string; `None` exactly
    /// where the format string is not renderable.
    pub fn try_format_to_with_string(&self, string: &str) -> (r: Option<String>)
        requires
            self.wf(),
        ensures
            crate::text::opt_view(r) == formatted_instant(self.to as int, string@),
    {
        let probe = crate::wallclock::format_instant(self.to, string);
        if probe.is_some() {
            Some(self.format_to_with_string(string))
        } else {
            None
        }
    }

    /// The window's duration, tiered human-readable.
    pub fn format_duration(&self) -> (r: String)
        requires
            self.wf(),
        ensures
            r@ == spec_duration_str(self.duration as int),
    {
        Self::format_duration_string(self.duration)
    }

    /// The tiered human-readable rendering of a duration of `duration`
    /// seconds.
    pub fn format_duration_string(duration: i64) -> (r: String)
        requires
            0 <= duration,
        ensures
            r@ == spec_duration_str(duration as int),
    {
        let minutes = duration / 60;
        let hours = duration / 3600;
        let days = duration / 86400;
        let mut buf: Vec<char> = Vec::new();
        if minutes < 60 {
            text::append_u64(&mut buf, minutes as u64);
            text::append_str(&mut buf, " m");
        } else if hours < 24 {
            return Self::format_hours(duration);
        } else if days < 7 {
            return Self::format_days(duration);
        } else if days < 365 {
            text::append_u64(&mut buf, days as u64);
            text::append_str(&mut buf, " d");
        } else {
            text::append_u64(&mut buf, (days / 365) as u64);
            text::append_str(&mut buf, " y");
        }
        proof {
            assert(buf@ =~= spec_duration_str(duration as int));
        }
        text::string_of(buf)
    }

    /// `"{hours} h {minutes} m"`, omitting the minutes term when it is zero.
    pub fn format_hours(duration: i64) -> (r: String)
        requires
            0 <= duration,
        ensures
            r@ == spec_hours_str(duration as int),
    {
        let hours = duration / 3600;
        let minutes = (duration / 60) % 60;
        let mut buf: Vec<char> = Vec::new();
        text::append_u64(&mut buf, hours as u64);
        if minutes == 0 {
            text::append_str(&mut buf, " h");
        } else {
            text::append_str(&mut buf, " h ");
            text::append_u64(&mut buf, minutes as u64);
            text::append_str(&mut buf, " m");
        }
        proof {
            assert(buf@ =~= spec_hours_str(duration as int));
        }
        text::string_of(buf)
    }

    /// `"{days} d {hours} h"`, omitting the hours term when it is zero.
    pub fn format_days(duration: i64) -> (r: String)
        requires
            0 <= duration,
        ensures
            r@ == spec_days_str(duration as int),
    {
        let days = duration / 86400;
        let hours = (duration / 3600) % 24;
        let mut buf: Vec<char> = Vec::new();
        text::append_u64(&mut buf, days as u64);
        if hours == 0 {
            text::append_str(&mut buf, " d");
        } else {
            text::append_str(&mut buf, " d ");
            text::append_u64(&mut buf, hours as u64);
            text::append_str(&mut buf, " h");
        }
        proof {
            assert(buf@ =~= spec_days_str(duration as int));
        }
        text::string_of(buf)
    }
}

} // verus!
