//! The per-tick snapshot of a window's completion.

use crate::timespan::{spec_duration_str, Timespan};
use crate::wallclock::valid_instant;
use vstd::arithmetic::div_mod::{
    lemma_div_is_ordered, lemma_div_multiples_vanish_fancy, lemma_div_pos_is_pos,
};
use vstd::prelude::*;

verus! {

/// The seconds of the window already behind `t`, clamped to
/// `[0, duration]`: an out-of-window `t` is expected drift, not an error.
pub open spec fn spec_elapsed(ts: Timespan, t: int) -> int {
    if t < ts.from {
        0
    } else if t > ts.to {
        ts.duration as int
    } else {
        t - ts.from
    }
}

/// The seconds of the window still ahead of `t`, clamped to `[0, duration]`.
pub open spec fn spec_remaining(ts: Timespan, t: int) -> int {
    ts.duration - spec_elapsed(ts, t)
}

/// The completion ratio at `t` in hundredths: `elapsed / duration` rounded to
/// the nearest hundredth (halves up), so always in `[0, 100]`.
pub open spec fn spec_ratio(ts: Timespan, t: int) -> int {
    (200 * spec_elapsed(ts, t) + ts.duration) / (2 * ts.duration)
}

/// A disposable snapshot of the session at one instant: clamped elapsed and
/// remaining seconds and the rounded completion ratio.  Rebuilt fresh every
/// tick; never mutated.
#[derive(Debug, Clone, Copy, PartialEq, Eq, Structural)]
pub struct Progress {
    pub timespan: Timespan,
    pub current_time: i64,
    /// Completion in hundredths, `0` to `100`.
    pub ratio: u8,
    /// Elapsed seconds, clamped to `[0, duration]`.
    pub elapsed: i64,
    /// Remaining seconds, clamped to `[0, duration]`.
    pub remaining: i64,
}

impl Progress {
    /// The snapshot invariant: a well-formed window, an in-range instant, and
    /// each derived field equal to its defining formula.
    pub open spec fn wf(&self) -> bool {
        &&& self.timespan.wf()
        &&& valid_instant(self.current_time)
        &&& self.elapsed == spec_elapsed(self.timespan, self.current_time as int)
        &&& self.remaining == spec_remaining(self.timespan, self.current_time as int)
        &&& self.ratio == spec_ratio(self.timespan, self.current_time as int)
    }

    /// Takes the snapshot at `current_time`.  Total: clamping absorbs every
    /// out-of-window instant, and elapsed plus remaining always make up the
    /// whole duration.
    pub fn new(timespan: Timespan, current_time: i64) -> (r: Progress)
        requires
            timespan.wf(),
            valid_instant(current_time),
        ensures
            r == (Progress {
                timespan,
                current_time,
                ratio: spec_ratio(timespan, current_time as int) as u8,
                elapsed: spec_elapsed(timespan, current_time as int) as i64,
                remaining: spec_remaining(timespan, current_time as int) as i64,
            }),
            r.wf(),
            0 <= r.ratio <= 100,
            r.elapsed + r.remaining == timespan.duration,
    {
        let elapsed: i64 = if current_time < timespan.from {
            0
        } else if current_time > timespan.to {
            timespan.duration
        } else {
            current_time - timespan.from
        };
        let remaining: i64 = timespan.duration - elapsed;
        proof {
            lemma_ratio_bounds(timespan, current_time as int);
        }
        let ratio: u8 = ((200 * elapsed + timespan.duration) / (2 * timespan.duration)) as u8;
        Progress { timespan, current_time, ratio, elapsed, remaining }
    }

    /// Whether the session is complete at this snapshot's instant.
    pub fn is_complete(&self) -> (r: bool)
        ensures
            r == (self.current_time >= self.timespan.to),
    {
        self.timespan.has_expired(self.current_time)
    }

    /// The remaining time, tiered human-readable.
    pub fn format_remaining(&self) -> (r: String)
        requires
            self.wf(),
        ensures
            r@ == spec_duration_str(self.remaining as int),
    {
        Timespan::format_duration_string(self.remaining)
    }

    /// The elapsed time, tiered human-readable.
    pub fn format_elapsed(&self) -> (r: String)
        requires
            self.wf(),
        ensures
            r@ == spec_duration_str(self.elapsed as int),
    {
        Timespan::format_duration_string(self.elapsed)
    }
}

/// The ratio is a whole number of hundredths between 0 and 100.
pub proof fn lemma_ratio_bounds(ts: Timespan, t: int)
    requires
        ts.wf(),
    ensures
        0 <= spec_ratio(ts, t) <= 100,
{
    let e = spec_elapsed(ts, t);
    let d = ts.duration as int;
    lemma_div_pos_is_pos(200 * e + d, 2 * d);
    lemma_div_is_ordered(200 * e + d, (2 * d) * 100 + d, 2 * d);
    lemma_div_multiples_vanish_fancy(100, d, 2 * d);
}

/// Monotonicity: for a fixed window, the ratio never decreases as the
/// sampling instant advances.
pub proof fn lemma_ratio_monotonic(ts: Timespan, t1: int, t2: int)
    requires
        ts.wf(),
        t1 <= t2,
    ensures
        spec_ratio(ts, t1) <= spec_ratio(ts, t2),
{
    lemma_div_is_ordered(
        200 * spec_elapsed(ts, t1) + ts.duration,
        200 * spec_elapsed(ts, t2) + ts.duration,
        2 * ts.duration as int,
    );
}

/// Boundary pinning: at or before `from` the ratio is exactly 0, and at or
/// after `to` it is exactly 1 (that is, 100 hundredths).
pub proof fn lemma_ratio_pinned(ts: Timespan, t: int)
    requires
        ts.wf(),
    ensures
        t <= ts.from ==> spec_ratio(ts, t) == 0,
        t >= ts.to ==> spec_ratio(ts, t) == 100,
{
    let d = ts.duration as int;
    if t <= ts.from {
        lemma_div_multiples_vanish_fancy(0, d, 2 * d);
    }
    if t >= ts.to {
        lemma_div_multiples_vanish_fancy(100, d, 2 * d);
    }
}

/// Conservation: at every instant, elapsed and remaining seconds sum to the
/// window's duration.
pub proof fn lemma_conservation(ts: Timespan, t: int)
    requires
        ts.wf(),
    ensures
        spec_elapsed(ts, t) + spec_remaining(ts, t) == ts.duration,
{
}

/// Monotonicity, on snapshots: of two snapshots of one window, the one taken
/// at the later instant never shows the smaller ratio.
pub proof fn lemma_progress_ratio_monotonic(p1: Progress, p2: Progress)
    requires
        p1.wf(),
        p2.wf(),
        p1.timespan == p2.timespan,
        p1.current_time <= p2.current_time,
    ensures
        p1.ratio <= p2.ratio,
{
    lemma_ratio_monotonic(p1.timespan, p1.current_time as int, p2.current_time as int);
}

/// Boundary pinning, on snapshots: at or before `from` the ratio is exactly
/// 0, and at or after `to` exactly 1 (100 hundredths).
pub proof fn lemma_progress_ratio_pinned(p: Progress)
    requires
        p.wf(),
    ensures
        p.current_time <= p.timespan.from ==> p.ratio == 0,
        p.current_time >= p.timespan.to ==> p.ratio == 100,
{
    lemma_ratio_pinned(p.timespan, p.current_time as int);
}

/// Conservation, on snapshots: every snapshot's elapsed and remaining
/// seconds sum to its window's duration.
pub proof fn lemma_progress_conservation(p: Progress)
    requires
        p.wf(),
    ensures
        p.elapsed + p.remaining == p.timespan.duration,
{
}

} // verus!
