//! Wall-clock instants and calendar formatting.
//!
//! An instant is a timezone-naive wall-clock time, held as whole seconds since
//! `1970-01-01 00:00:00`.  All window arithmetic is done on these integers;
//! only turning an instant into a calendar string (`"08-16 10:00"` and the
//! like) is delegated to the `chrono` crate through a trusted wrapper.

use std::fmt::Write;
use vstd::prelude::*;

verus! {

/// The earliest instant the crate handles: `0001-01-01 00:00:00`.
pub const INSTANT_MIN: i64 = -62135596800;

/// The latest instant the crate handles: `9999-12-31 23:59:59`.
pub const INSTANT_MAX: i64 = 253402300799;

/// An instant this crate's arithmetic and formatting are stated for.
pub open spec fn valid_instant(t: i64) -> bool {
    INSTANT_MIN <= t <= INSTANT_MAX
}

/// The format strings this crate itself selects; each uses only calendar
/// fields, which `chrono` formats for every in-range instant.
pub open spec fn known_time_format(f: Seq<char>) -> bool {
    ||| f == "%H:%M"@
    ||| f == "%m-%d %H:%M"@
    ||| f == "%Y-%m-%d"@
    ||| f == "%Y-%m-%d %H:%M:%S"@
}

/// What `chrono` renders for the instant `t` under the format string `f`:
/// `Some` text, or `None` where the format string is not renderable.  The
/// result is a function of the two arguments alone.
pub uninterp spec fn formatted_instant(t: int, f: Seq<char>) -> Option<Seq<char>>;

/// The rendered text of `formatted_instant`, for the cases where rendering is
/// known to succeed.
pub open spec fn formatted_or_empty(t: int, f: Seq<char>) -> Seq<char> {
    match formatted_instant(t, f) {
        Some(s) => s,
        None => Seq::empty(),
    }
}

/// Relies on `chrono::DateTime::from_timestamp` (defined for every in-range
/// second count) and `chrono::NaiveDateTime::format`: formatting writes text
/// that depends on the instant and the format string alone, and reports an
/// error — rather than writing — exactly for format strings it cannot render
/// (`formatted_instant` names the outcome).  Strings of calendar-field
/// specifiers such as `"%H:%M"` always render.
#[verifier::external_body]
pub fn format_instant(t: i64, f: &str) -> (r: Option<String>)
    requires
        valid_instant(t),
    ensures
        crate::text::opt_view(r) == formatted_instant(t as int, f@),
        known_time_format(f@) ==> r is Some,
{
    let dt = match chrono::DateTime::from_timestamp(t, 0) {
        Some(dt) => dt.naive_utc(),
        None => {
            return None;
        },
    };
    let mut out = String::new();
    match write!(out, "{}", dt.format(f)) {
        Ok(()) => Some(out),
        Err(_) => None,
    }
}

} // verus!
