//! Construction-time errors.
//!
//! The error taxonomy is deliberately small: a window can only fail to be
//! built, never to be rendered.

use crate::text;
use vstd::prelude::*;

verus! {

/// An error surfaced when a time window is constructed.
#[derive(Debug, Clone, Copy, PartialEq, Eq, Structural)]
pub enum DoItError {
    /// The `to` instant does not lie strictly after the `from` instant.
    FromAfterTo { from: i64, to: i64 },
}

/// The text of [`DoItError::message`].
pub open spec fn spec_error_message(e: DoItError) -> Seq<char> {
    match e {
        DoItError::FromAfterTo { from, to } => "the 'to' instant "@ + text::dec_str_i64(to as int)
            + " must be after the 'from' instant "@ + text::dec_str_i64(from as int) + "."@,
    }
}

impl DoItError {
    /// A human-readable description of the error.
    pub fn message(&self) -> (r: String)
        ensures
            r@ == spec_error_message(*self),
    {
        match *self {
            DoItError::FromAfterTo { from, to } => {
                let mut buf: Vec<char> = Vec::new();
                text::append_str(&mut buf, "the 'to' instant ");
                text::append_i64(&mut buf, to);
                text::append_str(&mut buf, " must be after the 'from' instant ");
                text::append_i64(&mut buf, from);
                text::append_str(&mut buf, ".");
                proof {
                    assert(buf@ =~= spec_error_message(*self));
                }
                text::string_of(buf)
            },
        }
    }
}

} // verus!
