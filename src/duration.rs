//! Plain-number durations and their display.

use vstd::prelude::*;
use crate::text::{decimal, decimal_string};

verus! {

/// A span of time counted in one unit.
#[derive(Clone, Copy, Debug, PartialEq, Eq, Structural)]
pub enum SimpleDuration {
    Seconds(u64),
    Minutes(u64),
    Hours(u64),
    Days(u64),
    Weeks(u64),
    Months(u64),
}

/// A simple duration in words, as in `3 hours`.
pub open spec fn human_text(d: SimpleDuration) -> Seq<char> {
    match d {
        SimpleDuration::Seconds(n) => decimal(n as nat) + " seconds"@,
        SimpleDuration::Minutes(n) => decimal(n as nat) + " minutes"@,
        SimpleDuration::Hours(n) => decimal(n as nat) + " hours"@,
        SimpleDuration::Days(n) => decimal(n as nat) + " days"@,
        SimpleDuration::Weeks(n) => decimal(n as nat) + " weeks"@,
        SimpleDuration::Months(n) => decimal(n as nat) + " months"@,
    }
}

impl SimpleDuration {
    /// The duration in words, as in `3 hours`.
    pub fn human_fmt(self) -> (r: String)
        ensures
            r@ == human_text(self),
    {
        let (n, unit) = match self {
            SimpleDuration::Seconds(n) => (n, " seconds"),
            SimpleDuration::Minutes(n) => (n, " minutes"),
            SimpleDuration::Hours(n) => (n, " hours"),
            SimpleDuration::Days(n) => (n, " days"),
            SimpleDuration::Weeks(n) => (n, " weeks"),
            SimpleDuration::Months(n) => (n, " months"),
        };
        let mut r = decimal_string(n);
        r.append(unit);
        r
    }
}

/// One part of a span text: the count and its unit, or nothing for zero.
pub open spec fn span_part(n: nat, unit: Seq<char>) -> Seq<char> {
    if n == 0 { seq![] } else { decimal(n) + unit }
}

/// A span of whole seconds in days, hours, minutes and seconds, leaving out
/// the zero parts, as in `1d2h30s`; `0s` for none.
pub open spec fn span_text(secs: nat) -> Seq<char> {
    if secs == 0 {
        "0s"@
    } else {
        span_part(secs / 86400, "d"@) + span_part(secs / 3600 % 24, "h"@) + span_part(secs / 60 % 60, "m"@)
            + span_part(secs % 60, "s"@)
    }
}

fn append_part(s: &mut String, n: u64, unit: &str)
    ensures
        final(s)@ == old(s)@ + span_part(n as nat, unit@),
{
    if n != 0 {
        let digits = decimal_string(n);
        s.append(digits.as_str());
        s.append(unit);
    } else {
        assert(old(s)@ + span_part(n as nat, unit@) =~= old(s)@);
    }
}

/// A span of whole seconds in days, hours, minutes and seconds.
pub fn span_string(secs: u64) -> (r: String)
    ensures
        r@ == span_text(secs as nat),
{
    if secs == 0 {
        return String::from_str("0s");
    }
    let mut r = String::new();
    append_part(&mut r, secs / 86400, "d");
    append_part(&mut r, secs / 3600 % 24, "h");
    append_part(&mut r, secs / 60 % 60, "m");
    append_part(&mut r, secs % 60, "s");
    assert(r@ =~= span_text(secs as nat));
    r
}

} // verus!
