//! How long ago something happened, in words.

use vstd::prelude::*;
use crate::text::{decimal, push_decimal};

verus! {

/// A count and the name of what is counted: `<n> <unit> ago`.
pub open spec fn ago(n: int, unit: Seq<char>) -> Seq<char> {
    decimal(n as nat) + " "@ + unit + " ago"@
}

/// The words for a span of `diff_in_ms` milliseconds that has passed. A
/// negative span has no words. The largest unit that the span fills names
/// it, in whole units; days turn into weeks of 7 from 14 days on, into
/// months of 31 from 62 days on, and into years of 365 from 730 days on.
pub open spec fn pretty_date_text(diff_in_ms: int) -> Seq<char> {
    let seconds = diff_in_ms / 1000;
    let minutes = seconds / 60;
    let hours = minutes / 60;
    let days = hours / 24;
    if diff_in_ms < 0 {
        Seq::empty()
    } else if seconds < 30 {
        "just now"@
    } else if seconds < 60 {
        ago(seconds, "seconds"@)
    } else if minutes == 1 {
        "a minute ago"@
    } else if minutes < 60 {
        ago(minutes, "minutes"@)
    } else if hours == 1 {
        "an hour ago"@
    } else if hours < 24 {
        ago(hours, "hours"@)
    } else if days == 1 {
        "a day ago"@
    } else if days <= 13 {
        ago(days, "days"@)
    } else if days <= 61 {
        ago(days / 7, "weeks"@)
    } else if days <= 729 {
        ago(days / 31, "months"@)
    } else {
        ago(days / 365, "years"@)
    }
}

fn ago_string(n: u64, unit: &str) -> (out: String)
    ensures
        out@ == ago(n as int, unit@),
{
    let mut out = String::new();
    push_decimal(&mut out, n);
    out.append(" ");
    out.append(unit);
    out.append(" ago");
    assert(out@ =~= ago(n as int, unit@));
    out
}

pub fn pretty_date(diff_in_ms: i64) -> (out: String)
    ensures
        out@ == pretty_date_text(diff_in_ms as int),
{
    if diff_in_ms < 0 {
        return String::new();
    }
    let diff_in_ms = diff_in_ms as u64;
    let seconds = diff_in_ms / 1000;
    let minutes = seconds / 60;
    let hours = minutes / 60;
    let diff_days = hours / 24;

    let diff_seconds = seconds % 60;
    let diff_minutes = minutes % 60;
    let diff_hours = hours % 24;

    if diff_days == 0 && diff_hours == 0 && diff_minutes == 0 {
        if diff_seconds < 30 {
            "just now".to_owned()
        } else {
            ago_string(diff_seconds, "seconds")
        }
    } else if diff_days == 0 && diff_hours == 0 {
        if diff_minutes == 1 {
            "a minute ago".to_owned()
        } else {
            ago_string(diff_minutes, "minutes")
        }
    } else if diff_days == 0 {
        if diff_hours == 1 {
            "an hour ago".to_owned()
        } else {
            ago_string(diff_hours, "hours")
        }
    } else if diff_days == 1 {
        "a day ago".to_owned()
    } else if diff_days <= 13 {
        ago_string(diff_days, "days")
    } else if diff_days <= 61 {
        ago_string(diff_days / 7, "weeks")
    } else if diff_days <= 729 {
        ago_string(diff_days / 31, "months")
    } else {
        ago_string(diff_days / 365, "years")
    }
}

/// The span between a time and now, in milliseconds: none, written as
/// -1, for the time 0, which stands for a time that is not known.
pub open spec fn elapsed(ts: u64, now: u64) -> int {
    if ts == 0 {
        -1
    } else if now as int - ts as int > i64::MAX as int {
        i64::MAX as int
    } else {
        now as int - ts as int
    }
}

/// The words for how long ago `ts` was at the time `now`, both counted in
/// milliseconds.
pub fn pretty_date_ts(ts: u64, now: u64) -> (out: String)
    ensures
        out@ == pretty_date_text(elapsed(ts, now)),
{
    if ts == 0 {
        pretty_date(-1)
    } else if now < ts {
        let behind = ts - now;
        if behind > i64::MAX as u64 {
            pretty_date(i64::MIN)
        } else {
            pretty_date(-(behind as i64))
        }
    } else {
        let diff = now - ts;
        if diff > i64::MAX as u64 {
            pretty_date(i64::MAX)
        } else {
            pretty_date(diff as i64)
        }
    }
}

} // verus!
