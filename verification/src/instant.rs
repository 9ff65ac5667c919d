//! Instants in UTC as `chrono` holds them: seconds since the Unix epoch and
//! nanoseconds past them (a leap second shows as nanoseconds from one to two
//! billion on the 59th second of a minute). Their differences in whole
//! seconds, and their RFC 3339 text.
use vstd::prelude::*;
use crate::episode_builder::opt_view;

verus! {

pub const NANOS_PER_SEC: i128 = 1_000_000_000;

/// An instant in UTC: whole seconds since the Unix epoch and the
/// nanoseconds past them, as `DateTime::<Utc>::timestamp()` and
/// `timestamp_subsec_nanos()` give them.
#[derive(Debug, Clone, Copy, PartialEq, Eq, Structural)]
pub struct UtcInstant {
    pub secs: i64,
    pub nanos: u32,
}

/// Calls `chrono::Utc::now()` and takes its `timestamp()` and
/// `timestamp_subsec_nanos()`. The time read from the clock is not stated.
#[verifier::external_body]
pub(crate) fn utc_now() -> (r: UtcInstant) {
    let now = chrono::Utc::now();
    UtcInstant { secs: now.timestamp(), nanos: now.timestamp_subsec_nanos() }
}

/// Seconds into its day of an instant.
pub open spec fn second_of_day(i: UtcInstant) -> int {
    i.secs as int % 86400
}

/// Nanoseconds from `a` to `b`, as `chrono` subtracts date-times: the
/// difference of seconds, with a leap second counted once it is passed
/// within the day, plus the difference of nanoseconds.
pub open spec fn nanos_between(a: UtcInstant, b: UtcInstant) -> int {
    let leap: int = if second_of_day(b) > second_of_day(a) && a.nanos >= NANOS_PER_SEC {
        1
    } else if second_of_day(b) < second_of_day(a) && b.nanos >= NANOS_PER_SEC {
        -1
    } else {
        0
    };
    (b.secs - a.secs + leap) * NANOS_PER_SEC + (b.nanos - a.nanos)
}

/// Whole seconds from `a` to `b`, truncated toward zero (`(b - a).num_seconds()`).
pub open spec fn secs_between(a: UtcInstant, b: UtcInstant) -> int {
    let d = nanos_between(a, b);
    if d >= 0 {
        d / 1_000_000_000
    } else {
        -((-d) / 1_000_000_000)
    }
}

fn second_of_day_exec(i: UtcInstant) -> (r: i128)
    ensures
        r == second_of_day(i),
        0 <= r < 86400,
{
    let shifted: i128 = i.secs as i128 + 86400 * 106751991167301;
    let r = shifted % 86400;
    proof {
        let s = i.secs as int;
        assert((s + 86400 * 106751991167301) % 86400 == s % 86400) by (nonlinear_arith);
    }
    r
}

/// Whole seconds from `a` to `b` (as `secs_between`).
pub fn seconds_between(a: UtcInstant, b: UtcInstant) -> (r: i128)
    ensures
        r == secs_between(a, b),
{
    let ta = second_of_day_exec(a);
    let tb = second_of_day_exec(b);
    let leap: i128 = if tb > ta && a.nanos as i128 >= NANOS_PER_SEC {
        1
    } else if tb < ta && b.nanos as i128 >= NANOS_PER_SEC {
        -1
    } else {
        0
    };
    let s: i128 = b.secs as i128 - a.secs as i128 + leap;
    assert(-0x2_0000_0000_0000_0000 <= s <= 0x2_0000_0000_0000_0000);
    assert(-0x2_0000_0000_0000_0000 * NANOS_PER_SEC <= s * NANOS_PER_SEC <= 0x2_0000_0000_0000_0000
        * NANOS_PER_SEC) by (nonlinear_arith)
        requires
            -0x2_0000_0000_0000_0000 <= s <= 0x2_0000_0000_0000_0000,
    ;
    let d: i128 = s * NANOS_PER_SEC + (b.nanos as i128 - a.nanos as i128);
    if d >= 0 {
        d / NANOS_PER_SEC
    } else {
        -((-d) / NANOS_PER_SEC)
    }
}

/// RFC 3339 text of an instant, as `chrono` writes it
/// (`DateTime::<Utc>::from_timestamp(secs, nanos)?.to_rfc3339()`); `None`
/// where chrono has no such date-time.
pub uninterp spec fn rfc3339_instant(secs: i64, nanos: u32) -> Option<Seq<char>>;

/// Calls `DateTime::<Utc>::from_timestamp` and `to_rfc3339`. Trusted: the
/// result is chrono's rendering (named `rfc3339_instant`).
#[verifier::external_body]
fn format_rfc3339(secs: i64, nanos: u32) -> (r: Option<String>)
    ensures
        opt_view(r) == rfc3339_instant(secs, nanos),
{
    chrono::DateTime::<chrono::Utc>::from_timestamp(secs, nanos).map(|d| d.to_rfc3339())
}

/// RFC 3339 text of an instant, empty where chrono has no such date-time.
pub open spec fn time_text(i: UtcInstant) -> Seq<char> {
    match rfc3339_instant(i.secs, i.nanos) {
        Some(s) => s,
        None => Seq::empty(),
    }
}

/// RFC 3339 text of an instant (as `time_text`).
pub fn time_string(i: UtcInstant) -> (r: String)
    ensures
        r@ == time_text(i),
{
    match format_rfc3339(i.secs, i.nanos) {
        Some(s) => s,
        None => String::new(),
    }
}

} // verus!
