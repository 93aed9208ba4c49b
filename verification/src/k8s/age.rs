//! Points in time and the ages shown for them.
use vstd::prelude::*;
use crate::text::{decimal_int, i64_to_string, push_char, to_owned_string};

verus! {

/// A point in time: whole seconds since the Unix epoch and the nanoseconds
/// past that second.
#[derive(Debug, Clone, Copy, PartialEq, Eq, Structural)]
pub struct Instant {
    secs: i64,
    nanos: u32,
}

pub const NANOS_PER_SEC: i128 = 1_000_000_000;

/// The first second `chrono` represents: January 1 of the year -262143.
pub const MIN_SECS: i64 = -8_334_601_228_800;

/// The last second `chrono` represents: December 31 of the year 262142,
/// 23:59:59.
pub const MAX_SECS: i64 = 8_210_266_876_799;

/// Whether a time has fewer than a second's worth of nanoseconds and lies
/// within the dates that `chrono` represents.
pub open spec fn instant_in_range(secs: int, nanos: int) -> bool {
    &&& 0 <= nanos < 1_000_000_000
    &&& MIN_SECS <= secs <= MAX_SECS
}

impl Instant {
    #[verifier::type_invariant]
    spec fn wf(self) -> bool {
        instant_in_range(self.secs as int, self.nanos as int)
    }

    /// Whole seconds since the epoch.
    pub closed spec fn seconds(self) -> int {
        self.secs as int
    }

    /// Nanoseconds past the whole second.
    pub closed spec fn subsec_nanos(self) -> int {
        self.nanos as int
    }

    /// The instant `secs` seconds and `nanos` nanoseconds after the epoch,
    /// when that lies in range.
    pub fn new(secs: i64, nanos: u32) -> (r: Option<Instant>)
        ensures
            r is Some <==> instant_in_range(secs as int, nanos as int),
            r is Some ==> r->0.seconds() == secs && r->0.subsec_nanos() == nanos,
    {
        if nanos < 1_000_000_000 && MIN_SECS <= secs && secs <= MAX_SECS {
            Some(Instant { secs, nanos })
        } else {
            None
        }
    }

    pub fn secs(&self) -> (s: i64)
        ensures
            s == self.seconds(),
    {
        self.secs
    }

    pub fn nanos(&self) -> (n: u32)
        ensures
            n == self.subsec_nanos(),
    {
        self.nanos
    }
}

/// The RFC 3339 text of the UTC time `secs` seconds and `nanos`
/// nanoseconds after the epoch, as `chrono` writes it.
pub uninterp spec fn rfc3339_text(secs: int, nanos: int) -> Seq<char>;

/// The RFC 3339 text of an instant (`chrono::DateTime::from_timestamp`,
/// then `to_rfc3339`). `from_timestamp` gives a time for every instant in
/// range, so the `unwrap` never fails; the text is named, not spelled out.
#[verifier::external_body]
pub(crate) fn rfc3339(t: Instant) -> (s: String)
    ensures
        s@ == rfc3339_text(t.seconds(), t.subsec_nanos()),
{
    chrono::DateTime::from_timestamp(t.secs, t.nanos).unwrap().to_rfc3339()
}

/// The signed distance from `then` to `now`, in nanoseconds.
pub open spec fn elapsed_nanos(now: Instant, then: Instant) -> int {
    (now.seconds() - then.seconds()) * 1_000_000_000 + (now.subsec_nanos() - then.subsec_nanos())
}

/// Integer division rounding toward zero, as Rust's `/` does.
pub open spec fn div_trunc(a: int, b: int) -> int
    recommends
        b > 0,
{
    if a >= 0 {
        a / b
    } else {
        -((-a) / b)
    }
}

/// Whole seconds elapsed, rounded toward zero (`TimeDelta::num_seconds`).
pub open spec fn elapsed_secs(now: Instant, then: Instant) -> int {
    div_trunc(elapsed_nanos(now, then), 1_000_000_000)
}

/// The human-readable age of something created at `then`, seen at `now`:
/// "future" when it lies ahead, else the largest of days, hours, minutes
/// that is non-zero, else seconds.
pub open spec fn age_text(now: Instant, then: Instant) -> Seq<char> {
    let s = elapsed_secs(now, then);
    if s < 0 {
        "future"@
    } else if s / 86400 > 0 {
        decimal_int(s / 86400).push('d')
    } else if s / 3600 > 0 {
        decimal_int(s / 3600).push('h')
    } else if s / 60 > 0 {
        decimal_int(s / 60).push('m')
    } else {
        decimal_int(s).push('s')
    }
}

/// The age of an optional creation time, with `fallback` when it is absent.
pub open spec fn age_or(now: Instant, then: Option<Instant>, fallback: Seq<char>) -> Seq<char> {
    match then {
        Some(t) => age_text(now, t),
        None => fallback,
    }
}

fn elapsed_seconds(now: Instant, then: Instant) -> (s: i64)
    ensures
        s == elapsed_secs(now, then),
{
    proof {
        use_type_invariant(&now);
        use_type_invariant(&then);
    }
    let d: i128 = (now.secs as i128 - then.secs as i128) * NANOS_PER_SEC + (now.nanos as i128
        - then.nanos as i128);
    let s: i128 = if d >= 0 { d / NANOS_PER_SEC } else { 0 - ((0 - d) / NANOS_PER_SEC) };
    assert(-30_000_000_000_000 <= s <= 30_000_000_000_000) by (nonlinear_arith)
        requires
            d == (now.secs - then.secs) * 1_000_000_000 + (now.nanos - then.nanos),
            -20_000_000_000_000 < now.secs - then.secs < 20_000_000_000_000,
            -1_000_000_000 < now.nanos - then.nanos < 1_000_000_000,
            s == (if d >= 0 { d / 1_000_000_000 } else { -((-d) / 1_000_000_000) }),
    ;
    s as i64
}

/// Format the age between a timestamp and now (e.g. "5d", "3h", "12m").
pub fn format_age(now: Instant, then: Instant) -> (s: String)
    ensures
        s@ == age_text(now, then),
{
    let total = elapsed_seconds(now, then);
    if total < 0 {
        return to_owned_string("future");
    }
    let days = total / 86400;
    let hours = total / 3600;
    let minutes = total / 60;
    let (value, unit) = if days > 0 {
        (days, 'd')
    } else if hours > 0 {
        (hours, 'h')
    } else if minutes > 0 {
        (minutes, 'm')
    } else {
        (total, 's')
    };
    let mut s = i64_to_string(value);
    push_char(&mut s, unit);
    s
}

/// The age of an optional timestamp, or `fallback` when there is none.
pub fn age_or_else(now: Instant, then: Option<Instant>, fallback: &str) -> (s: String)
    ensures
        s@ == age_or(now, then, fallback@),
{
    match then {
        Some(t) => format_age(now, t),
        None => to_owned_string(fallback),
    }
}

} // verus!
