//! Instants as the library handles them: seconds and nanoseconds since the
//! Unix epoch, UTC, as `chrono` counts them, with the calls into `chrono` that
//! read and write them as text.
use vstd::prelude::*;

verus! {

/// The earliest second `chrono::DateTime::from_timestamp` accepts: midnight of
/// 2 January of year -262143, a day after `DateTime::MIN_UTC`.
pub const MIN_SECS: i64 = -8_334_601_228_800;
/// The last second `chrono::DateTime::from_timestamp` accepts: the end of
/// 31 December of year 262142.
pub const MAX_SECS: i64 = 8_210_266_876_799;
/// Seconds in a day.
pub const DAY_SECS: i64 = 86_400;

/// An instant: non-leap seconds since 1970-01-01T00:00:00Z and the nanoseconds
/// past that second. `nanos` runs past 999_999_999 only inside a leap second,
/// which `chrono` attaches to the last second of a minute.
#[derive(Clone, Copy, Debug, PartialEq, Eq, Structural)]
pub struct Instant {
    pub secs: i64,
    pub nanos: u32,
}

/// The instants the library hands to `chrono`, all of which it represents.
pub open spec fn valid_instant(t: Instant) -> bool {
    &&& MIN_SECS <= t.secs <= MAX_SECS
    &&& t.nanos < 1_000_000_000 || (t.nanos < 2_000_000_000 && t.secs % 60 == 59)
}

/// A UTC offset `chrono` accepts: strictly within one day either way.
pub open spec fn valid_offset(offset: int) -> bool {
    -86_400 < offset < 86_400
}

/// `a` is strictly earlier than `b`.
pub open spec fn before(a: Instant, b: Instant) -> bool {
    a.secs < b.secs || (a.secs == b.secs && a.nanos < b.nanos)
}

/// Computes `before`.
pub fn is_before(a: Instant, b: Instant) -> (r: bool)
    ensures
        r == before(a, b),
{
    a.secs < b.secs || (a.secs == b.secs && a.nanos < b.nanos)
}

/// The day number (days since 1970-01-01) of the calendar date that an
/// instant falls on in a UTC offset.
pub open spec fn local_day(t: Instant, offset: int) -> int {
    (t.secs + offset) / (DAY_SECS as int)
}

/// Computes `local_day`.
pub fn local_day_of(t: Instant, offset: i32) -> (d: i64)
    requires
        valid_instant(t),
        valid_offset(offset as int),
    ensures
        d == local_day(t, offset as int),
{
    let shifted: i64 = t.secs + offset as i64;
    if shifted >= 0 {
        shifted / DAY_SECS
    } else {
        let q: i64 = (-shifted) / DAY_SECS;
        let r: i64 = (-shifted) % DAY_SECS;
        if r == 0 {
            -q
        } else {
            -q - 1
        }
    }
}

/// The instant `secs` seconds after `t`.
pub open spec fn plus_secs(t: Instant, secs: int) -> Instant {
    Instant { secs: (t.secs + secs) as i64, nanos: t.nanos }
}

/// What `chrono::DateTime::parse_from_rfc3339` reads from a text: the instant's
/// seconds and nanoseconds and the offset it was written in; `None` when the
/// text is not RFC 3339.
pub uninterp spec fn rfc3339_reading(text: Seq<char>) -> Option<(i64, u32, i32)>;

/// What `chrono::DateTime::parse_from_rfc2822` reads from a text: the instant's
/// seconds and nanoseconds; `None` when the text is not RFC 2822.
pub uninterp spec fn rfc2822_reading(text: Seq<char>) -> Option<(i64, u32)>;

/// What `chrono::DateTime::to_rfc3339` writes for an instant seen in an offset.
pub uninterp spec fn rfc3339_writing(secs: i64, nanos: u32, offset: i32) -> Seq<char>;

/// What `chrono::DateTime::format` writes for a UTC instant and a pattern.
pub uninterp spec fn utc_formatting(secs: i64, nanos: u32, pattern: Seq<char>) -> Seq<char>;

/// Reads an RFC 3339 timestamp with `chrono::DateTime::parse_from_rfc3339`,
/// keeping the offset it was written in. The result is named by
/// `rfc3339_reading`; beyond that this claims only what `chrono` guarantees of
/// every value it builds: the instant is representable and the offset lies
/// within a day.
#[verifier::external_body]
pub fn parse_rfc3339(text: &str) -> (r: Option<(Instant, i32)>)
    ensures
        match r {
            Some((t, offset)) => {
                &&& rfc3339_reading(text@) == Some((t.secs, t.nanos, offset))
                &&& valid_instant(t)
                &&& valid_offset(offset as int)
            },
            None => rfc3339_reading(text@) is None,
        },
{
    match chrono::DateTime::parse_from_rfc3339(text) {
        Ok(d) => Some((
            Instant { secs: d.timestamp(), nanos: d.timestamp_subsec_nanos() },
            d.offset().local_minus_utc(),
        )),
        Err(_) => None,
    }
}

/// Reads an RFC 2822 date with `chrono::DateTime::parse_from_rfc2822`, as a UTC
/// instant. The result is named by `rfc2822_reading`; beyond that this claims
/// only that the instant is representable.
#[verifier::external_body]
pub fn parse_rfc2822(text: &str) -> (r: Option<Instant>)
    ensures
        match r {
            Some(t) => rfc2822_reading(text@) == Some((t.secs, t.nanos)) && valid_instant(t),
            None => rfc2822_reading(text@) is None,
        },
{
    match chrono::DateTime::parse_from_rfc2822(text) {
        Ok(d) => Some(Instant { secs: d.timestamp(), nanos: d.timestamp_subsec_nanos() }),
        Err(_) => None,
    }
}

/// Writes an instant as RFC 3339 in the given offset with
/// `chrono::DateTime::to_rfc3339`. The text is named by `rfc3339_writing`.
#[verifier::external_body]
pub fn rfc3339_text(t: Instant, offset: i32) -> (s: String)
    requires
        valid_instant(t),
        valid_offset(offset as int),
    ensures
        s@ == rfc3339_writing(t.secs, t.nanos, offset),
{
    let utc = chrono::DateTime::from_timestamp(t.secs, t.nanos).expect("a representable instant");
    let zone = chrono::FixedOffset::east_opt(offset).expect("an offset within a day");
    utc.with_timezone(&zone).to_rfc3339()
}

/// Writes a UTC instant with `chrono::DateTime::format`. Only the patterns the
/// library uses are accepted (the signer's two and the NWS query time's); the
/// text is named by `utc_formatting`.
#[verifier::external_body]
pub fn utc_strftime(t: Instant, pattern: &str) -> (s: String)
    requires
        valid_instant(t),
        pattern@ == "%Y%m%dT%H%M%SZ"@ || pattern@ == "%Y%m%d"@ || pattern@ == "%Y-%m-%dT%H:%M:%SZ"@,
    ensures
        s@ == utc_formatting(t.secs, t.nanos, pattern@),
{
    let utc = chrono::DateTime::from_timestamp(t.secs, t.nanos).expect("a representable instant");
    utc.format(pattern).to_string()
}

/// The Unix epoch.
pub open spec fn epoch() -> Instant {
    Instant { secs: 0, nanos: 0 }
}

/// The instant with these parts, when `chrono` can represent it.
pub fn instant_checked(secs: i64, nanos: u32) -> (r: Option<Instant>)
    ensures
        r is Some <==> valid_instant((Instant { secs, nanos })),
        r matches Some(t) ==> t == (Instant { secs, nanos }),
{
    let r60: i64 = secs % 60;
    let second: i64 = if r60 < 0 {
        r60 + 60
    } else {
        r60
    };
    assert(second == secs as int % 60);
    if MIN_SECS <= secs && secs <= MAX_SECS && (nanos < 1_000_000_000 || (nanos < 2_000_000_000
        && second == 59)) {
        Some(Instant { secs, nanos })
    } else {
        None
    }
}

/// The instant `millis` milliseconds after the epoch (what
/// `DateTime::from_timestamp_millis` builds), when it is representable.
pub open spec fn instant_of_millis(millis: int) -> Instant {
    Instant { secs: (millis / 1000) as i64, nanos: ((millis % 1000) * 1_000_000) as u32 }
}

/// The instant `millis` milliseconds after the epoch, or `None` outside the
/// representable range.
pub fn instant_from_millis(millis: i64) -> (r: Option<Instant>)
    ensures
        r is Some <==> valid_instant(instant_of_millis(millis as int)),
        r matches Some(t) ==> t == instant_of_millis(millis as int),
{
    let q: i64 = millis / 1000;
    let m: i64 = millis % 1000;
    let (secs, rem): (i64, i64) = if m < 0 {
        (q - 1, m + 1000)
    } else {
        (q, m)
    };
    assert(secs == millis as int / 1000 && rem == millis as int % 1000);
    instant_checked(secs, (rem * 1_000_000) as u32)
}

} // verus!
