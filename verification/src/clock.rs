//! Points in time as the license's expiry rule needs them: the calls into
//! `chrono` that read a date and place it in the local time zone, and the
//! reading of the system clock.

use vstd::prelude::*;
use chrono::TimeZone;

verus! {

#[verifier::external_type_specification]
#[verifier::external_body]
pub struct ExNaiveDateTime(chrono::NaiveDateTime);

/// An instant: whole seconds since 1970-01-01T00:00:00 UTC and the
/// nanoseconds past that second.
#[derive(Clone, Copy, Debug, PartialEq, Eq, Structural)]
pub struct Instant {
    pub secs: i64,
    pub nanos: u32,
}

/// Whether instant `a` comes after instant `b`.
pub open spec fn instant_after(a: Instant, b: Instant) -> bool {
    a.secs > b.secs || (a.secs == b.secs && a.nanos > b.nanos)
}

/// Where a wall-clock date lands in the local time zone: one instant, two
/// (the zone's clock went back over it; in no promised order), or none (the zone's
/// clock skipped it).
#[derive(Clone, Copy, Debug, PartialEq, Eq, Structural)]
pub enum LocalReading {
    Single(Instant),
    Ambiguous(Instant, Instant),
    Gap,
}

/// The wall-clock date that `chrono::NaiveDateTime::parse_from_str` reads
/// from `text` in `format`, as the seconds and nanoseconds it lies past
/// 1970-01-01T00:00:00 on the same wall clock (`and_utc().timestamp()` and
/// `timestamp_subsec_nanos()`), or `None` where chrono refuses the text.
pub uninterp spec fn parsed_wall_time(text: Seq<char>, format: Seq<char>) -> Option<(i64, u32)>;

/// Reads a wall-clock date with `chrono::NaiveDateTime::parse_from_str`.
/// Trusted: the result is `Some` exactly where `parsed_wall_time` is, with the
/// date beside the wall time that name gives, and an empty text never parses
/// in a format that starts with `%Y` (chrono wants at least one digit there).
#[verifier::external_body]
pub(crate) fn parse_naive_datetime(text: &str, format: &str) -> (r: Option<(chrono::NaiveDateTime, Instant)>)
    ensures
        match (r, parsed_wall_time(text@, format@)) {
            (Some((_, t)), Some((secs, nanos))) => t.secs == secs && t.nanos == nanos,
            (None, None) => true,
            _ => false,
        },
        (text@.len() == 0 && format@.len() >= 2 && format@[0] == '%' && format@[1] == 'Y') ==> r is None,
{
    match chrono::NaiveDateTime::parse_from_str(text, format) {
        Ok(date) => {
            let wall = date.and_utc();
            Some((date, Instant { secs: wall.timestamp(), nanos: wall.timestamp_subsec_nanos() }))
        },
        Err(_) => None,
    }
}

/// Places a wall-clock date in the machine's time zone with
/// `chrono::Local.from_local_datetime`. Trusted: nothing is claimed of the
/// result, which depends on the machine's zone; of two readings, chrono does
/// not promise an order on every platform.
#[verifier::external_body]
pub(crate) fn read_in_local_zone(date: &chrono::NaiveDateTime) -> (r: LocalReading) {
    match chrono::Local.from_local_datetime(date) {
        chrono::LocalResult::Single(t) => LocalReading::Single(Instant { secs: t.timestamp(), nanos: t.timestamp_subsec_nanos() }),
        chrono::LocalResult::Ambiguous(a, b) => LocalReading::Ambiguous(
            Instant { secs: a.timestamp(), nanos: a.timestamp_subsec_nanos() },
            Instant { secs: b.timestamp(), nanos: b.timestamp_subsec_nanos() },
        ),
        chrono::LocalResult::None => LocalReading::Gap,
    }
}

#[verifier::external_type_specification]
#[verifier::external_body]
pub struct ExSystemTime(std::time::SystemTime);

/// Reads the system clock with `std::time::SystemTime::now`. Trusted: nothing
/// is claimed of the reading, which is the time of the call.
#[verifier::external_body]
fn system_time_now() -> (r: std::time::SystemTime) {
    std::time::SystemTime::now()
}

/// How far `t` lies from 1970-01-01T00:00:00 UTC, by
/// `SystemTime::duration_since(UNIX_EPOCH)`: `Ok` with the seconds and
/// nanoseconds after that instant, or `Err` with those before it (the error's
/// `duration()`). Trusted: the nanoseconds are below one billion, as
/// `Duration::subsec_nanos` documents; the side and the amount depend on `t`,
/// which is opaque here.
#[verifier::external_body]
fn offset_from_epoch(t: &std::time::SystemTime) -> (r: Result<(u64, u32), (u64, u32)>)
    ensures
        match r {
            Ok((_, nanos)) => nanos < 1_000_000_000,
            Err((_, nanos)) => nanos < 1_000_000_000,
        },
{
    match t.duration_since(std::time::UNIX_EPOCH) {
        Ok(d) => Ok((d.as_secs(), d.subsec_nanos())),
        Err(e) => Err((e.duration().as_secs(), e.duration().subsec_nanos())),
    }
}

/// The instant that lies `offset` from 1970-01-01T00:00:00 UTC: after it for
/// `Ok`, before it for `Err`, clamped to the range of `Instant`.
pub open spec fn instant_at_offset(offset: Result<(u64, u32), (u64, u32)>) -> Instant {
    match offset {
        Ok((secs, nanos)) =>
            if secs <= i64::MAX {
                Instant { secs: secs as i64, nanos }
            } else {
                Instant { secs: i64::MAX, nanos: 999_999_999 }
            },
        Err((secs, nanos)) =>
            if nanos == 0 {
                if secs <= i64::MAX { Instant { secs: (-secs) as i64, nanos: 0 } } else { Instant { secs: i64::MIN, nanos: 0 } }
            } else {
                if secs < i64::MAX {
                    Instant { secs: (-secs - 1) as i64, nanos: (1_000_000_000 - nanos) as u32 }
                } else {
                    Instant { secs: i64::MIN, nanos: 0 }
                }
            },
    }
}

/// An instant's distance from 1970-01-01T00:00:00 UTC, in nanoseconds.
pub open spec fn instant_nanos(i: Instant) -> int {
    i.secs * 1_000_000_000 + i.nanos
}

/// The instant that lies `offset` from 1970-01-01T00:00:00 UTC.
pub fn instant_from_epoch_offset(offset: Result<(u64, u32), (u64, u32)>) -> (r: Instant)
    requires
        match offset {
            Ok((_, nanos)) => nanos < 1_000_000_000,
            Err((_, nanos)) => nanos < 1_000_000_000,
        },
    ensures
        r == instant_at_offset(offset),
        r.nanos < 1_000_000_000,
        match offset {
            Ok((secs, nanos)) => secs <= i64::MAX ==> instant_nanos(r) == secs * 1_000_000_000 + nanos,
            Err((secs, nanos)) => secs < i64::MAX ==> instant_nanos(r) == -(secs * 1_000_000_000 + nanos),
        },
{
    match offset {
        Ok((secs, nanos)) => {
            if secs <= i64::MAX as u64 {
                Instant { secs: secs as i64, nanos }
            } else {
                Instant { secs: i64::MAX, nanos: 999_999_999 }
            }
        },
        Err((secs, nanos)) => {
            if nanos == 0 {
                if secs <= i64::MAX as u64 {
                    Instant { secs: 0i64 - (secs as i64), nanos: 0 }
                } else {
                    Instant { secs: i64::MIN, nanos: 0 }
                }
            } else {
                if secs < i64::MAX as u64 {
                    Instant { secs: 0i64 - (secs as i64) - 1, nanos: 1_000_000_000 - nanos }
                } else {
                    Instant { secs: i64::MIN, nanos: 0 }
                }
            }
        },
    }
}

/// The time now, read from the system clock; a clock set before 1970 reads
/// as an instant before 1970.
pub(crate) fn utc_now() -> (r: Instant)
    ensures
        r.nanos < 1_000_000_000,
{
    let now = system_time_now();
    let offset = offset_from_epoch(&now);
    instant_from_epoch_offset(offset)
}

} // verus!
