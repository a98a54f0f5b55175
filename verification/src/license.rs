//! The license record and its expiry rule.

use vstd::prelude::*;
use crate::clock::{
    instant_after, parse_naive_datetime, parsed_wall_time, read_in_local_zone, utc_now,
    Instant, LocalReading,
};

verus! {

/// The layout of the expiry date: an ISO date and time with fractional
/// seconds and no zone, as the server writes it.
pub const EXPIRY_FORMAT: &'static str = "%Y-%m-%dT%H:%M:%S.%f";

/// A license as the server issues it: its key, when it runs out (local wall
/// time), whom it was issued to, and the id of the machine it is bound to.
#[derive(Clone, Debug)]
pub struct License {
    pub value: String,
    pub expire: Option<String>,
    pub username: String,
    pub hwid: Option<String>,
}

/// A text that may be absent, read as empty where it is.
pub open spec fn text_or_empty(t: Option<String>) -> Seq<char> {
    match t {
        Some(s) => s@,
        None => Seq::empty(),
    }
}

/// Whether a license that runs out at `reading` has run out at `now`: once
/// `now` is past the instant; of two readings, past both; a date that the
/// zone skips never runs out.
pub open spec fn expired_at(reading: LocalReading, now: Instant) -> bool {
    match reading {
        LocalReading::Single(t) => instant_after(now, t),
        LocalReading::Ambiguous(a, b) => instant_after(now, a) && instant_after(now, b),
        LocalReading::Gap => false,
    }
}

impl License {
    /// The expiry date's text, empty where the license has none.
    pub open spec fn expire_text(self) -> Seq<char> {
        text_or_empty(self.expire)
    }

    /// The machine id the license is bound to, empty where it has none.
    pub open spec fn hwid_text(self) -> Seq<char> {
        text_or_empty(self.hwid)
    }

    /// The expiry date read in `EXPIRY_FORMAT`, as wall-clock seconds and
    /// nanoseconds past 1970-01-01T00:00:00; `None` where it does not read,
    /// an absent or empty one among them.
    pub fn expiry_wall_time(&self) -> (r: Option<Instant>)
        ensures
            match (r, parsed_wall_time(self.expire_text(), EXPIRY_FORMAT@)) {
                (Some(t), Some((secs, nanos))) => t.secs == secs && t.nanos == nanos,
                (None, None) => true,
                _ => false,
            },
            self.expire_text().len() == 0 ==> r is None,
    {
        let text = match &self.expire {
            Some(s) => s.clone(),
            None => String::new(),
        };
        proof {
            reveal_strlit("%Y-%m-%dT%H:%M:%S.%f");
        }
        match parse_naive_datetime(text.as_str(), EXPIRY_FORMAT) {
            None => None,
            Some((_, wall)) => Some(wall),
        }
    }

    /// Whether the license has run out: its expiry date is read in
    /// `EXPIRY_FORMAT`, placed in the local time zone and compared with the
    /// clock (see `expired_against`). A date that does not read, an absent or
    /// empty one among them, never runs out.
    pub fn is_expired(&self) -> (r: bool)
        ensures
            parsed_wall_time(self.expire_text(), EXPIRY_FORMAT@) is None ==> !r,
            self.expire_text().len() == 0 ==> !r,
            self.expire is None ==> !r,
    {
        let text = match &self.expire {
            Some(s) => s.clone(),
            None => String::new(),
        };
        proof {
            reveal_strlit("%Y-%m-%dT%H:%M:%S.%f");
        }
        match parse_naive_datetime(text.as_str(), EXPIRY_FORMAT) {
            None => false,
            Some((date, _)) => {
                let reading = read_in_local_zone(&date);
                let now = utc_now();
                expired_against(reading, now)
            },
        }
    }
}

/// Whether a license whose expiry date lands at `reading` has run out at `now`.
pub fn expired_against(reading: LocalReading, now: Instant) -> (r: bool)
    ensures
        r == expired_at(reading, now),
{
    match reading {
        LocalReading::Single(t) => now.secs > t.secs || (now.secs == t.secs && now.nanos > t.nanos),
        LocalReading::Ambiguous(a, b) => (now.secs > a.secs || (now.secs == a.secs && now.nanos > a.nanos))
            && (now.secs > b.secs || (now.secs == b.secs && now.nanos > b.nanos)),
        LocalReading::Gap => false,
    }
}

/// A license that has run out stays run out: if it has run out at `earlier`,
/// it has at every later instant.
pub proof fn lemma_expiry_is_permanent(reading: LocalReading, earlier: Instant, later: Instant)
    requires
        !instant_after(earlier, later),
        expired_at(reading, earlier),
    ensures
        expired_at(reading, later),
{
}

} // verus!
