//! Stamps: instants written as RFC 3339 text, which chrono writes and reads.
//!
//! What chrono's formatter and parser compute is not restated here. Each result has a name,
//! and the two private functions that make the calls are believed, not proved.

use vstd::prelude::*;
use crate::instant::{Instant, Moment};
use crate::record::single_line;

verus! {

/// The text that chrono's `DateTime::<Utc>::to_rfc3339_opts` gives, with
/// `SecondsFormat::Nanos` and `Z` for the zone, for the instant whose `timestamp` is
/// `secs` and whose `timestamp_subsec_nanos` is `nanos`.
pub uninterp spec fn rfc3339_text(secs: int, nanos: int) -> Seq<char>;

/// The `timestamp` and the `timestamp_subsec_nanos` of what chrono's
/// `DateTime::parse_from_rfc3339` reads from `text`, or `None` where it rejects `text`.
pub uninterp spec fn rfc3339_instant(text: Seq<char>) -> Option<(int, int)>;

/// The stamp of a moment.
pub open spec fn stamp_text(at: Moment) -> Seq<char> {
    rfc3339_text(at.secs, at.nanos)
}

/// The moment that a stamp stands for, where it is well-formed.
pub open spec fn stamp_moment(stamp: Seq<char>) -> Option<Moment> {
    match rfc3339_instant(stamp) {
        Some((secs, nanos)) => {
            let at = Moment { secs, nanos };
            if at.representable() {
                Some(at)
            } else {
                None
            }
        },
        None => None,
    }
}

/// Builds the instant with chrono's `DateTime::from_timestamp` and writes it with
/// `DateTime::to_rfc3339_opts(SecondsFormat::Nanos, true)`.
///
/// Believed of chrono: `from_timestamp` accepts every representable moment, that is
/// every second from the `timestamp` of `DateTime::<Utc>::MIN_UTC` to that of `MAX_UTC`
/// with less than a billion nanoseconds, or less than two billion after the last second
/// of a minute; the text is a function of the instant alone; and it is made of digits,
/// signs, `T`, `:`, `.` and `Z`, so it holds no line feed and no carriage return.
#[verifier::external_body]
fn format_rfc3339(secs: i64, nanos: u32) -> (text: Option<String>)
    ensures
        (Moment { secs: secs as int, nanos: nanos as int }).representable() ==> text is Some,
        text matches Some(stamp) ==> stamp@ == rfc3339_text(secs as int, nanos as int)
            && single_line(stamp@),
{
    match chrono::DateTime::from_timestamp(secs, nanos) {
        Some(at) => Some(at.to_rfc3339_opts(chrono::SecondsFormat::Nanos, true)),
        None => None,
    }
}

/// Reads `text` with chrono's `DateTime::parse_from_rfc3339` and hands back the
/// `timestamp` and the `timestamp_subsec_nanos` of the result.
///
/// Believed of chrono: whether it accepts `text`, and what it reads, depend on `text`
/// alone.
#[verifier::external_body]
fn parse_rfc3339(text: &str) -> (read: Option<(i64, u32)>)
    ensures
        match read {
            Some(pair) => rfc3339_instant(text@) == Some((pair.0 as int, pair.1 as int)),
            None => rfc3339_instant(text@) is None,
        },
{
    match chrono::DateTime::parse_from_rfc3339(text) {
        Ok(at) => Some((at.timestamp(), at.timestamp_subsec_nanos())),
        Err(_) => None,
    }
}

impl Instant {
    /// The stamp of this instant: RFC 3339 text in UTC with nine digits of a second,
    /// such as `2024-05-06T07:08:09.000000010Z`.
    pub fn to_stamp(&self) -> (stamp: String)
        ensures
            stamp@ == stamp_text(self@),
            single_line(stamp@),
    {
        proof {
            use_type_invariant(self);
        }
        match format_rfc3339(self.seconds(), self.subsec_nanos()) {
            Some(stamp) => stamp,
            None => unreached(),
        }
    }

    /// The instant that `stamp` stands for, where `stamp` is well-formed RFC 3339 text.
    pub fn from_stamp(stamp: &str) -> (at: Option<Instant>)
        ensures
            match at {
                Some(instant) => stamp_moment(stamp@) == Some(instant@),
                None => stamp_moment(stamp@) is None,
            },
    {
        match parse_rfc3339(stamp) {
            Some((secs, nanos)) => Instant::new(secs, nanos),
            None => None,
        }
    }
}

} // verus!
