//! UTC instants as plain numbers.

use vstd::arithmetic::div_mod::lemma_mod_multiples_vanish;
use vstd::prelude::*;

verus! {

/// Nanoseconds in one second.
pub const NANOS_PER_SEC: u32 = 1_000_000_000;

/// Seconds in one day.
pub const SECS_PER_DAY: i64 = 86_400;

/// The earliest second that chrono's `DateTime<Utc>` can hold: midnight before
/// January 1 of the year -262143.
pub const MIN_SECS: i64 = -8_334_601_228_800;

/// The latest second that chrono's `DateTime<Utc>` can hold: the last second of
/// December 31 of the year 262142.
pub const MAX_SECS: i64 = 8_210_266_876_799;

/// The mathematical value of an [`Instant`].
pub struct Moment {
    /// Whole seconds since 1970-01-01T00:00:00Z, leap seconds not counted.
    pub secs: int,
    /// Nanoseconds past that second. From one billion on, the moment lies in a leap
    /// second that follows the second `secs`.
    pub nanos: int,
}

impl Moment {
    /// Whether the moment lies in a leap second.
    pub open spec fn is_leap(self) -> bool {
        self.nanos >= NANOS_PER_SEC
    }

    /// The moments that chrono's `DateTime<Utc>` can hold: the second is in range, and
    /// a leap second only follows the last second of a minute.
    pub open spec fn representable(self) -> bool {
        &&& MIN_SECS <= self.secs <= MAX_SECS
        &&& 0 <= self.nanos < 2 * NANOS_PER_SEC
        &&& self.is_leap() ==> self.secs % 60 == 59
    }

    /// Whether this moment is `other` or comes after it, by the second and then by the
    /// nanoseconds.
    pub open spec fn not_before(self, other: Moment) -> bool {
        other.secs < self.secs || (other.secs == self.secs && other.nanos <= self.nanos)
    }

    /// The second of the day, from 0 to 86399.
    pub open spec fn day_second(self) -> int {
        self.secs % (SECS_PER_DAY as int)
    }
}

/// A UTC instant with nanosecond precision, held as the two numbers that chrono's
/// `DateTime::timestamp` and `DateTime::timestamp_subsec_nanos` give for it.
#[derive(Clone, Copy, Debug, PartialEq, Eq)]
pub struct Instant {
    secs: i64,
    nanos: u32,
}

impl View for Instant {
    type V = Moment;

    closed spec fn view(&self) -> Moment {
        Moment { secs: self.secs as int, nanos: self.nanos as int }
    }
}

impl Instant {
    /// What holds of every instant: chrono can hold it.
    #[verifier::type_invariant]
    pub open spec fn well_formed(self) -> bool {
        self@.representable()
    }

    /// The instant `nanos` nanoseconds past the second `secs`, where chrono can hold it.
    pub fn new(secs: i64, nanos: u32) -> (made: Option<Instant>)
        ensures
            made is Some <==> (Moment { secs: secs as int, nanos: nanos as int }).representable(),
            made matches Some(at) ==> at@.secs == secs && at@.nanos == nanos,
    {
        if secs < MIN_SECS || secs > MAX_SECS || nanos >= 2 * NANOS_PER_SEC {
            return None;
        }
        // `MIN_SECS` is a whole number of minutes, so counting from it keeps the second
        // of the minute and avoids a remainder of a negative number.
        let since_min: i64 = secs - MIN_SECS;
        assert(since_min as int % 60 == secs as int % 60) by {
            assert(MIN_SECS as int == 60 * (-138_910_020_480int));
            lemma_mod_multiples_vanish(138_910_020_480, secs as int, 60);
        }
        if nanos >= NANOS_PER_SEC && since_min % 60 != 59 {
            return None;
        }
        Some(Instant { secs, nanos })
    }

    /// Whole seconds since 1970-01-01T00:00:00Z.
    pub fn seconds(&self) -> (secs: i64)
        ensures
            secs == self@.secs,
    {
        self.secs
    }

    /// Nanoseconds past the whole second.
    pub fn subsec_nanos(&self) -> (nanos: u32)
        ensures
            nanos == self@.nanos,
    {
        self.nanos
    }
}

} // verus!
