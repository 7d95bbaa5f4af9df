//! The time between two instants, as the stopwatch reports it.
//!
//! The span between two instants is counted as chrono's `DateTime::signed_duration_since`
//! counts it, and split as `TimeDelta::num_seconds` and `TimeDelta::subsec_nanos` split it.
//! On instants held as two numbers each of these is a line or two of arithmetic, which is
//! stated and proved here.

use vstd::prelude::*;
use vstd::arithmetic::div_mod::{
    lemma_div_pos_is_pos, lemma_fundamental_div_mod, lemma_mod_bound, lemma_mod_multiples_vanish,
};
use crate::decimal::{decimal, push_decimal};
use crate::instant::{Instant, Moment, MAX_SECS, MIN_SECS, NANOS_PER_SEC, SECS_PER_DAY};

verus! {

/// A signed span of time as it is reported: whole seconds, and the nanoseconds that are
/// left over. Both are rounded toward zero, so neither has the opposite sign of the span.
#[derive(Clone, Copy, Debug, PartialEq, Eq, Structural)]
pub struct Elapsed {
    /// Whole seconds of the span.
    pub seconds: i64,
    /// Nanoseconds of the span beyond its whole seconds.
    pub nanos: i64,
}

/// No two instants are as many nanoseconds apart as this.
pub const SPAN_LIMIT: i128 = 20_000_000_000_000_000_000_000;

/// The leap second that chrono counts between two moments, by their seconds of the day:
/// one more where the later second of the day is `stop`'s and `start` lies in a leap
/// second, one less where it is `start`'s and `stop` lies in a leap second.
pub open spec fn leap_correction(stop: Moment, start: Moment) -> int {
    if stop.day_second() > start.day_second() && start.is_leap() {
        1
    } else if stop.day_second() < start.day_second() && stop.is_leap() {
        -1
    } else {
        0
    }
}

/// The nanoseconds from `start` to `stop`: negative where `stop` is the earlier one.
/// Seconds count as they do in a timestamp, without leap seconds, but for the one that
/// `leap_correction` adds or takes away.
pub open spec fn nanos_between(stop: Moment, start: Moment) -> int {
    (stop.secs - start.secs + leap_correction(stop, start)) * NANOS_PER_SEC + (stop.nanos
        - start.nanos)
}

/// `total` nanoseconds in whole seconds, rounded toward zero.
pub open spec fn whole_seconds(total: int) -> int {
    if total >= 0 {
        total / (NANOS_PER_SEC as int)
    } else {
        -((-total) / (NANOS_PER_SEC as int))
    }
}

/// What is left of `total` nanoseconds beyond its whole seconds, with the sign of `total`.
pub open spec fn leftover_nanos(total: int) -> int {
    total - whole_seconds(total) * NANOS_PER_SEC
}

/// The span of `total` nanoseconds as it is reported, however long it is.
pub open spec fn elapsed_of(total: int) -> Elapsed {
    Elapsed { seconds: whole_seconds(total) as i64, nanos: leftover_nanos(total) as i64 }
}

/// The line that reports a span: its seconds, a point, its leftover nanoseconds as they
/// are, without leading zeros, and the word `seconds`.
pub open spec fn report_text(span: Elapsed) -> Seq<char> {
    decimal(span.seconds as int) + seq!['.'] + decimal(span.nanos as int) + seq![
        ' ',
        's',
        'e',
        'c',
        'o',
        'n',
        'd',
        's',
    ]
}

/// The time from `start` to `stop` as it is reported.
pub open spec fn elapsed_between(stop: Moment, start: Moment) -> Elapsed {
    elapsed_of(nanos_between(stop, start))
}

/// Two representable moments are less than `SPAN_LIMIT` nanoseconds apart, so the whole
/// seconds between them fit in an `i64`.
pub proof fn lemma_span_bounds(stop: Moment, start: Moment)
    requires
        stop.representable(),
        start.representable(),
    ensures
        -SPAN_LIMIT < nanos_between(stop, start) < SPAN_LIMIT,
        i64::MIN < whole_seconds(nanos_between(stop, start)) < i64::MAX,
        elapsed_between(stop, start).seconds == whole_seconds(nanos_between(stop, start)),
        elapsed_between(stop, start).nanos == leftover_nanos(nanos_between(stop, start)),
{
    lemma_whole_seconds(nanos_between(stop, start));
}

/// The whole seconds and the leftover nanoseconds make up the span, and the leftover is
/// less than a second and never of the opposite sign.
pub proof fn lemma_whole_seconds(total: int)
    ensures
        total == whole_seconds(total) * NANOS_PER_SEC + leftover_nanos(total),
        total >= 0 ==> 0 <= leftover_nanos(total) < NANOS_PER_SEC && 0 <= whole_seconds(total)
            <= total,
        total <= 0 ==> -(NANOS_PER_SEC as int) < leftover_nanos(total) <= 0 && total
            <= whole_seconds(total) <= 0,
{
    if total >= 0 {
        lemma_fundamental_div_mod(total, NANOS_PER_SEC as int);
        lemma_div_pos_is_pos(total, NANOS_PER_SEC as int);
        lemma_mod_bound(total, NANOS_PER_SEC as int);
    } else {
        lemma_fundamental_div_mod(-total, NANOS_PER_SEC as int);
        lemma_div_pos_is_pos(-total, NANOS_PER_SEC as int);
        lemma_mod_bound(-total, NANOS_PER_SEC as int);
    }
}

/// A span that is not negative is reported with whole seconds that are not negative and
/// with leftover nanoseconds from 0 up to, not including, a full second.
pub proof fn lemma_forward_span(total: int)
    requires
        0 <= total < SPAN_LIMIT,
    ensures
        0 <= elapsed_of(total).seconds == whole_seconds(total),
        0 <= elapsed_of(total).nanos == leftover_nanos(total) < NANOS_PER_SEC,
{
    lemma_whole_seconds(total);
}

/// Between two moments of which neither lies in a leap second, the span is the plain
/// difference.
pub proof fn lemma_plain_difference(stop: Moment, start: Moment)
    requires
        !stop.is_leap(),
        !start.is_leap(),
    ensures
        nanos_between(stop, start) == (stop.secs - start.secs) * NANOS_PER_SEC + (stop.nanos
            - start.nanos),
{
}

/// The second of the day of an instant's second.
fn day_second_of(secs: i64) -> (second: i64)
    requires
        MIN_SECS <= secs <= MAX_SECS,
    ensures
        second == secs as int % (SECS_PER_DAY as int),
{
    // `MIN_SECS` is a whole number of days, so counting from it keeps the second of
    // the day and avoids a remainder of a negative number.
    let since_min: i64 = secs - MIN_SECS;
    assert(since_min as int % 86_400 == secs as int % 86_400) by {
        assert(MIN_SECS as int == 86_400 * (-96_465_292int));
        lemma_mod_multiples_vanish(96_465_292, secs as int, 86_400);
    }
    since_min % 86_400
}

/// The span of `total` nanoseconds as it is reported.
fn elapsed_from(total: i128) -> (span: Elapsed)
    requires
        -SPAN_LIMIT <= total <= SPAN_LIMIT,
    ensures
        span == elapsed_of(total as int),
        span.seconds == whole_seconds(total as int),
        span.nanos == leftover_nanos(total as int),
{
    if total >= 0 {
        let whole: i128 = total / 1_000_000_000;
        let rest: i128 = total % 1_000_000_000;
        assert(total as int == whole * 1_000_000_000 + rest) by {
            lemma_fundamental_div_mod(total as int, 1_000_000_000);
        }
        Elapsed { seconds: whole as i64, nanos: rest as i64 }
    } else {
        let magnitude: i128 = -total;
        let whole: i128 = magnitude / 1_000_000_000;
        let rest: i128 = magnitude % 1_000_000_000;
        assert(magnitude as int == whole * 1_000_000_000 + rest) by {
            lemma_fundamental_div_mod(magnitude as int, 1_000_000_000);
        }
        Elapsed { seconds: (-whole) as i64, nanos: (-rest) as i64 }
    }
}

impl Elapsed {
    /// The line that reports this span, such as `12.340000000 seconds`.
    pub fn report(&self) -> (line: String)
        ensures
            line@ == report_text(*self),
    {
        proof {
            reveal_strlit(".");
            reveal_strlit(" seconds");
        }
        let mut line = String::new();
        push_decimal(&mut line, self.seconds);
        line.append(".");
        push_decimal(&mut line, self.nanos);
        line.append(" seconds");
        assert(line@ =~= report_text(*self));
        line
    }
}

impl Instant {
    /// The time that has passed at `self` since `start`; negative where `start` is the
    /// later of the two.
    pub fn elapsed_since(&self, start: &Instant) -> (span: Elapsed)
        ensures
            span == elapsed_between(self@, start@),
            span.seconds == whole_seconds(nanos_between(self@, start@)),
            span.nanos == leftover_nanos(nanos_between(self@, start@)),
            -(NANOS_PER_SEC as int) < span.nanos < NANOS_PER_SEC,
    {
        proof {
            use_type_invariant(self);
            use_type_invariant(start);
        }
        let stop_day: i64 = day_second_of(self.seconds());
        let start_day: i64 = day_second_of(start.seconds());
        let correction: i128 = if stop_day > start_day && start.subsec_nanos() >= NANOS_PER_SEC {
            1
        } else if stop_day < start_day && self.subsec_nanos() >= NANOS_PER_SEC {
            -1
        } else {
            0
        };
        let secs: i128 = self.seconds() as i128 - start.seconds() as i128 + correction;
        let total: i128 = secs * 1_000_000_000 + (self.subsec_nanos() as i128
            - start.subsec_nanos() as i128);
        elapsed_from(total)
    }
}

} // verus!
