//! What holds of starts and stops that follow one another against one file.
//!
//! The file is the only thing that a start and a later stop share. Here it is a value:
//! `None` where there is no file, else its text. `file_after_start` and `file_after_stop`
//! say what each command makes of it. A file whose bytes are not text has no such value: a
//! stop against it fails, and `text::lemma_append_keeps_text` shows that a start never
//! turns a file that is text into one.

use vstd::prelude::*;
use crate::elapsed::{
    elapsed_between, lemma_forward_span, lemma_span_bounds, nanos_between, Elapsed,
};
use crate::instant::{Moment, NANOS_PER_SEC};
use crate::record::{
    last_start_line, lemma_last_record, lemma_last_record_is, lemma_line_end_is, line_at,
    line_begins, line_stop, record_begins, single_line, stamp_of, start_prefix, start_record,
    PREFIX_LEN,
};
use crate::stamp::stamp_moment;
use crate::start::{file_after_start, file_text};
use crate::stop::{
    exit_status, file_after_stop, stop_deletes, stop_result, stop_result_of, FileRead, StopError,
};

verus! {

/// What a stop reports once the stamp of the last start record is known.
pub open spec fn result_for_stamp(stamp: Seq<char>, now: Moment) -> Result<Elapsed, StopError> {
    match stamp_moment(stamp) {
        Some(start) => Ok(elapsed_between(now, start)),
        None => Err(StopError::BadTimestamp),
    }
}

/// A record that is appended to complete lines is the last start record of the text.
pub proof fn lemma_appended_record_is_last(text: Seq<char>, stamp: Seq<char>)
    requires
        text.len() == 0 || text.last() == '\n',
        single_line(stamp),
    ensures
        last_start_line(text + start_record(stamp)) == Some(start_prefix() + stamp),
        stamp_of(start_prefix() + stamp) == stamp,
{
    let whole = text + start_record(stamp);
    let at = text.len() as int;
    let end = at + PREFIX_LEN + stamp.len();
    assert(whole.len() == end + 1);
    assert forall|i: int| at <= i < end implies whole[i] != '\n' && whole[i] != '\r' by {
        if i < at + PREFIX_LEN {
            assert(whole[i] == start_prefix()[i - at]);
        } else {
            assert(whole[i] == stamp[i - at - PREFIX_LEN]);
        }
    }
    assert(whole[end] == '\n');
    lemma_line_end_is(whole, at, end);
    assert(line_stop(whole, at) == end);
    assert(line_at(whole, at) =~= start_prefix() + stamp);
    assert(start_prefix() =~= (start_prefix() + stamp).subrange(0, PREFIX_LEN as int));
    assert(line_begins(whole, at)) by {
        if at > 0 {
            assert(whole[at - 1] == text.last());
        }
    }
    assert forall|later: int| at < later < whole.len() implies !record_begins(whole, later) by {
        assert(whole[later - 1] != '\n');
    }
    lemma_last_record_is(whole, whole.len() as int, at);
    assert(stamp_of(start_prefix() + stamp) =~= stamp);
}

/// The last start wins. After two starts, whatever the file held before and whatever
/// the first start recorded, a stop goes by the stamp of the second start alone.
pub proof fn lemma_last_start_wins(
    file: Option<Seq<char>>,
    first: Seq<char>,
    second: Seq<char>,
    now: Moment,
)
    requires
        single_line(second),
    ensures
        ({
            let after = file_after_start(
                file_after_start(file, start_record(first)),
                start_record(second),
            );
            &&& after matches Some(text) && last_start_line(text) == Some(start_prefix() + second)
            &&& stop_result(after, now) == result_for_stamp(second, now)
        }),
{
    let once = file_text(file) + start_record(first);
    assert(once.last() == '\n');
    lemma_appended_record_is_last(once, second);
}

/// One start against a file of complete lines, or against no file, and a stop goes by
/// that start.
pub proof fn lemma_start_then_stop(file: Option<Seq<char>>, stamp: Seq<char>, now: Moment)
    requires
        single_line(stamp),
        file_text(file).len() == 0 || file_text(file).last() == '\n',
    ensures
        stop_result(file_after_start(file, start_record(stamp)), now) == result_for_stamp(
            stamp,
            now,
        ),
{
    lemma_appended_record_is_last(file_text(file), stamp);
}

/// A stop against no file fails with status 1, whether or not it was to clean up, and
/// there is still no file after it.
pub proof fn lemma_stop_without_file(now: Moment, clean: bool)
    ensures
        stop_result(None, now) == Err::<Elapsed, StopError>(StopError::MissingFile),
        exit_status(stop_result(None, now)) == 1,
        file_after_stop(None, now, clean) is None,
{
}

/// A stop against a file that could not be read, or whose bytes are not text, fails with
/// status 1, whatever else the file holds.
pub proof fn lemma_stop_unreadable(file: FileRead, now: Moment)
    requires
        !file.readable(),
    ensures
        stop_result_of(file, now) == Err::<Elapsed, StopError>(StopError::Unreadable),
        exit_status(stop_result_of(file, now)) == 1,
{
}

/// A stop against a file in which no line begins with the prefix fails with status 1.
pub proof fn lemma_stop_without_record(text: Seq<char>, now: Moment)
    requires
        forall|at: int| !record_begins(text, at),
    ensures
        stop_result(Some(text), now) == Err::<Elapsed, StopError>(StopError::NoStartRecord),
        exit_status(stop_result(Some(text), now)) == 1,
{
    lemma_last_record(text, text.len() as int);
}

/// A stop finds no start record only in a file in which no line begins with the prefix.
pub proof fn lemma_no_record_means_none(text: Seq<char>, now: Moment)
    requires
        stop_result(Some(text), now) == Err::<Elapsed, StopError>(StopError::NoStartRecord),
    ensures
        forall|at: int| !record_begins(text, at),
{
    lemma_last_record(text, text.len() as int);
}

/// Where the stamp of the last start record is not well-formed, the stop fails with
/// status 1 and reports no time, and the file stays.
pub proof fn lemma_stop_with_bad_stamp(text: Seq<char>, now: Moment, clean: bool)
    ensures
        (last_start_line(text) matches Some(line) && stamp_moment(stamp_of(line)) is None) ==> {
            &&& stop_result(Some(text), now) == Err::<Elapsed, StopError>(StopError::BadTimestamp)
            &&& exit_status(stop_result(Some(text), now)) == 1
            &&& file_after_stop(Some(text), now, clean) == Some(text)
        },
{
}

/// A successful stop that cleans up leaves no file, so the next stop fails for want of
/// one.
pub proof fn lemma_clean_stop_removes_file(file: Option<Seq<char>>, now: Moment, later: Moment)
    requires
        stop_result(file, now) is Ok,
    ensures
        stop_deletes(file, now, true),
        file_after_stop(file, now, true) is None,
        stop_result(file_after_stop(file, now, true), later) == Err::<Elapsed, StopError>(
            StopError::MissingFile,
        ),
{
}

/// A stop that fails deletes nothing, even where it was to clean up.
pub proof fn lemma_failed_stop_keeps_file(file: Option<Seq<char>>, now: Moment, clean: bool)
    requires
        stop_result(file, now) is Err,
    ensures
        !stop_deletes(file, now, clean),
        file_after_stop(file, now, clean) == file,
{
}

/// A stop that does not clean up leaves the file as it was, so a later stop goes by the
/// same start.
pub proof fn lemma_stop_keeps_file(file: Option<Seq<char>>, now: Moment, later: Moment)
    ensures
        file_after_stop(file, now, false) == file,
        stop_result(file_after_stop(file, now, false), later) == stop_result(file, later),
{
}

/// A stop at the very moment of the last start reports no time at all; a stop at a later
/// moment reports whole seconds that are not negative and a fraction of a second from 0
/// up to, not including, a full second. Moments in a leap second are left out of the
/// second claim.
pub proof fn lemma_stop_after_start(text: Seq<char>, start: Moment, now: Moment)
    requires
        last_start_line(text) matches Some(line) && stamp_moment(stamp_of(line)) == Some(start),
        now.representable(),
    ensures
        now == start ==> stop_result(Some(text), now) == Ok::<Elapsed, StopError>(
            Elapsed { seconds: 0, nanos: 0 },
        ),
        !start.is_leap() && !now.is_leap() && now.not_before(start) ==> {
            &&& stop_result(Some(text), now) matches Ok(span)
            &&& 0 <= span.seconds
            &&& 0 <= span.nanos < NANOS_PER_SEC
        },
{
    lemma_span_bounds(now, start);
    if now == start {
        assert(nanos_between(now, start) == 0);
    }
    if !start.is_leap() && !now.is_leap() && now.not_before(start) {
        assert(nanos_between(now, start) >= 0);
        lemma_forward_span(nanos_between(now, start));
    }
}

/// A start and a stop in turn. Where the stamp that the start wrote stands for the
/// moment `start`, a stop at that very moment reports no time at all, and a stop at a
/// later moment reports a time that is not negative, with a fraction of a second from 0
/// up to, not including, a full second. Moments in a leap second are left out of the
/// second claim.
pub proof fn lemma_round_trip(file: Option<Seq<char>>, stamp: Seq<char>, start: Moment, now: Moment)
    requires
        file_text(file).len() == 0 || file_text(file).last() == '\n',
        single_line(stamp),
        stamp_moment(stamp) == Some(start),
        now.representable(),
    ensures
        ({
            let after = file_after_start(file, start_record(stamp));
            &&& now == start ==> stop_result(after, now) == Ok::<Elapsed, StopError>(
                Elapsed { seconds: 0, nanos: 0 },
            )
            &&& !start.is_leap() && !now.is_leap() && now.not_before(start) ==> {
                &&& stop_result(after, now) matches Ok(span)
                &&& 0 <= span.seconds
                &&& 0 <= span.nanos < NANOS_PER_SEC
            }
        }),
{
    lemma_appended_record_is_last(file_text(file), stamp);
    lemma_stop_after_start(file_text(file) + start_record(stamp), start, now);
}

} // verus!
