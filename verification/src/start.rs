//! The start command: what it adds to the file.

use vstd::prelude::*;
use crate::instant::Instant;
use crate::record::{single_line, start_record};
use crate::stamp::stamp_text;

verus! {

/// What a start hands to its caller.
#[derive(Debug, PartialEq, Eq)]
pub struct Started {
    /// The stamp of the instant that was recorded.
    pub stamp: String,
    /// The text to append to the file: one start record with its line feed.
    pub record: String,
}

/// What to do once the file could not be opened for appending.
#[derive(Clone, Copy, Debug, PartialEq, Eq, Structural)]
pub enum OpenStep {
    /// Create the file.
    Create,
    /// Give up: report the failure and exit with status 1.
    Fail,
}

/// What follows a failure to open the file for appending: the file is created where
/// there is none, and for any other reason the start fails, with no second try.
pub fn after_open_failure(absent: bool) -> (step: OpenStep)
    ensures
        step == (if absent {
            OpenStep::Create
        } else {
            OpenStep::Fail
        }),
{
    if absent {
        OpenStep::Create
    } else {
        OpenStep::Fail
    }
}

/// The text of a file, where an absent file counts as empty.
pub open spec fn file_text(file: Option<Seq<char>>) -> Seq<char> {
    match file {
        Some(text) => text,
        None => Seq::empty(),
    }
}

/// The file after `record` was appended to it. An absent file is created.
pub open spec fn file_after_start(file: Option<Seq<char>>, record: Seq<char>) -> Option<
    Seq<char>,
> {
    Some(file_text(file) + record)
}

/// Records a start at `now`: gives the stamp of `now` and the record that the caller
/// appends to the file.
pub fn command_start(now: Instant) -> (out: Started)
    ensures
        out.stamp@ == stamp_text(now@),
        single_line(out.stamp@),
        out.record@ == start_record(out.stamp@),
{
    proof {
        reveal_strlit("Start: ");
        reveal_strlit("\n");
    }
    let stamp = now.to_stamp();
    let mut record = String::from_str("Start: ");
    record.append(stamp.as_str());
    record.append("\n");
    assert(record@ =~= start_record(stamp@));
    Started { stamp, record }
}

} // verus!
