//! The stop command: what it reports, and what becomes of the file.

use vstd::prelude::*;
use crate::elapsed::{elapsed_between, Elapsed};
use crate::instant::{Instant, Moment};
use crate::record::{last_start, last_start_line, stamp_of};
use crate::stamp::stamp_moment;
use crate::text::text_of;
use vstd::utf8::{decode_utf8, valid_utf8};

verus! {

/// Why a stop reports no time.
#[derive(Clone, Copy, Debug, PartialEq, Eq, Structural)]
pub enum StopError {
    /// There is no file: nothing was started.
    MissingFile,
    /// There is a file, but it could not be read, or what it holds is not text.
    Unreadable,
    /// The file holds no start record.
    NoStartRecord,
    /// The stamp of the last start record is not well-formed.
    BadTimestamp,
}

/// What the caller of a stop found where the file should be.
#[derive(Clone, Copy, Debug, PartialEq, Eq)]
pub enum FileRead<'a> {
    /// There is no file.
    Missing,
    /// There is a file, but reading it failed.
    Unreadable,
    /// The bytes of the file.
    Content(&'a [u8]),
}

impl<'a> FileRead<'a> {
    /// Whether the stop has a text to go by, or none for want of a file: the file is
    /// not there, or it was read and its bytes are valid UTF-8.
    pub open spec fn readable(self) -> bool {
        match self {
            FileRead::Missing => true,
            FileRead::Unreadable => false,
            FileRead::Content(bytes) => valid_utf8(bytes@),
        }
    }

    /// The text of the file, or `None` where there is no file.
    pub open spec fn text(self) -> Option<Seq<char>> {
        match self {
            FileRead::Content(bytes) => Some(decode_utf8(bytes@)),
            _ => None,
        }
    }
}

/// What a stop hands to its caller.
#[derive(Debug, PartialEq, Eq)]
pub struct StopOutcome {
    /// The time since the last start, or why there is none to report.
    pub result: Result<Elapsed, StopError>,
    /// The last start record of the file, where it holds one.
    pub start_line: Option<String>,
    /// Whether the caller is to delete the file, once it has printed the report.
    pub delete_file: bool,
}

/// What a stop at `now` reports for a file: the time since the last start record, where
/// the file is there, holds such a record, and the record's stamp is well-formed.
pub open spec fn stop_result(file: Option<Seq<char>>, now: Moment) -> Result<Elapsed, StopError> {
    match file {
        None => Err(StopError::MissingFile),
        Some(text) => match last_start_line(text) {
            None => Err(StopError::NoStartRecord),
            Some(line) => match stamp_moment(stamp_of(line)) {
                None => Err(StopError::BadTimestamp),
                Some(start) => Ok(elapsed_between(now, start)),
            },
        },
    }
}

/// What a stop at `now` reports for what the caller found: a failure where the file could
/// not be read as text, else what `stop_result` gives for the text.
pub open spec fn stop_result_of(file: FileRead, now: Moment) -> Result<Elapsed, StopError> {
    if file.readable() {
        stop_result(file.text(), now)
    } else {
        Err(StopError::Unreadable)
    }
}

/// Whether a stop has the file deleted: where that was asked for and the stop succeeded.
pub open spec fn stop_deletes(file: Option<Seq<char>>, now: Moment, clean: bool) -> bool {
    clean && stop_result(file, now) is Ok
}

/// The file after a stop: gone where the stop has it deleted, else as it was.
pub open spec fn file_after_stop(file: Option<Seq<char>>, now: Moment, clean: bool) -> Option<
    Seq<char>,
> {
    if stop_deletes(file, now, clean) {
        None
    } else {
        file
    }
}

/// The exit status that goes with a result: 0 for a report, 1 for a failure.
pub open spec fn exit_status(result: Result<Elapsed, StopError>) -> int {
    if result is Ok {
        0
    } else {
        1
    }
}

/// The last start record of a file in contracts.
pub open spec fn last_start_of(file: Option<Seq<char>>) -> Option<Seq<char>> {
    match file {
        Some(text) => last_start_line(text),
        None => None,
    }
}

/// A line in contracts.
pub open spec fn line_view(line: Option<String>) -> Option<Seq<char>> {
    match line {
        Some(held) => Some(held@),
        None => None,
    }
}

/// A stop that failed before any start record was found.
fn failed(error: StopError) -> (out: StopOutcome)
    ensures
        out.result == Err::<Elapsed, StopError>(error),
        out.start_line is None,
        !out.delete_file,
{
    StopOutcome { result: Err(error), start_line: None, delete_file: false }
}

/// Stops at `now` against what the caller found where the file should be. With `clean`,
/// a successful stop has the file deleted. A stop that fails never does.
pub fn command_stop(file: FileRead, now: Instant, clean: bool) -> (out: StopOutcome)
    ensures
        out.result == stop_result_of(file, now@),
        line_view(out.start_line) == (if file.readable() {
            last_start_of(file.text())
        } else {
            None
        }),
        out.delete_file == (clean && out.result is Ok),
        file.readable() ==> out.delete_file == stop_deletes(file.text(), now@, clean),
{
    let bytes = match file {
        FileRead::Missing => {
            return failed(StopError::MissingFile);
        },
        FileRead::Unreadable => {
            return failed(StopError::Unreadable);
        },
        FileRead::Content(bytes) => bytes,
    };
    let text = match text_of(bytes) {
        Some(text) => text,
        None => {
            return failed(StopError::Unreadable);
        },
    };
    let found = match last_start(text) {
        Some(found) => found,
        None => {
            return failed(StopError::NoStartRecord);
        },
    };
    match Instant::from_stamp(found.stamp.as_str()) {
        Some(start) => StopOutcome {
            result: Ok(now.elapsed_since(&start)),
            start_line: Some(found.line),
            delete_file: clean,
        },
        None => StopOutcome {
            result: Err(StopError::BadTimestamp),
            start_line: Some(found.line),
            delete_file: false,
        },
    }
}

impl StopOutcome {
    /// The exit status of the stop: 0 where it reports a time, 1 where it failed.
    pub fn exit_code(&self) -> (code: i32)
        ensures
            code == exit_status(self.result),
    {
        match self.result {
            Ok(_) => 0,
            Err(_) => 1,
        }
    }
}

} // verus!
