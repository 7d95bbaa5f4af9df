//! The lines of the timestamp file, and the start records among them.
//!
//! The file is text, one record to a line. A line ends at a line feed or at the end of
//! the text; a carriage return right before the line feed belongs to the line ending.
//! A start record is a line that begins with `Start: `; what follows is its stamp.

use vstd::prelude::*;

verus! {

/// The number of characters of the prefix.
pub const PREFIX_LEN: usize = 7;

/// The text that every start record begins with.
pub open spec fn start_prefix() -> Seq<char> {
    seq!['S', 't', 'a', 'r', 't', ':', ' ']
}

/// What one start appends to the file: the prefix, the stamp, and a line feed.
pub open spec fn start_record(stamp: Seq<char>) -> Seq<char> {
    start_prefix() + stamp + seq!['\n']
}

/// Whether `text` fits on one line: it holds no line feed and no carriage return.
pub open spec fn single_line(text: Seq<char>) -> bool {
    forall|i: int| 0 <= i < text.len() ==> text[i] != '\n' && text[i] != '\r'
}

/// Whether a line of `text` begins at `at`: at the start of the text and after each
/// line feed, as long as anything follows.
pub open spec fn line_begins(text: Seq<char>, at: int) -> bool {
    0 <= at < text.len() && (at == 0 || text[at - 1] == '\n')
}

/// The position of the first line feed at or after `from`, or the length of `text`
/// where there is none.
pub open spec fn line_end(text: Seq<char>, from: int) -> int
    decreases text.len() - from,
{
    if from >= text.len() || text[from] == '\n' {
        from
    } else {
        line_end(text, from + 1)
    }
}

/// Where the content of the line that begins at `from` stops: at its line feed, or one
/// before it where a carriage return stands there.
pub open spec fn line_stop(text: Seq<char>, from: int) -> int {
    let end = line_end(text, from);
    if from < end < text.len() && text[end - 1] == '\r' {
        end - 1
    } else {
        end
    }
}

/// The line that begins at `from`, without its line ending.
pub open spec fn line_at(text: Seq<char>, from: int) -> Seq<char> {
    text.subrange(from, line_stop(text, from))
}

/// Whether `line` is a start record.
pub open spec fn is_start_record(line: Seq<char>) -> bool {
    start_prefix().is_prefix_of(line)
}

/// The stamp of a start record: the line without the prefix.
pub open spec fn stamp_of(line: Seq<char>) -> Seq<char> {
    line.skip(PREFIX_LEN as int)
}

/// Whether a start record begins at `at`.
pub open spec fn record_begins(text: Seq<char>, at: int) -> bool {
    line_begins(text, at) && is_start_record(line_at(text, at))
}

/// The greatest position below `bound` at which a start record begins.
pub open spec fn last_record_below(text: Seq<char>, bound: int) -> Option<int>
    decreases bound,
{
    if bound <= 0 {
        None
    } else if record_begins(text, bound - 1) {
        Some(bound - 1)
    } else {
        last_record_below(text, bound - 1)
    }
}

/// The last start record of `text`, where it holds one.
pub open spec fn last_start_line(text: Seq<char>) -> Option<Seq<char>> {
    match last_record_below(text, text.len() as int) {
        Some(at) => Some(line_at(text, at)),
        None => None,
    }
}

/// A start record as it was found in a file.
#[derive(Debug, PartialEq, Eq)]
pub struct FoundStart {
    /// The whole line, without its line ending.
    pub line: String,
    /// The stamp: the line without the prefix.
    pub stamp: String,
}

/// The characters of `text`, in order.
fn chars_of(text: &str) -> (chars: Vec<char>)
    ensures
        chars@ == text@,
{
    let mut chars: Vec<char> = Vec::new();
    for c in it: text.chars()
        invariant
            it.seq() == text@,
            chars@ == text@.take(it.index() as int),
    {
        chars.push(c);
    }
    chars
}

/// Whether the prefix stands in `chars` at `at`.
fn prefix_at(chars: &Vec<char>, at: usize) -> (found: bool)
    requires
        at <= chars.len(),
    ensures
        found == (at + PREFIX_LEN <= chars.len() && chars@.subrange(
            at as int,
            at + PREFIX_LEN,
        ) == start_prefix()),
{
    if chars.len() - at < PREFIX_LEN {
        return false;
    }
    let found = chars[at] == 'S' && chars[at + 1] == 't' && chars[at + 2] == 'a' && chars[at + 3]
        == 'r' && chars[at + 4] == 't' && chars[at + 5] == ':' && chars[at + 6] == ' ';
    proof {
        let shown = chars@.subrange(at as int, at + PREFIX_LEN);
        if found {
            assert(shown =~= start_prefix());
        } else {
            assert(shown[0] == chars[at as int] && shown[1] == chars[at + 1] && shown[2]
                == chars[at + 2] && shown[3] == chars[at + 3] && shown[4] == chars[at + 4]
                && shown[5] == chars[at + 5] && shown[6] == chars[at + 6]);
        }
    }
    found
}

/// Where the content of the line that begins at `from` stops.
fn find_line_stop(chars: &Vec<char>, from: usize) -> (stop: usize)
    requires
        from <= chars.len(),
    ensures
        stop == line_stop(chars@, from as int),
        from <= stop <= chars.len(),
{
    let mut end: usize = from;
    while end < chars.len() && chars[end] != '\n'
        invariant
            from <= end <= chars.len(),
            forall|i: int| from <= i < end ==> chars@[i] != '\n',
        decreases chars.len() - end,
    {
        end += 1;
    }
    proof {
        lemma_line_end_is(chars@, from as int, end as int);
    }
    if from < end && end < chars.len() && chars[end - 1] == '\r' {
        end - 1
    } else {
        end
    }
}

/// Where the last start record of `chars` begins and where its content stops.
fn find_last_start(chars: &Vec<char>) -> (found: Option<(usize, usize)>)
    ensures
        match found {
            Some((from, stop)) => {
                &&& last_record_below(chars@, chars@.len() as int) == Some(from as int)
                &&& stop == line_stop(chars@, from as int)
                &&& from + PREFIX_LEN <= stop <= chars.len()
            },
            None => last_record_below(chars@, chars@.len() as int) is None,
        },
{
    let mut bound: usize = chars.len();
    while bound > 0
        invariant
            bound <= chars.len(),
            last_record_below(chars@, chars@.len() as int) == last_record_below(
                chars@,
                bound as int,
            ),
        decreases bound,
    {
        let at: usize = bound - 1;
        proof {
            lemma_record_by_prefix(chars@, at as int);
        }
        if (at == 0 || chars[at - 1] == '\n') && prefix_at(chars, at) {
            let stop = find_line_stop(chars, at);
            return Some((at, stop));
        }
        bound = at;
    }
    None
}

/// The last start record of `text`: of all the lines that begin with `Start: `, the one
/// nearest the end.
pub fn last_start(text: &str) -> (found: Option<FoundStart>)
    ensures
        match found {
            Some(start) => last_start_line(text@) == Some(start.line@) && start.stamp@
                == stamp_of(start.line@),
            None => last_start_line(text@) is None,
        },
        found is Some <==> exists|at: int| record_begins(text@, at),
{
    proof {
        lemma_last_record(text@, text@.len() as int);
    }
    let chars = chars_of(text);
    match find_last_start(&chars) {
        Some((from, stop)) => {
            let line = text.substring_char(from, stop);
            let stamp = text.substring_char(from + PREFIX_LEN, stop);
            assert(stamp@ =~= stamp_of(line@));
            Some(FoundStart { line: String::from_str(line), stamp: String::from_str(stamp) })
        },
        None => None,
    }
}

/// `line_end` stays in the text, passes no line feed, and stops at one or at the end.
pub proof fn lemma_line_end(text: Seq<char>, from: int)
    requires
        0 <= from <= text.len(),
    ensures
        from <= line_end(text, from) <= text.len(),
        forall|i: int| from <= i < line_end(text, from) ==> text[i] != '\n',
        line_end(text, from) < text.len() ==> text[line_end(text, from)] == '\n',
    decreases text.len() - from,
{
    if from < text.len() && text[from] != '\n' {
        lemma_line_end(text, from + 1);
    }
}

/// A position that no line feed comes before, and where the line feed or the end of the
/// text stands, is the line's end.
pub proof fn lemma_line_end_is(text: Seq<char>, from: int, end: int)
    requires
        0 <= from <= end <= text.len(),
        forall|i: int| from <= i < end ==> text[i] != '\n',
        end < text.len() ==> text[end] == '\n',
    ensures
        line_end(text, from) == end,
    decreases end - from,
{
    if from < end {
        lemma_line_end_is(text, from + 1, end);
    }
}

/// A line is a start record exactly where the text itself shows the prefix at the
/// line's beginning: the line ending never cuts into it.
pub proof fn lemma_record_by_prefix(text: Seq<char>, at: int)
    requires
        0 <= at <= text.len(),
    ensures
        is_start_record(line_at(text, at)) <==> (at + PREFIX_LEN <= text.len() && text.subrange(
            at,
            at + PREFIX_LEN,
        ) == start_prefix()),
        is_start_record(line_at(text, at)) ==> at + PREFIX_LEN <= line_stop(text, at),
{
    lemma_line_end(text, at);
    let prefix = start_prefix();
    let line = line_at(text, at);
    let shown = text.subrange(at, at + PREFIX_LEN);
    if at + PREFIX_LEN <= text.len() && shown == prefix {
        assert forall|i: int| 0 <= i < PREFIX_LEN implies text[at + i] == #[trigger] prefix[i] by {
            assert(shown[i] == text[at + i]);
        }
        // No character of the prefix ends a line, and its last one is no carriage return.
        let end = line_end(text, at);
        if end < at + PREFIX_LEN {
            assert(text[end] == prefix[end - at]);
        }
        if end == at + PREFIX_LEN {
            assert(text[end - 1] == prefix[PREFIX_LEN - 1]);
        }
        assert(at + PREFIX_LEN <= line_stop(text, at));
        assert(prefix =~= line.subrange(0, PREFIX_LEN as int));
    }
    if is_start_record(line) {
        assert(line.subrange(0, PREFIX_LEN as int) == prefix);
        assert(shown =~= line.subrange(0, PREFIX_LEN as int));
    }
}

/// What `last_record_below` finds is the last start record below the bound.
pub proof fn lemma_last_record(text: Seq<char>, bound: int)
    ensures
        match last_record_below(text, bound) {
            Some(at) => 0 <= at < bound && record_begins(text, at) && forall|later: int|
                at < later < bound ==> !record_begins(text, later),
            None => forall|at: int| 0 <= at < bound ==> !record_begins(text, at),
        },
    decreases bound,
{
    if bound > 0 && !record_begins(text, bound - 1) {
        lemma_last_record(text, bound - 1);
    }
}

/// A start record below the bound that none follows is the one `last_record_below` finds.
pub proof fn lemma_last_record_is(text: Seq<char>, bound: int, at: int)
    requires
        0 <= at < bound,
        record_begins(text, at),
        forall|later: int| at < later < bound ==> !record_begins(text, later),
    ensures
        last_record_below(text, bound) == Some(at),
    decreases bound,
{
    if bound - 1 > at {
        lemma_last_record_is(text, bound - 1, at);
    }
}

} // verus!
