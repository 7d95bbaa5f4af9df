//! Which command an invocation asks for, and which file it works on.

use vstd::prelude::*;

verus! {

/// What an invocation is to do.
#[derive(Clone, Copy, Debug, PartialEq, Eq, Structural)]
pub enum Command {
    /// Record a start.
    Start,
    /// Report the time since the last start.
    Stop,
    /// Neither was asked for: report the mistake and exit with `USAGE_STATUS`.
    Usage,
}

/// The exit status of an invocation that asks for neither a start nor a stop.
pub const USAGE_STATUS: i32 = 1;

/// The command that the two flags ask for. Where both are set, the stop is carried out.
pub open spec fn chosen_command(start: bool, stop: bool) -> Command {
    if stop {
        Command::Stop
    } else if start {
        Command::Start
    } else {
        Command::Usage
    }
}

/// The name that the file has in the temporary directory where none is asked for.
pub open spec fn default_file_name() -> Seq<char> {
    seq!['r', 't', 'i', 'm', 'e']
}

/// The command that the two flags ask for.
pub fn select_command(start: bool, stop: bool) -> (command: Command)
    ensures
        command == chosen_command(start, stop),
{
    if stop {
        Command::Stop
    } else if start {
        Command::Start
    } else {
        Command::Usage
    }
}

/// The name of the file in the temporary directory: the one asked for, else `rtime`.
pub fn file_name(requested: Option<String>) -> (name: String)
    ensures
        name@ == match requested {
            Some(asked) => asked@,
            None => default_file_name(),
        },
{
    match requested {
        Some(asked) => asked,
        None => {
            proof {
                reveal_strlit("rtime");
            }
            let name = String::from_str("rtime");
            assert(name@ =~= default_file_name());
            name
        },
    }
}

} // verus!
