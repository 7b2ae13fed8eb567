//! How log records are written.

use vstd::prelude::*;
use vstd::string::StringExecFns;

verus! {

/// How severe a log record is.
#[derive(Clone, Copy, Debug, PartialEq, Eq, Structural)]
pub enum Level {
    Error,
    Warn,
    Info,
    Debug,
    Trace,
}

/// The name of a level, right-aligned in a column of five characters.
pub open spec fn level_name(level: Level) -> Seq<char> {
    match level {
        Level::Error => "ERROR"@,
        Level::Warn => " WARN"@,
        Level::Info => " INFO"@,
        Level::Debug => "DEBUG"@,
        Level::Trace => "TRACE"@,
    }
}

/// Returns the name of a level, right-aligned.
pub fn format_level(level: Level) -> (name: &'static str)
    ensures
        name@ == level_name(level),
{
    match level {
        Level::Error => "ERROR",
        Level::Warn => " WARN",
        Level::Info => " INFO",
        Level::Debug => "DEBUG",
        Level::Trace => "TRACE",
    }
}

/// Returns the line for a log record.
pub fn log_line(time: &str, level: Level, message: &str) -> (line: String)
    ensures
        line@ == "["@ + time@ + "] "@ + level_name(level) + ": "@ + message@,
{
    let mut line = "[".to_owned();
    line.append(time);
    line.append("] ");
    line.append(format_level(level));
    line.append(": ");
    line.append(message);
    line
}

/// All level names have the same width, so that messages are aligned.
pub proof fn law_level_names_are_aligned(level: Level)
    ensures
        level_name(level).len() == 5,
{
    reveal_strlit("ERROR");
    reveal_strlit(" WARN");
    reveal_strlit(" INFO");
    reveal_strlit("DEBUG");
    reveal_strlit("TRACE");
}

/// A record's line has the time in brackets, a blank, the name of the level in the next
/// five characters, a colon, a blank and then the message.
pub proof fn law_line_holds_time_level_and_message(
    time: &str,
    level: Level,
    message: &str,
    line: String,
)
    requires
        call_ensures(log_line, (time, level, message), line),
    ensures
        ({
            let t = time@.len() as int;
            &&& line@.len() == t + message@.len() + 10
            &&& line@[0] == '['
            &&& line@.subrange(1, t + 1) == time@
            &&& line@[t + 1] == ']' && line@[t + 2] == ' '
            &&& line@.subrange(t + 3, t + 8) == level_name(level)
            &&& line@[t + 8] == ':' && line@[t + 9] == ' '
            &&& line@.skip(t + 10) == message@
        }),
{
    reveal_strlit("[");
    reveal_strlit("] ");
    reveal_strlit(": ");
    law_level_names_are_aligned(level);
    let t = time@.len() as int;
    assert(line@.subrange(1, t + 1) == time@);
    assert(line@.subrange(t + 3, t + 8) == level_name(level));
    assert(line@.skip(t + 10) == message@);
}

/// Each level has its own name.
pub proof fn law_level_names_tell_levels_apart(a: Level, b: Level)
    requires
        level_name(a) == level_name(b),
    ensures
        a == b,
{
    reveal_strlit("ERROR");
    reveal_strlit(" WARN");
    reveal_strlit(" INFO");
    reveal_strlit("DEBUG");
    reveal_strlit("TRACE");
    assert("ERROR"@[0] == 'E' && " WARN"@[1] == 'W' && " INFO"@[1] == 'I' && "DEBUG"@[0] == 'D'
        && "TRACE"@[0] == 'T');
    assert(level_name(a)[0] == level_name(b)[0] && level_name(a)[1] == level_name(b)[1]);
}

} // verus!
