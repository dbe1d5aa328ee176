//! The lines the kernel logger writes to the first serial port: a coloured
//! level tag, then where the record comes from, then its message.
use vstd::prelude::*;

verus! {

/// Severity of a log record, from the most to the least severe.
#[derive(Debug, Clone, Copy, PartialEq, Eq, Structural)]
pub enum LogLevel {
    Error,
    Warn,
    Info,
    Debug,
    Trace,
}

/// The level name in its terminal colour: bold red, yellow, blue, green and
/// white, reset after the name.
pub open spec fn level_tag_text(level: LogLevel) -> Seq<char> {
    match level {
        LogLevel::Error => "\x1b[1;31mERROR\x1b[0m"@,
        LogLevel::Warn => "\x1b[1;33mWARN\x1b[0m"@,
        LogLevel::Info => "\x1b[1;34mINFO\x1b[0m"@,
        LogLevel::Debug => "\x1b[1;32mDEBUG\x1b[0m"@,
        LogLevel::Trace => "\x1b[1;37mTRACE\x1b[0m"@,
    }
}

/// The line written for a record: `[`, the level tag, `] `, the target, a
/// space, the source file (`<unknown>` when the record names none), `: `,
/// the message and a line feed.
pub open spec fn record_line(
    level: LogLevel,
    target: Seq<char>,
    file: Option<Seq<char>>,
    message: Seq<char>,
) -> Seq<char> {
    "["@ + level_tag_text(level) + "] "@ + target + " "@ + match file {
        Some(f) => f,
        None => "<unknown>"@,
    } + ": "@ + message + "\n"@
}

/// Each level's tag is its name in its colour: bold red ERROR, yellow
/// WARN, blue INFO, green DEBUG and white TRACE, then a colour reset.
pub proof fn lemma_level_tags()
    ensures
        level_tag_text(LogLevel::Error) == "\x1b[1;31mERROR\x1b[0m"@,
        level_tag_text(LogLevel::Warn) == "\x1b[1;33mWARN\x1b[0m"@,
        level_tag_text(LogLevel::Info) == "\x1b[1;34mINFO\x1b[0m"@,
        level_tag_text(LogLevel::Debug) == "\x1b[1;32mDEBUG\x1b[0m"@,
        level_tag_text(LogLevel::Trace) == "\x1b[1;37mTRACE\x1b[0m"@,
{
}

/// The line for a record starts with `[` and the tag of the record's own
/// level, in that level's colour: red ERROR, yellow WARN, blue INFO, green
/// DEBUG, white TRACE; then `] `, the target, a space, the file (or
/// `<unknown>`), `: `, the message and a line feed.
pub proof fn lemma_record_line_tags(t: Seq<char>, f: Option<Seq<char>>, m: Seq<char>)
    ensures
        ({
            let rest = "] "@ + t + " "@ + match f {
                Some(x) => x,
                None => "<unknown>"@,
            } + ": "@ + m + "\n"@;
            &&& record_line(LogLevel::Error, t, f, m) == "["@ + "\x1b[1;31mERROR\x1b[0m"@ + rest
            &&& record_line(LogLevel::Warn, t, f, m) == "["@ + "\x1b[1;33mWARN\x1b[0m"@ + rest
            &&& record_line(LogLevel::Info, t, f, m) == "["@ + "\x1b[1;34mINFO\x1b[0m"@ + rest
            &&& record_line(LogLevel::Debug, t, f, m) == "["@ + "\x1b[1;32mDEBUG\x1b[0m"@ + rest
            &&& record_line(LogLevel::Trace, t, f, m) == "["@ + "\x1b[1;37mTRACE\x1b[0m"@ + rest
        }),
{
    let rest = "] "@ + t + " "@ + match f {
        Some(x) => x,
        None => "<unknown>"@,
    } + ": "@ + m + "\n"@;
    let file = match f {
        Some(x) => x,
        None => "<unknown>"@,
    };
    assert forall|tag: Seq<char>|
        #![trigger "["@ + tag]
        "["@ + tag + "] "@ + t + " "@ + file + ": "@ + m + "\n"@ == "["@ + tag + rest by {
        assert("["@ + tag + "] "@ + t + " "@ + file + ": "@ + m + "\n"@ =~= "["@ + tag + rest);
    }
}

/// Every record is written.
pub fn enabled(level: LogLevel) -> (r: bool)
    ensures
        r,
{
    true
}

/// The coloured tag of a level (see `level_tag_text`).
pub fn level_tag(level: LogLevel) -> (r: &'static str)
    ensures
        r@ == level_tag_text(level),
{
    match level {
        LogLevel::Error => "\x1b[1;31mERROR\x1b[0m",
        LogLevel::Warn => "\x1b[1;33mWARN\x1b[0m",
        LogLevel::Info => "\x1b[1;34mINFO\x1b[0m",
        LogLevel::Debug => "\x1b[1;32mDEBUG\x1b[0m",
        LogLevel::Trace => "\x1b[1;37mTRACE\x1b[0m",
    }
}

/// The line written for a record (see `record_line`).
pub fn format_record(level: LogLevel, target: &str, file: Option<&str>, message: &str) -> (r:
    String)
    ensures
        r@ == record_line(
            level,
            target@,
            match file {
                Some(f) => Some(f@),
                None => None,
            },
            message@,
        ),
{
    let mut line = String::new();
    line.append("[");
    line.append(level_tag(level));
    line.append("] ");
    line.append(target);
    line.append(" ");
    match file {
        Some(f) => line.append(f),
        None => line.append("<unknown>"),
    }
    line.append(": ");
    line.append(message);
    line.append("\n");
    line
}

} // verus!
