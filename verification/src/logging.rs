//! The log of the shell: which messages it keeps, and how a line of it looks.

use vstd::prelude::*;

use crate::calendar::{format_unix_ts, is_time_of, timestamp, Date};
use crate::path::DesktopPath;
use crate::supervisor::text_option;
use crate::text::{chars_of, contains, has_part, lower_chars, lowercase};

verus! {

/// How grave a message is.
#[derive(Clone, Copy, Debug, PartialEq, Eq, Structural)]
pub enum LogLevel {
    Error,
    Warn,
    Info,
    Debug,
    Trace,
}

impl LogLevel {
    /// The place of a level, the gravest first.
    pub open spec fn rank(self) -> nat {
        match self {
            LogLevel::Error => 1,
            LogLevel::Warn => 2,
            LogLevel::Info => 3,
            LogLevel::Debug => 4,
            LogLevel::Trace => 5,
        }
    }

    /// The name of a level, with spaces behind it up to the length of the longest.
    pub open spec fn name(self) -> Seq<char> {
        match self {
            LogLevel::Error => "ERROR"@,
            LogLevel::Warn => "WARN "@,
            LogLevel::Info => "INFO "@,
            LogLevel::Debug => "DEBUG"@,
            LogLevel::Trace => "TRACE"@,
        }
    }
}

/// The level that a value of `RUST_LOG` asks for: the first of these words that it
/// holds, in any case. Without one the log keeps what is as grave as information.
pub open spec fn level_asked(value: Seq<char>) -> LogLevel {
    let asked = lowercase(value);
    if has_part(asked, "trace"@) {
        LogLevel::Trace
    } else if has_part(asked, "debug"@) {
        LogLevel::Debug
    } else if has_part(asked, "warn"@) {
        LogLevel::Warn
    } else if has_part(asked, "error"@) {
        LogLevel::Error
    } else {
        LogLevel::Info
    }
}

/// The level that the value of `RUST_LOG`, where it is set, asks for.
pub open spec fn level_of(value: Option<Seq<char>>) -> LogLevel {
    match value {
        Some(v) => level_asked(v),
        None => LogLevel::Info,
    }
}

/// A line of the log.
pub open spec fn line_of(
    stamp: Seq<char>,
    level: LogLevel,
    target: Seq<char>,
    message: Seq<char>,
) -> Seq<char> {
    "["@ + stamp + " "@ + level.name() + " "@ + target + "] "@ + message + "\n"@
}

fn holds(asked: &Vec<char>, word: &str) -> (b: bool)
    ensures
        b == has_part(asked@, word@),
{
    let part = chars_of(word);
    contains(asked.as_slice(), part.as_slice())
}

/// The least grave level that the log keeps, by the value of `RUST_LOG`. Only the case of
/// ASCII letters is ignored, which is enough: no other character has a letter of the
/// words as its lower case.
pub fn max_log_level(value: &Option<String>) -> (level: LogLevel)
    ensures
        level == level_of(text_option(*value)),
        level == (match *value {
            Some(v) => level_asked(v@),
            None => LogLevel::Info,
        }),
{
    match value {
        None => LogLevel::Info,
        Some(v) => {
            let chars = chars_of(v.as_str());
            let asked = lower_chars(chars.as_slice());
            if holds(&asked, "trace") {
                LogLevel::Trace
            } else if holds(&asked, "debug") {
                LogLevel::Debug
            } else if holds(&asked, "warn") {
                LogLevel::Warn
            } else if holds(&asked, "error") {
                LogLevel::Error
            } else {
                LogLevel::Info
            }
        },
    }
}

fn rank_of(level: LogLevel) -> (rank: u8)
    ensures
        rank == level.rank(),
{
    match level {
        LogLevel::Error => 1,
        LogLevel::Warn => 2,
        LogLevel::Info => 3,
        LogLevel::Debug => 4,
        LogLevel::Trace => 5,
    }
}

/// Whether the log keeps a message.
pub fn enabled(level: LogLevel, max: LogLevel) -> (kept: bool)
    ensures
        kept == (level.rank() <= max.rank()),
{
    rank_of(level) <= rank_of(max)
}

/// A line of the log.
pub fn log_line(secs: u64, level: LogLevel, target: &str, message: &str) -> (line: String)
    ensures
        exists|stamp: Seq<char>|
            #[trigger] is_time_of(stamp, secs as nat) && line@ == line_of(
                stamp,
                level,
                target@,
                message@,
            ),
        exists|date: Date|
            {
                &&& #[trigger] date.exists_in_calendar()
                &&& date.unix_day() == secs / 86_400
                &&& line@ == line_of(
                    timestamp(date, (secs % 86_400) as nat),
                    level,
                    target@,
                    message@,
                )
            },
        exists|date: Date|
            {
                &&& #[trigger] date.exists_in_calendar()
                &&& date.unix_day() == secs / 86_400
                &&& line@ == "["@ + timestamp(date, (secs % 86_400) as nat) + " "@ + level.name()
                    + " "@ + target@ + "] "@ + message@ + "\n"@
            },
{
    let stamp = format_unix_ts(secs);
    let mut line: String = "[".to_owned();
    line.append(stamp.as_str());
    line.append(" ");
    line.append(
        match level {
            LogLevel::Error => "ERROR",
            LogLevel::Warn => "WARN ",
            LogLevel::Info => "INFO ",
            LogLevel::Debug => "DEBUG",
            LogLevel::Trace => "TRACE",
        },
    );
    line.append(" ");
    line.append(target);
    line.append("] ");
    line.append(message);
    line.append("\n");
    line
}

/// The path of the log.
pub fn log_path(app_data: &DesktopPath) -> (p: DesktopPath)
    ensures
        p@ == app_data@.join("kiosk.log"@),
{
    app_data.join("kiosk.log")
}

} // verus!
