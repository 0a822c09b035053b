use vstd::prelude::*;

use crate::arguments::VerboseLevel;

verus! {

/// Severity of a log record.
#[derive(Debug, Clone, Copy, PartialEq, Eq, Structural)]
pub enum LogLevel {
    Error,
    Warn,
    Info,
    Debug,
    Trace,
}

/// Terminal color of a log line prefix.
#[derive(Debug, Clone, Copy, PartialEq, Eq, Structural)]
pub enum PrefixColor {
    Green,
    Blue,
    Yellow,
    Red,
}

/// The colored label written before the message of a log line, as "<label>: <message>".
pub struct LinePrefix {
    pub label: &'static str,
    pub color: PrefixColor,
}

/// Most detailed level of the records that are written.
#[derive(Debug, Clone, Copy, PartialEq, Eq, Structural)]
pub enum LevelFilterKind {
    Info,
    Debug,
    Trace,
}

/// Prefix of a log line of `level`: info lines are written bare; warnings
/// carry the label "DEBUG", in yellow.
pub fn line_prefix(level: LogLevel) -> (res: Option<LinePrefix>)
    ensures
        match level {
            LogLevel::Info => res is None,
            LogLevel::Debug => res matches Some(p) && p.label@ == "DEBUG"@ && p.color
                == PrefixColor::Green,
            LogLevel::Trace => res matches Some(p) && p.label@ == "TRACE"@ && p.color
                == PrefixColor::Blue,
            LogLevel::Warn => res matches Some(p) && p.label@ == "DEBUG"@ && p.color
                == PrefixColor::Yellow,
            LogLevel::Error => res matches Some(p) && p.label@ == "ERROR"@ && p.color
                == PrefixColor::Red,
        },
{
    match level {
        LogLevel::Info => None,
        LogLevel::Debug => Some(LinePrefix { label: "DEBUG", color: PrefixColor::Green }),
        LogLevel::Trace => Some(LinePrefix { label: "TRACE", color: PrefixColor::Blue }),
        LogLevel::Warn => Some(LinePrefix { label: "DEBUG", color: PrefixColor::Yellow }),
        LogLevel::Error => Some(LinePrefix { label: "ERROR", color: PrefixColor::Red }),
    }
}

/// Level filter for the program's own records at a verbose level.
pub fn level_filter(verbose: VerboseLevel) -> (res: LevelFilterKind)
    ensures
        res == match verbose {
            VerboseLevel::Quiet => LevelFilterKind::Info,
            VerboseLevel::Medium => LevelFilterKind::Debug,
            VerboseLevel::Max => LevelFilterKind::Trace,
        },
{
    match verbose {
        VerboseLevel::Quiet => LevelFilterKind::Info,
        VerboseLevel::Medium => LevelFilterKind::Debug,
        VerboseLevel::Max => LevelFilterKind::Trace,
    }
}

/// Module whose records the filter applies to.
pub fn logged_module() -> (res: &'static str)
    ensures
        res@ == "m3u8_downloader"@,
{
    "m3u8_downloader"
}

} // verus!
