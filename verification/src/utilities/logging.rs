use crate::utilities::text::same_text;
use vstd::prelude::*;

verus! {

/// How much is logged, from the least to the most.
#[derive(Debug, Clone, Copy, PartialEq, Eq, Structural)]
pub enum Level {
    Error,
    Warn,
    Info,
    Debug,
    Trace,
}

impl Level {
    /// The name of the level, as a filter of the log takes it.
    pub open spec fn name(self) -> Seq<char> {
        match self {
            Level::Error => "ERROR"@,
            Level::Warn => "WARN"@,
            Level::Info => "INFO"@,
            Level::Debug => "DEBUG"@,
            Level::Trace => "TRACE"@,
        }
    }

    /// Whether the level logs less than `Debug` does.
    pub open spec fn is_quiet(self) -> bool {
        self == Level::Error || self == Level::Warn || self == Level::Info
    }

    /// Returns the name of the level.
    pub fn to_string(&self) -> (result: String)
        ensures
            result@ == self.name(),
    {
        match self {
            Level::Error => "ERROR".to_owned(),
            Level::Warn => "WARN".to_owned(),
            Level::Info => "INFO".to_owned(),
            Level::Debug => "DEBUG".to_owned(),
            Level::Trace => "TRACE".to_owned(),
        }
    }
}

/// The level that a word of the configuration stands for: one of `error`,
/// `warn`, `debug` and `trace` for the level of that name, and any other
/// word for `Info`.
pub open spec fn log_level(word: Seq<char>) -> Level {
    if word == "error"@ {
        Level::Error
    } else if word == "warn"@ {
        Level::Warn
    } else if word == "debug"@ {
        Level::Debug
    } else if word == "trace"@ {
        Level::Trace
    } else {
        Level::Info
    }
}

/// Returns the level that a word of the configuration stands for.
pub fn str_to_log_level(level: &str) -> (result: Level)
    ensures
        result == log_level(level@),
{
    if same_text(level, "error") {
        Level::Error
    } else if same_text(level, "warn") {
        Level::Warn
    } else if same_text(level, "debug") {
        Level::Debug
    } else if same_text(level, "trace") {
        Level::Trace
    } else {
        Level::Info
    }
}

/// The filter of the log for a level. A level that logs less than `Debug`
/// is asked of the package, of `lib` and of `server` alone; a level from
/// `Debug` on is asked of everything.
pub open spec fn filter_directive(level: Level, package: Seq<char>) -> Seq<char> {
    if level.is_quiet() {
        package + "="@ + level.name() + ","@ + "lib="@ + level.name() + ","@ + "server="@
            + level.name()
    } else {
        level.name()
    }
}

/// Returns the filter of the log for `level`, where `package` is the name
/// under which the package logs.
pub fn directive(level: Level, package: &str) -> (result: String)
    ensures
        result@ == filter_directive(level, package@),
{
    let name = level.to_string();
    match level {
        Level::Debug => name,
        Level::Trace => name,
        _ => {
            let mut text = package.to_owned();
            text.append("=");
            text.append(name.as_str());
            text.append(",");
            text.append("lib=");
            text.append(name.as_str());
            text.append(",");
            text.append("server=");
            text.append(name.as_str());
            text
        },
    }
}

} // verus!
