use crate::utilities::environment::Environment;
use crate::utilities::logging::{log_level, str_to_log_level, Level};
use crate::utilities::snapshot::Snapshot;
use vstd::prelude::*;

verus! {

/// The word for the level of the log where none is configured.
pub open spec fn default_log_level() -> Seq<char> {
    "info"@
}

/// The format of the log where none is configured.
pub open spec fn default_log_format() -> Seq<char> {
    "compact"@
}

/// The mathematical model of [`LoggingConfiguration`].
pub struct LoggingConfigurationView {
    pub level: Level,
    pub format: Seq<char>,
}

impl LoggingConfigurationView {
    /// The configuration that an environment asks for.
    pub open spec fn from_env(env: Map<Seq<char>, Seq<char>>) -> LoggingConfigurationView {
        LoggingConfigurationView {
            level: log_level(Environment::LogLevel.lookup_or(env, default_log_level())),
            format: Environment::LogFormat.lookup_or(env, default_log_format()),
        }
    }
}

/// How much is logged, and in which format.
#[derive(Debug, PartialEq)]
pub struct LoggingConfiguration {
    pub level: Level,
    pub format: String,
}

impl View for LoggingConfiguration {
    type V = LoggingConfigurationView;

    open spec fn view(&self) -> LoggingConfigurationView {
        LoggingConfigurationView { level: self.level, format: self.format@ }
    }
}

impl Clone for LoggingConfiguration {
    fn clone(&self) -> (result: Self)
        ensures
            result@ == self@,
    {
        LoggingConfiguration { level: self.level, format: self.format.clone() }
    }
}

impl LoggingConfiguration {
    /// Reads the configuration from the environment `env`, with the
    /// defaults for what `env` leaves unset.
    pub fn from_env(env: &Snapshot) -> (result: Self)
        ensures
            result@ == LoggingConfigurationView::from_env(env@),
    {
        let word = Environment::LogLevel.or(env, "info");
        LoggingConfiguration {
            level: str_to_log_level(word.as_str()),
            format: Environment::LogFormat.or(env, "compact"),
        }
    }
}

} // verus!
