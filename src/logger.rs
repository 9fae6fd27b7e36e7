//! The verbosity a process logs at, as chosen by its configuration.
use vstd::prelude::*;
use crate::app_config::{AppConfig, KnownConfigs};
use crate::provider::reads_first;

verus! {

/// Log verbosity, from silent to most detailed.
#[derive(Debug, Clone, Copy, PartialEq, Eq, Structural)]
pub enum LogLevel {
    Off,
    Error,
    Warn,
    Info,
    Debug,
    Trace,
}

/// The lower-case form of a text.
pub uninterp spec fn lower_of(s: Seq<char>) -> Seq<char>;

/// Relies on str::to_lowercase: the result depends on the characters alone.
#[verifier::external_body]
fn lowercase(s: &str) -> (r: String)
    ensures
        r@ == lower_of(s@),
{
    s.to_lowercase()
}

/// The level a lower-case level name stands for; unknown names give `Error`.
pub open spec fn level_named(s: Seq<char>) -> LogLevel {
    if s == "error"@ {
        LogLevel::Error
    } else if s == "warn"@ {
        LogLevel::Warn
    } else if s == "info"@ {
        LogLevel::Info
    } else if s == "debug"@ {
        LogLevel::Debug
    } else if s == "trace"@ {
        LogLevel::Trace
    } else if s == "off"@ {
        LogLevel::Off
    } else {
        LogLevel::Error
    }
}

/// The level that the lower-case name `lower` stands for.
pub fn level_from_name(lower: &str) -> (r: LogLevel)
    ensures
        r == level_named(lower@),
{
    let s = lower.to_string();
    if s == "error".to_string() {
        LogLevel::Error
    } else if s == "warn".to_string() {
        LogLevel::Warn
    } else if s == "info".to_string() {
        LogLevel::Info
    } else if s == "debug".to_string() {
        LogLevel::Debug
    } else if s == "trace".to_string() {
        LogLevel::Trace
    } else if s == "off".to_string() {
        LogLevel::Off
    } else {
        LogLevel::Error
    }
}

/// The level that the level name `name` stands for, in any letter case.
pub fn level_for(name: &str) -> (r: LogLevel)
    ensures
        r == level_named(lower_of(name@)),
{
    let lower = lowercase(name);
    level_from_name(lower.as_str())
}

/// The level configured under the log-level key; `Off` where none is set.
pub fn load_level(config: &AppConfig) -> (r: LogLevel)
    ensures
        exists|s: Option<String>|
            {
                &&& reads_first(config.provider.sources(), KnownConfigs::LogLevel.name(), s)
                &&& r == match s {
                    Some(t) => level_named(lower_of(t@)),
                    None => LogLevel::Off,
                }
            },
{
    match config.get::<String>(KnownConfigs::LogLevel) {
        Some(level) => level_for(level.as_str()),
        None => LogLevel::Off,
    }
}

} // verus!
