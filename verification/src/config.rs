//! The bot's configuration: where the token comes from, and how it logs.

use vstd::prelude::*;
use crate::error::ConfigError;
use crate::text::{eq_ignore_ascii_case, parse_u64_spec};

verus! {

/// Verbosity of the log, from the most to the least verbose.
#[derive(Clone, Copy, Debug, PartialEq, Eq, Structural)]
pub enum LogLevel {
    Trace,
    Debug,
    Info,
    Warn,
    Error,
}

/// The level a string names, as `tracing::Level::from_str` reads it: a
/// number from 1 (error) to 5 (trace), or a level's name in any case.
pub open spec fn level_spec(s: Seq<char>) -> Option<LogLevel> {
    match parse_u64_spec(s) {
        Some(1) => Some(LogLevel::Error),
        Some(2) => Some(LogLevel::Warn),
        Some(3) => Some(LogLevel::Info),
        Some(4) => Some(LogLevel::Debug),
        Some(5) => Some(LogLevel::Trace),
        _ => if eq_ignore_ascii_case(s, "error"@) {
            Some(LogLevel::Error)
        } else if eq_ignore_ascii_case(s, "warn"@) {
            Some(LogLevel::Warn)
        } else if eq_ignore_ascii_case(s, "info"@) {
            Some(LogLevel::Info)
        } else if eq_ignore_ascii_case(s, "debug"@) {
            Some(LogLevel::Debug)
        } else if eq_ignore_ascii_case(s, "trace"@) {
            Some(LogLevel::Trace)
        } else {
            None
        },
    }
}

/// `tracing::Level::from_str`: the level the string names, `None` where
/// it names none. The contract restates the parser of tracing-core, which
/// tries a number from 1 to 5 first and then the five names in any ASCII case.
#[verifier::external_body]
fn tracing_level(s: &str) -> (res: Option<LogLevel>)
    ensures
        res == level_spec(s@),
{
    match <tracing::Level as std::str::FromStr>::from_str(s) {
        Ok(tracing::Level::ERROR) => Some(LogLevel::Error),
        Ok(tracing::Level::WARN) => Some(LogLevel::Warn),
        Ok(tracing::Level::INFO) => Some(LogLevel::Info),
        Ok(tracing::Level::DEBUG) => Some(LogLevel::Debug),
        Ok(_) => Some(LogLevel::Trace),
        Err(_) => None,
    }
}

/// The log level that a configuration value names; `None` when it is not
/// a logging level, which the configuration loader reports.
pub fn level_from_string(s: &str) -> (res: Option<LogLevel>)
    ensures
        res == level_spec(s@),
{
    tracing_level(s)
}

/// The level printed to standard output for the number of `-v` flags:
/// info by default, debug for one, trace for more.
pub open spec fn verbosity_spec(verbose: u8) -> LogLevel {
    if verbose == 0 {
        LogLevel::Info
    } else if verbose == 1 {
        LogLevel::Debug
    } else {
        LogLevel::Trace
    }
}

/// The level printed to standard output for the number of `-v` flags.
pub fn verbosity(verbose: u8) -> (res: LogLevel)
    ensures
        res == verbosity_spec(verbose),
{
    match verbose {
        0 => LogLevel::Info,
        1 => LogLevel::Debug,
        _ => LogLevel::Trace,
    }
}

/// How the bot writes its log files.
pub struct LogConfig {
    /// Where the log files go.
    pub location: Option<String>,
    pub max_files: usize,
    pub level: LogLevel,
}

impl Default for LogConfig {
    /// No location, five files, info level.
    fn default() -> (res: Self)
        ensures
            res.location is None,
            res.max_files == 5,
            res.level == LogLevel::Info,
    {
        LogConfig { location: None, max_files: 5, level: LogLevel::Info }
    }
}

/// The configuration file's contents.
pub struct Config {
    pub token: Option<String>,
    pub token_file: Option<String>,
    pub log: LogConfig,
}

/// Where the bot token is read from.
pub enum TokenSource {
    /// The file at this path holds the token.
    File(String),
    /// The token is written in the configuration itself.
    Inline(String),
}

impl Config {
    /// Where the token is read from: the token file when one is
    /// configured, else the inline token; `ConfigError::Token` when neither is.
    pub fn read_token(&self) -> (res: Result<TokenSource, ConfigError>)
        ensures
            match self.token_file {
                Some(p) => res matches Ok(TokenSource::File(q)) && q@ == p@,
                None => match self.token {
                    Some(t) => res matches Ok(TokenSource::Inline(u)) && u@ == t@,
                    None => res matches Err(ConfigError::Token),
                },
            },
    {
        match &self.token_file {
            Some(p) => Ok(TokenSource::File(p.clone())),
            None => match &self.token {
                Some(t) => Ok(TokenSource::Inline(t.clone())),
                None => Err(ConfigError::Token),
            },
        }
    }
}

/// The advice given with a missing configuration file: fill in the
/// example file when one was generated, else check the path.
pub fn missing_config_suggestion(generated: bool) -> (res: &'static str)
    ensures
        res@ == (if generated {
            "Please fill out the generated config file before running."@
        } else {
            "Please make sure the configuration path is either correct or writable before running."@
        }),
{
    if generated {
        "Please fill out the generated config file before running."
    } else {
        "Please make sure the configuration path is either correct or writable before running."
    }
}

} // verus!
