//! Logging configuration and the decisions behind initializing the console
//! sink: which level the configured text denotes, and what the sink should
//! be set up with. The sink itself lives with the transport around the
//! library.

use vstd::prelude::*;

use crate::strutil::{eq_ignore_case, str_eq_ignore_case};

verus! {

/// The console output format.
#[derive(Debug, Clone, Copy, PartialEq, Eq, Structural)]
pub enum LogFormat {
    Pretty,
    Compact,
    Json,
}

/// A log severity level.
#[derive(Debug, Clone, Copy, PartialEq, Eq, Structural)]
pub enum LogLevel {
    Trace,
    Debug,
    Info,
    Warn,
    Error,
}

/// Console sink settings.
#[derive(Debug)]
pub struct ConsoleConfig {
    pub enabled: bool,
    pub colors: bool,
}

/// The logging section of the configuration.
#[derive(Debug)]
pub struct LoggingConfig {
    pub level: String,
    pub format: LogFormat,
    pub console: ConsoleConfig,
}

impl Default for ConsoleConfig {
    fn default() -> (res: Self)
        ensures
            res.enabled == false,
            res.colors == false,
    {
        ConsoleConfig { enabled: false, colors: false }
    }
}

impl Default for LogFormat {
    fn default() -> (res: Self)
        ensures
            res == LogFormat::Pretty,
    {
        LogFormat::Pretty
    }
}

impl Default for LoggingConfig {
    fn default() -> (res: Self)
        ensures
            res.level@ =~= "info"@,
            res.format == LogFormat::Pretty,
            res.console.enabled == false,
            res.console.colors == false,
    {
        LoggingConfig {
            level: default_level(),
            format: default_format(),
            console: ConsoleConfig::default(),
        }
    }
}

/// The log level when none is configured.
pub fn default_level() -> (res: String)
    ensures
        res@ =~= "info"@,
{
    String::from_str("info")
}

/// The console format when none is configured.
pub fn default_format() -> (res: LogFormat)
    ensures
        res == LogFormat::Pretty,
{
    LogFormat::Pretty
}

/// Console output is on when nothing is configured for it.
pub fn default_enabled() -> (res: bool)
    ensures
        res == true,
{
    true
}

/// Console colors are on when nothing is configured for them.
pub fn default_colors() -> (res: bool)
    ensures
        res == true,
{
    true
}

/// Whether the level text names a known level, compared without regard to
/// ASCII case.
pub open spec fn spec_level_known(s: Seq<char>) -> bool {
    ||| eq_ignore_case(s, "trace"@)
    ||| eq_ignore_case(s, "debug"@)
    ||| eq_ignore_case(s, "info"@)
    ||| eq_ignore_case(s, "warn"@)
    ||| eq_ignore_case(s, "warning"@)
    ||| eq_ignore_case(s, "error"@)
}

/// The level a level text denotes; an unknown text falls back to `Info`.
pub open spec fn spec_parse_level(s: Seq<char>) -> LogLevel {
    if eq_ignore_case(s, "trace"@) {
        LogLevel::Trace
    } else if eq_ignore_case(s, "debug"@) {
        LogLevel::Debug
    } else if eq_ignore_case(s, "info"@) {
        LogLevel::Info
    } else if eq_ignore_case(s, "warn"@) || eq_ignore_case(s, "warning"@) {
        LogLevel::Warn
    } else if eq_ignore_case(s, "error"@) {
        LogLevel::Error
    } else {
        LogLevel::Info
    }
}

/// Parses a configured level text, falling back to `Info` for a text that
/// names no known level.
pub fn parse_log_level(level: &str) -> (res: LogLevel)
    ensures
        res == spec_parse_level(level@),
{
    if str_eq_ignore_case(level, "trace") {
        LogLevel::Trace
    } else if str_eq_ignore_case(level, "debug") {
        LogLevel::Debug
    } else if str_eq_ignore_case(level, "info") {
        LogLevel::Info
    } else if str_eq_ignore_case(level, "warn") || str_eq_ignore_case(level, "warning") {
        LogLevel::Warn
    } else if str_eq_ignore_case(level, "error") {
        LogLevel::Error
    } else {
        LogLevel::Info
    }
}

/// Whether the level text names a known level. A sink may warn before
/// falling back to `Info`.
pub fn level_is_known(level: &str) -> (res: bool)
    ensures
        res == spec_level_known(level@),
{
    str_eq_ignore_case(level, "trace") || str_eq_ignore_case(level, "debug")
        || str_eq_ignore_case(level, "info") || str_eq_ignore_case(level, "warn")
        || str_eq_ignore_case(level, "warning") || str_eq_ignore_case(level, "error")
}

/// What the console sink is to be initialized with.
#[derive(Debug)]
pub struct ConsolePlan {
    /// The filter directive for the sink.
    pub level: String,
    pub format: LogFormat,
    /// Whether the sink writes ANSI colors; the JSON format never does.
    pub colors: bool,
}

/// Decides how logging is initialized: `None` when the console sink is
/// disabled; otherwise the configured level and format, with colors as
/// configured except that the JSON format forces them off.
pub fn init_logging(logging_config: &LoggingConfig) -> (res: Option<ConsolePlan>)
    ensures
        (res is Some) == logging_config.console.enabled,
        res matches Some(p) ==> {
            &&& p.level@ == logging_config.level@
            &&& p.format == logging_config.format
            &&& p.colors == (logging_config.console.colors && logging_config.format
                != LogFormat::Json)
        },
{
    if logging_config.console.enabled {
        let colors = match logging_config.format {
            LogFormat::Json => false,
            _ => logging_config.console.colors,
        };
        Some(
            ConsolePlan {
                level: logging_config.level.clone(),
                format: logging_config.format,
                colors,
            },
        )
    } else {
        None
    }
}

} // verus!
