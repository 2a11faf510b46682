//! The logger's identity and level: what the logging backend is set up with.
use crate::text::{chars_of, same_text, str_lowercase, to_lowercase};
use vstd::prelude::*;

verus! {

/// Minimum level of the messages that are emitted.
#[derive(Debug, PartialEq, Eq, Structural, Clone, Copy)]
pub enum LogLevel {
    Debug,
    Info,
    Warn,
    Error,
}

/// The level that a lowercased level name selects: `debug`, `info`, `warn`
/// or `error`; any other name selects `Info`.
pub open spec fn level_for(lower: Seq<char>) -> LogLevel {
    if lower == "debug"@ {
        LogLevel::Debug
    } else if lower == "info"@ {
        LogLevel::Info
    } else if lower == "warn"@ {
        LogLevel::Warn
    } else if lower == "error"@ {
        LogLevel::Error
    } else {
        LogLevel::Info
    }
}

/// The application logger: a fixed identifier prefixed to every message.
pub struct Logger {
    /// Prefix prepended to every log message (e.g. the application name).
    ident: String,
}

impl View for Logger {
    type V = Seq<char>;

    closed spec fn view(&self) -> Seq<char> {
        self.ident@
    }
}

impl Logger {
    /// A logger with the identifier `ident`.
    pub fn new(ident: &str) -> (l: Self)
        ensures
            l@ == ident@,
    {
        Logger { ident: String::from_str(ident) }
    }

    /// The identifier prefixed to every message.
    pub fn ident(&self) -> (s: &str)
        ensures
            s@ == self@,
    {
        self.ident.as_str()
    }

    /// The line emitted for `msg`: `"<ident>: <msg>"`.
    pub fn format_message(&self, msg: &str) -> (s: String)
        ensures
            s@ == self@ + ": "@ + msg@,
    {
        let mut s = self.ident.clone();
        s.append(": ");
        s.append(msg);
        s
    }

    /// Converts a log level string to a [`LogLevel`], ignoring case.
    ///
    /// | Input string | Returned level |
    /// |--------------|----------------|
    /// | `"debug"`    | `Debug`        |
    /// | `"info"`     | `Info`         |
    /// | `"warn"`     | `Warn`         |
    /// | `"error"`    | `Error`        |
    /// | *(other)*    | `Info`         |
    pub fn string_to_level(level: &str) -> (l: LogLevel)
        ensures
            l == level_for(str_lowercase(level@)),
    {
        let lower = to_lowercase(level);
        Logger::level_from_lowercase(lower.as_str())
    }

    /// The level that an already lowercased level name selects.
    pub fn level_from_lowercase(lower: &str) -> (l: LogLevel)
        ensures
            l == level_for(lower@),
    {
        let s = chars_of(lower);
        if same_text(&s, &chars_of("debug")) {
            LogLevel::Debug
        } else if same_text(&s, &chars_of("info")) {
            LogLevel::Info
        } else if same_text(&s, &chars_of("warn")) {
            LogLevel::Warn
        } else if same_text(&s, &chars_of("error")) {
            LogLevel::Error
        } else {
            LogLevel::Info
        }
    }
}

} // verus!
