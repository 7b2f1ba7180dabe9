//! Severity levels: a total order, a display form and a strict parser.

use vstd::prelude::*;
use vstd::string::*;
use std::cmp::Ordering;
use vstd::std_specs::cmp::PartialOrdSpecImpl;
use crate::text::{ascii_lowered, eq_ignoring_ascii_case};

verus! {

/// Severity of a record, in increasing order of importance.
#[derive(Clone, Copy, Debug, PartialEq, Eq, Structural)]
pub enum LogLevel {
    Debug,
    Info,
    Warn,
    Error,
}

/// Why a payload, or a text in it, could not be read.
#[derive(Clone, Copy, Debug, PartialEq, Eq, Structural)]
pub enum ParseError {
    /// A text that should name a level is none of the four level names.
    UnknownLevel,
    /// A field that every payload must give is absent.
    MissingField,
}

impl LogLevel {
    /// Position of the level in the order `Debug < Info < Warn < Error`.
    pub open spec fn rank(self) -> nat {
        match self {
            LogLevel::Debug => 0,
            LogLevel::Info => 1,
            LogLevel::Warn => 2,
            LogLevel::Error => 3,
        }
    }

    /// The display form: the upper-case name.
    pub open spec fn name(self) -> Seq<char> {
        match self {
            LogLevel::Debug => "DEBUG"@,
            LogLevel::Info => "INFO"@,
            LogLevel::Warn => "WARN"@,
            LogLevel::Error => "ERROR"@,
        }
    }

    /// The rank as a machine integer.
    pub fn severity(self) -> (r: u8)
        ensures
            r == self.rank(),
    {
        match self {
            LogLevel::Debug => 0,
            LogLevel::Info => 1,
            LogLevel::Warn => 2,
            LogLevel::Error => 3,
        }
    }

    /// The display form as a static string.
    pub fn as_str(self) -> (r: &'static str)
        ensures
            r@ == self.name(),
    {
        match self {
            LogLevel::Debug => "DEBUG",
            LogLevel::Info => "INFO",
            LogLevel::Warn => "WARN",
            LogLevel::Error => "ERROR",
        }
    }

    /// The display form as an owned string.
    pub fn to_string(&self) -> (r: String)
        ensures
            r@ == self.name(),
    {
        String::from_str(self.as_str())
    }
}

impl PartialOrd for LogLevel {
    fn partial_cmp(&self, other: &LogLevel) -> (r: Option<Ordering>) {
        let a = self.severity();
        let b = other.severity();
        if a < b {
            Some(Ordering::Less)
        } else if a == b {
            Some(Ordering::Equal)
        } else {
            Some(Ordering::Greater)
        }
    }
}

impl PartialOrdSpecImpl for LogLevel {
    open spec fn obeys_partial_cmp_spec() -> bool {
        true
    }

    open spec fn partial_cmp_spec(&self, other: &LogLevel) -> Option<Ordering> {
        if self.rank() < other.rank() {
            Some(Ordering::Less)
        } else if self.rank() == other.rank() {
            Some(Ordering::Equal)
        } else {
            Some(Ordering::Greater)
        }
    }
}

/// The level that a text names, letters compared without regard to ASCII
/// case; `None` for any text outside the four names.
pub open spec fn parse_level(text: Seq<char>) -> Option<LogLevel> {
    let lowered = ascii_lowered(text);
    if lowered == "debug"@ {
        Some(LogLevel::Debug)
    } else if lowered == "info"@ {
        Some(LogLevel::Info)
    } else if lowered == "warn"@ {
        Some(LogLevel::Warn)
    } else if lowered == "error"@ {
        Some(LogLevel::Error)
    } else {
        None
    }
}

/// The display form of a level reads back as that level.
pub proof fn lemma_display_form_parses_back(level: LogLevel)
    ensures
        parse_level(level.name()) == Some(level),
{
    reveal_strlit("DEBUG");
    reveal_strlit("INFO");
    reveal_strlit("WARN");
    reveal_strlit("ERROR");
    reveal_strlit("debug");
    reveal_strlit("info");
    reveal_strlit("warn");
    reveal_strlit("error");
    let lowered = ascii_lowered(level.name());
    match level {
        LogLevel::Debug => {
            assert(lowered =~= "debug"@);
        },
        LogLevel::Info => {
            assert(lowered =~= "info"@);
        },
        LogLevel::Warn => {
            assert(lowered =~= "warn"@);
            assert("warn"@[0] != "info"@[0]);
        },
        LogLevel::Error => {
            assert(lowered =~= "error"@);
            assert("error"@[0] != "debug"@[0]);
        },
    }
}

impl LogLevel {
    /// Reads a level from its name. Unknown text is an error, never a
    /// silent default.
    pub fn from_str(s: &str) -> (r: Result<LogLevel, ParseError>)
        ensures
            r == match parse_level(s@) {
                Some(level) => Ok::<LogLevel, ParseError>(level),
                None => Err(ParseError::UnknownLevel),
            },
    {
        if eq_ignoring_ascii_case(s, "debug") {
            Ok(LogLevel::Debug)
        } else if eq_ignoring_ascii_case(s, "info") {
            Ok(LogLevel::Info)
        } else if eq_ignoring_ascii_case(s, "warn") {
            Ok(LogLevel::Warn)
        } else if eq_ignoring_ascii_case(s, "error") {
            Ok(LogLevel::Error)
        } else {
            Err(ParseError::UnknownLevel)
        }
    }
}

} // verus!
