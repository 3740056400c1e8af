//! Severity levels of events and spans.

use std::str::FromStr;
use vstd::prelude::*;

verus! {

/// Severity of an event or a span. `Error` is the most severe and the least
/// verbose, `Trace` the least severe and the most verbose.
#[derive(Clone, Copy, Debug, PartialEq, Eq, Structural)]
pub enum Level {
    Error,
    Warn,
    Info,
    Debug,
    Trace,
}

/// What `tracing::Level::from_str` makes of a text.
pub uninterp spec fn parsed_level(text: Seq<char>) -> Option<Level>;

/// The level whose lower-case name the text is, if it is one.
pub open spec fn named_level(text: Seq<char>) -> Option<Level> {
    if text == "error"@ {
        Some(Level::Error)
    } else if text == "warn"@ {
        Some(Level::Warn)
    } else if text == "info"@ {
        Some(Level::Info)
    } else if text == "debug"@ {
        Some(Level::Debug)
    } else if text == "trace"@ {
        Some(Level::Trace)
    } else {
        None
    }
}

/// Calls `tracing::Level::from_str`, the parser of `tracing`'s levels. Its
/// result depends on the text alone and is named `parsed_level`. The parser
/// accepts the numbers 1 to 5 and the five level names in any case; of this
/// the contract states only that each lower-case name gives its level.
#[verifier::external_body]
pub(crate) fn level_from_text(text: &str) -> (level: Option<Level>)
    ensures
        level == parsed_level(text@),
        named_level(text@) is Some ==> level == named_level(text@),
{
    match tracing::Level::from_str(text) {
        Ok(tracing::Level::ERROR) => Some(Level::Error),
        Ok(tracing::Level::WARN) => Some(Level::Warn),
        Ok(tracing::Level::INFO) => Some(Level::Info),
        Ok(tracing::Level::DEBUG) => Some(Level::Debug),
        Ok(tracing::Level::TRACE) => Some(Level::Trace),
        Err(_) => None,
    }
}

impl Level {
    /// Position of the level from the least verbose (1) to the most
    /// verbose (5).
    pub open spec fn verbosity(self) -> int {
        match self {
            Level::Error => 1,
            Level::Warn => 2,
            Level::Info => 3,
            Level::Debug => 4,
            Level::Trace => 5,
        }
    }

    /// Whether `self` is at most as verbose as `other`.
    pub open spec fn at_most(self, other: Level) -> bool {
        self.verbosity() <= other.verbosity()
    }

    /// Whether the level is `Warn` or more severe.
    pub open spec fn is_warning(self) -> bool {
        self.at_most(Level::Warn)
    }

    fn rank(self) -> (r: u8)
        ensures
            r == self.verbosity(),
    {
        match self {
            Level::Error => 1,
            Level::Warn => 2,
            Level::Info => 3,
            Level::Debug => 4,
            Level::Trace => 5,
        }
    }

    /// Whether `self` is at most as verbose as `other`.
    pub fn le(self, other: Level) -> (yes: bool)
        ensures
            yes == self.at_most(other),
    {
        self.rank() <= other.rank()
    }

    /// The lower-case name of the level.
    pub open spec fn name(self) -> Seq<char> {
        match self {
            Level::Error => "error"@,
            Level::Warn => "warn"@,
            Level::Info => "info"@,
            Level::Debug => "debug"@,
            Level::Trace => "trace"@,
        }
    }

    /// The lower-case name of the level, the status under which an event of
    /// this level is logged.
    pub fn status(self) -> (text: &'static str)
        ensures
            text@ == self.name(),
    {
        match self {
            Level::Error => "error",
            Level::Warn => "warn",
            Level::Info => "info",
            Level::Debug => "debug",
            Level::Trace => "trace",
        }
    }
}

/// Each level is named by its own name, and by no other level's.
pub proof fn names_are_levels(level: Level)
    ensures
        named_level(level.name()) == Some(level),
{
    reveal_strlit("error");
    reveal_strlit("warn");
    reveal_strlit("info");
    reveal_strlit("debug");
    reveal_strlit("trace");
    assert("error"@.len() == 5 && "warn"@.len() == 4 && "info"@.len() == 4 && "debug"@.len() == 5
        && "trace"@.len() == 5);
    assert("warn"@[0] != "info"@[0]);
    assert("error"@[0] != "debug"@[0]);
    assert("error"@[0] != "trace"@[0]);
    assert("debug"@[0] != "trace"@[0]);
}

} // verus!
