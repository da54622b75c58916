//! The choices that the agent's command line offers for logging.

use crate::text::str_eq;
use vstd::prelude::*;
use vstd::string::*;

verus! {

/// How much is logged, from nothing to everything.
#[derive(Debug, Clone, Copy, PartialEq, Eq, Structural)]
pub enum Level {
    Off,
    Error,
    Warn,
    Info,
    Debug,
    Trace,
}

/// A log verbosity level.
#[derive(Debug, Clone, Copy, PartialEq, Eq, Structural)]
pub struct Verbosity(pub Level);

/// A standard stream to log to.
#[derive(Debug, Clone, Copy, PartialEq, Eq, Structural)]
pub enum Std {
    Out,
    Error,
    Mix,
}

/// The level that a verbosity choice names.
pub open spec fn level_of(choice: Seq<char>) -> Option<Level> {
    if choice == "quiet"@ {
        Some(Level::Off)
    } else if choice == "error"@ {
        Some(Level::Error)
    } else if choice == "warn"@ {
        Some(Level::Warn)
    } else if choice == "info"@ {
        Some(Level::Info)
    } else if choice == "debug"@ {
        Some(Level::Debug)
    } else if choice == "trace"@ {
        Some(Level::Trace)
    } else {
        None
    }
}

/// The stream that a choice names.
pub open spec fn std_of(choice: Seq<char>) -> Option<Std> {
    if choice == "out"@ {
        Some(Std::Out)
    } else if choice == "err"@ {
        Some(Std::Error)
    } else if choice == "mix"@ {
        Some(Std::Mix)
    } else {
        None
    }
}

impl Verbosity {
    /// Reads a verbosity choice: one of `quiet`, `error`, `warn`, `info`,
    /// `debug` and `trace`.
    pub fn from_str(string: &str) -> (parsed: Result<Verbosity, String>)
        ensures
            level_of(string@) matches Some(level) ==> parsed == Ok::<Verbosity, String>(
                Verbosity(level),
            ),
            level_of(string@) is None ==> (parsed matches Err(message) && message@
                == "invalid verbosity choice '"@ + string@ + "'"@),
    {
        if str_eq(string, "quiet") {
            Ok(Verbosity(Level::Off))
        } else if str_eq(string, "error") {
            Ok(Verbosity(Level::Error))
        } else if str_eq(string, "warn") {
            Ok(Verbosity(Level::Warn))
        } else if str_eq(string, "info") {
            Ok(Verbosity(Level::Info))
        } else if str_eq(string, "debug") {
            Ok(Verbosity(Level::Debug))
        } else if str_eq(string, "trace") {
            Ok(Verbosity(Level::Trace))
        } else {
            let mut message = "invalid verbosity choice '".to_owned();
            message.append(string);
            message.append("'");
            Err(message)
        }
    }
}

impl Std {
    /// Reads a stream choice: one of `out`, `err` and `mix`.
    pub fn from_str(string: &str) -> (parsed: Result<Std, String>)
        ensures
            std_of(string@) matches Some(std) ==> parsed == Ok::<Std, String>(std),
            std_of(string@) is None ==> (parsed matches Err(message) && message@
                == "invalid std choice '"@ + string@ + "'"@),
    {
        if str_eq(string, "out") {
            Ok(Std::Out)
        } else if str_eq(string, "err") {
            Ok(Std::Error)
        } else if str_eq(string, "mix") {
            Ok(Std::Mix)
        } else {
            let mut message = "invalid std choice '".to_owned();
            message.append(string);
            message.append("'");
            Err(message)
        }
    }
}

impl std::str::FromStr for Verbosity {
    type Err = String;

    /// Reads a verbosity choice as `Verbosity::from_str` does.
    fn from_str(string: &str) -> (parsed: Result<Verbosity, String>)
        ensures
            level_of(string@) matches Some(level) ==> parsed == Ok::<Verbosity, String>(
                Verbosity(level),
            ),
            level_of(string@) is None ==> (parsed matches Err(message) && message@
                == "invalid verbosity choice '"@ + string@ + "'"@),
    {
        Verbosity::from_str(string)
    }
}

impl std::str::FromStr for Std {
    type Err = String;

    /// Reads a stream choice as `Std::from_str` does.
    fn from_str(string: &str) -> (parsed: Result<Std, String>)
        ensures
            std_of(string@) matches Some(std) ==> parsed == Ok::<Std, String>(std),
            std_of(string@) is None ==> (parsed matches Err(message) && message@
                == "invalid std choice '"@ + string@ + "'"@),
    {
        Std::from_str(string)
    }
}

} // verus!
