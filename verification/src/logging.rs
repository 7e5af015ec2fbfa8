//! Which messages are shown where.

use crate::cli::Args;
use vstd::prelude::*;

verus! {

/// Severity down to which messages are shown.
#[derive(Clone, Copy, Debug, PartialEq, Eq, Structural)]
pub enum Level {
    Info,
    Debug,
    Trace,
}

/// Where messages go: always to the journal, down to `journal`; to the
/// console only where there is one, down to `console`.
#[derive(Clone, Copy, Debug, PartialEq, Eq)]
pub struct LogSetup {
    pub journal: Level,
    pub console: Option<Level>,
}

/// The console level for a verbosity: info without `-v`, debug with one,
/// trace with more.
pub open spec fn console_level(verbose: u8) -> Level {
    if verbose == 0 {
        Level::Info
    } else if verbose == 1 {
        Level::Debug
    } else {
        Level::Trace
    }
}

/// Decides the logging of a run from its arguments and from whether standard
/// output is a terminal.
pub fn init(args: &Args, stdout_is_terminal: bool) -> (setup: LogSetup)
    ensures
        setup.journal == Level::Debug,
        setup.console == (if stdout_is_terminal {
            Some(console_level(args.verbose))
        } else {
            None
        }),
{
    let level = if args.verbose == 0 {
        Level::Info
    } else if args.verbose == 1 {
        Level::Debug
    } else {
        Level::Trace
    };
    LogSetup {
        journal: Level::Debug,
        console: if stdout_is_terminal {
            Some(level)
        } else {
            None
        },
    }
}

} // verus!
