//! The command line, as far as the proxy's decisions depend on it.

use crate::device::{clone_opt_text, opt_text};
use vstd::prelude::*;

verus! {

/// The arguments of a run.
#[derive(Debug, PartialEq, Eq)]
pub struct Args {
    /// Name or path of the script to load.
    pub script: Option<String>,
    /// Id of the device to mirror, as `VID:PID` in hexadecimal.
    pub target: Option<String>,
    /// How often `-v` was given.
    pub verbose: u8,
}

impl Clone for Args {
    fn clone(&self) -> (r: Self)
        ensures
            opt_text(r.script) == opt_text(self.script),
            opt_text(r.target) == opt_text(self.target),
            r.verbose == self.verbose,
    {
        Args {
            script: clone_opt_text(&self.script),
            target: clone_opt_text(&self.target),
            verbose: self.verbose,
        }
    }
}

} // verus!
