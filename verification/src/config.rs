//! What one invocation of the program is asked to do.

use vstd::prelude::*;

verus! {

/// How much the program logs.
#[derive(Clone, Copy, Debug, PartialEq, Eq, Structural)]
pub enum Verbosity {
    Info,
    Debug,
}

/// The settings of one invocation: which stage to run, counted from 1, and
/// whether the run is a debug run.
#[derive(Clone, Copy, Debug, PartialEq, Eq, Structural)]
pub struct Config {
    pub stage: u32,
    pub debug: bool,
}

impl Config {
    /// The verbosity a configuration asks for: `Debug` for a debug run,
    /// `Info` otherwise.
    pub open spec fn spec_verbosity(self) -> Verbosity {
        if self.debug {
            Verbosity::Debug
        } else {
            Verbosity::Info
        }
    }

    pub fn new(stage: u32, debug: bool) -> (config: Config)
        ensures
            config == (Config { stage, debug }),
    {
        Config { stage, debug }
    }

    #[verifier::when_used_as_spec(spec_verbosity)]
    pub fn verbosity(self) -> (level: Verbosity)
        ensures
            level == self.spec_verbosity(),
    {
        if self.debug {
            Verbosity::Debug
        } else {
            Verbosity::Info
        }
    }
}

} // verus!
