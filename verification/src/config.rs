//! The immutable configuration of a watch session.

use crate::text::{build_command_line, spec_command_line};
use vstd::prelude::*;

verus! {

/// What a watch session runs and how often: the full shell command line and
/// the interval, in seconds, between executions. Immutable for the life of a
/// run; every loop iteration reads it and none writes it.
#[derive(Debug, Clone)]
pub struct WatchConfig {
    /// The command joined with its arguments into one shell-evaluated line.
    pub command_line: String,
    /// Seconds between executions; at least one.
    pub interval: u64,
}

impl WatchConfig {
    /// The configuration invariant: the interval is positive.
    pub open spec fn wf(&self) -> bool {
        self.interval >= 1
    }

    /// Builds the configuration from the validated triple that argument
    /// parsing hands over: the command, its arguments, and the interval.
    pub fn new(command: &str, args: &Vec<String>, interval: u64) -> (cfg: Self)
        requires
            interval >= 1,
        ensures
            cfg.command_line@ == spec_command_line(command@, args.deep_view()),
            cfg.interval == interval,
            cfg.wf(),
    {
        WatchConfig { command_line: build_command_line(command, args), interval }
    }
}

} // verus!
