//! Flow-wide option flags.

use vstd::prelude::*;

verus! {

/// Options that steer reporting during a flow run.
#[derive(Debug, Copy, Clone, PartialEq, Eq, Structural, Hash)]
pub struct Context {
    pub verbose: bool,
    pub debug: bool,
    pub force: bool,
    /// Whether to suppress printing net locations on the critical path.
    pub disable_critical_path_source_print: bool,
    /// Whether detailed per-net timing is stored and reported.
    pub detailed_timing_report: bool,
}

impl Context {
    /// All options off.
    pub fn new() -> (r: Self)
        ensures
            r == (Context {
                verbose: false,
                debug: false,
                force: false,
                disable_critical_path_source_print: false,
                detailed_timing_report: false,
            }),
    {
        Self {
            verbose: false,
            debug: false,
            force: false,
            disable_critical_path_source_print: false,
            detailed_timing_report: false,
        }
    }
}

} // verus!
