//! Process configuration. The embedder reads the environment (a `.env`
//! file must never override variables already set) and hands the values
//! over as plain strings.

use vstd::prelude::*;

verus! {

/// Process configuration.
#[derive(Clone, Debug)]
pub struct Config {
    /// The log-filter string, from the environment; `"info"` where unset.
    pub log_level: String,
}

impl Config {
    /// A configuration with the given log filter.
    pub fn new(log_level: String) -> (c: Config)
        ensures
            c.log_level@ == log_level@,
    {
        Config { log_level }
    }
}

} // verus!
