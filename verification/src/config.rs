//! Timer configuration for the consensus core.

use vstd::prelude::*;

verus! {

/// Timing parameters, both in milliseconds: `request_time` delays the
/// proposer's block assembly after a new height starts, and `block_period`
/// is the base round timeout (scaled exponentially on round changes).
pub struct Config {
    pub request_time: u64,
    pub block_period: u64,
}

impl Config {
    pub fn new(request_time: u64, block_period: u64) -> (c: Config)
        ensures
            c.request_time == request_time,
            c.block_period == block_period,
    {
        Config { request_time, block_period }
    }
}

impl Clone for Config {
    fn clone(&self) -> (c: Self)
        ensures
            c == *self,
    {
        Config { request_time: self.request_time, block_period: self.block_period }
    }
}

} // verus!
