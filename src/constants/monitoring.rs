//! Cluster monitoring constants.

use vstd::prelude::*;

verus! {

pub const CHECK_INTERVAL_SECS: u64 = 10;

pub const NODE_READY_TIMEOUT_SECS: u64 = 600;

} // verus!
