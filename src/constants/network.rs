//! Network timeouts and retry settings.

use vstd::prelude::*;

verus! {

pub const HTTP_TIMEOUT_SECS: u64 = 30;

pub const RETRY_MAX_ATTEMPTS: u32 = 3;

pub const RETRY_INITIAL_DELAY_MS: u64 = 1000;

pub const RETRY_MAX_DELAY_MS: u64 = 30000;

/// Factor by which each retry delay grows over the previous one.
pub const RETRY_MULTIPLIER: u64 = 2;

} // verus!
