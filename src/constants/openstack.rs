//! OpenStack API constants.

use vstd::prelude::*;

verus! {

pub const DEFAULT_AUTH_URL: &'static str = "https://private-cloud.informatik.hs-fulda.de:5000/v3";

pub const DEFAULT_REGION: &'static str = "RegionOne";

pub const DEFAULT_DOMAIN: &'static str = "Default";

pub const LOADBALANCER_DELETION_TIMEOUT_SECS: u64 = 120;

pub const LOADBALANCER_POLL_INTERVAL_SECS: u64 = 5;

} // verus!
