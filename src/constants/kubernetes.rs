//! Kubernetes API endpoint constants.

use vstd::prelude::*;

verus! {

pub const API_SERVER_PORT: u16 = 6443;

} // verus!
