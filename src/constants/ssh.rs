//! SSH connection constants.

use vstd::prelude::*;

verus! {

pub const SSH_PORT: u16 = 22;

pub const SSH_USER: &'static str = "ubuntu";

pub const SSH_STRICT_HOST_KEY_CHECKING: &'static str = "StrictHostKeyChecking=no";

} // verus!
