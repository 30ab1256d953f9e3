//! Terraform constants.

use vstd::prelude::*;

verus! {

pub const STATE_DIR: &'static str = ".terraform";

pub const TFVARS_FILE: &'static str = "terraform.tfvars";

pub const MAIN_TF_FILE: &'static str = "main.tf";

} // verus!
