//! Cluster lifecycle library: topology extraction from Terraform outputs,
//! connection strategies, OpenStack orphan-resource reconciliation and the
//! cluster formation monitor.

pub mod config;
pub mod constants;
pub mod destroy;
pub mod domain;
pub mod errors;
pub mod json;
pub mod monitor;
pub mod openstack;
pub mod reconcile;
pub mod tailscale;
pub mod text;
pub mod topology;
pub mod tui;
