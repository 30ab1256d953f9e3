//! Cluster topology, connection strategies and service descriptions.

pub mod cluster;
pub mod connection;
pub mod services;
