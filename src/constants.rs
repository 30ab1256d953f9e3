//! Fixed values shared by the commands: SSH, network, OpenStack, Kubernetes,
//! monitoring and Terraform.

pub mod kubernetes;
pub mod monitoring;
pub mod network;
pub mod openstack;
pub mod ssh;
pub mod terraform;
