//! How to reach a cluster node: directly over Tailscale, or through a bastion.

use vstd::prelude::*;
use crate::constants::ssh::{SSH_STRICT_HOST_KEY_CHECKING, SSH_USER};
use crate::domain::cluster::{CloudProvider, ServerInfo};
use crate::errors::{concat3, ImDeployError, Result, SshError};

verus! {

#[derive(Debug, Clone)]
pub enum ConnectionStrategy {
    Tailscale { hostname: String },
    Bastion { bastion_ip: String, target_ip: String },
}

/// The text views of a sequence of strings.
pub open spec fn texts(v: Seq<String>) -> Seq<Seq<char>> {
    v.map_values(|s: String| s@)
}

/// `user@host` for the fixed remote user.
pub open spec fn remote_login(host: Seq<char>) -> Seq<char> {
    "ubuntu"@ + "@"@ + host
}

/// The SSH arguments that reach the node of `s`.
pub open spec fn ssh_args_of(s: ConnectionStrategy) -> Seq<Seq<char>> {
    match s {
        ConnectionStrategy::Tailscale { hostname } => seq![
            "-o"@,
            "StrictHostKeyChecking=no"@,
            remote_login(hostname@),
        ],
        ConnectionStrategy::Bastion { bastion_ip, target_ip } => seq![
            "-J"@,
            remote_login(bastion_ip@),
            "-o"@,
            "StrictHostKeyChecking=no"@,
            remote_login(target_ip@),
        ],
    }
}

fn login_for(host: &str) -> (r: String)
    ensures
        r@ == remote_login(host@),
{
    concat3(SSH_USER, "@", host)
}

impl ConnectionStrategy {
    /// Tailscale whenever the server has a Tailscale hostname, else the bastion
    /// when one is given, else no way to connect.
    pub fn from_server(server: &ServerInfo, bastion_ip: Option<&str>) -> (r: Result<Self>)
        ensures
            match server.tailscale_hostname {
                Some(h) => r matches Ok(ConnectionStrategy::Tailscale { hostname }) && hostname@ == h@,
                None => match bastion_ip {
                    Some(b) => r matches Ok(ConnectionStrategy::Bastion { bastion_ip, target_ip })
                        && bastion_ip@ == b@ && target_ip@ == server.ip@,
                    None => r matches Err(ImDeployError::Ssh(SshError::NoConnectionMethod)),
                },
            },
    {
        if let Some(hostname) = &server.tailscale_hostname {
            Ok(ConnectionStrategy::Tailscale { hostname: hostname.clone() })
        } else if let Some(bastion) = bastion_ip {
            Ok(ConnectionStrategy::Bastion { bastion_ip: bastion.to_owned(), target_ip: server.ip.clone() })
        } else {
            Err(ImDeployError::Ssh(SshError::NoConnectionMethod))
        }
    }

    /// The strategy that the commands use for a node of `provider`: Tailscale when
    /// the provider has it enabled (the node must then carry a hostname), else the
    /// provider's bastion, else no way to connect.
    pub fn for_provider(provider: &CloudProvider, server: &ServerInfo) -> (r: Result<Self>)
        ensures
            provider.tailscale_enabled ==> match server.tailscale_hostname {
                Some(h) => r matches Ok(ConnectionStrategy::Tailscale { hostname }) && hostname@ == h@,
                None => r matches Err(ImDeployError::Ssh(SshError::TailscaleHostnameNotFound(n)))
                    && n@ == server.name@,
            },
            !provider.tailscale_enabled ==> match provider.bastion_ip {
                Some(b) => r matches Ok(ConnectionStrategy::Bastion { bastion_ip, target_ip })
                    && bastion_ip@ == b@ && target_ip@ == server.ip@,
                None => r matches Err(ImDeployError::Ssh(SshError::NoConnectionMethod)),
            },
    {
        if provider.tailscale_enabled {
            match &server.tailscale_hostname {
                Some(hostname) => Ok(ConnectionStrategy::Tailscale { hostname: hostname.clone() }),
                None => Err(ImDeployError::Ssh(SshError::TailscaleHostnameNotFound(server.name.clone()))),
            }
        } else {
            match &provider.bastion_ip {
                Some(bastion) => Ok(ConnectionStrategy::Bastion { bastion_ip: bastion.clone(), target_ip: server.ip.clone() }),
                None => Err(ImDeployError::Ssh(SshError::NoConnectionMethod)),
            }
        }
    }

    pub fn build_ssh_args(&self) -> (r: Vec<String>)
        ensures
            texts(r@) == ssh_args_of(*self),
    {
        let mut args: Vec<String> = Vec::new();
        match self {
            ConnectionStrategy::Tailscale { hostname } => {
                args.push("-o".to_owned());
                args.push(SSH_STRICT_HOST_KEY_CHECKING.to_owned());
                args.push(login_for(hostname));
            },
            ConnectionStrategy::Bastion { bastion_ip, target_ip } => {
                args.push("-J".to_owned());
                args.push(login_for(bastion_ip));
                args.push("-o".to_owned());
                args.push(SSH_STRICT_HOST_KEY_CHECKING.to_owned());
                args.push(login_for(target_ip));
            },
        }
        assert(texts(args@) =~= ssh_args_of(*self));
        args
    }

    /// The SSH arguments followed by one remote command.
    pub fn command_args(&self, command: &str) -> (r: Vec<String>)
        ensures
            texts(r@) == ssh_args_of(*self).push(command@),
    {
        let mut args = self.build_ssh_args();
        args.push(command.to_owned());
        assert(texts(args@) =~= ssh_args_of(*self).push(command@));
        args
    }
}

} // verus!
