//! The tool's configuration, built from the variables of `terraform.tfvars`.

use vstd::prelude::*;
use crate::constants::openstack::{DEFAULT_AUTH_URL, DEFAULT_REGION};
use crate::errors::{ConfigError, TerraformError};

verus! {

/// Relies on std's `PathBuf`: carried through as an opaque value.
#[verifier::external_type_specification]
#[verifier::external_body]
pub struct ExPathBuf(std::path::PathBuf);

#[derive(Debug, Clone)]
pub struct TailscaleConfig {
    pub api_key: String,
    pub tailnet: String,
}

#[derive(Debug, Clone)]
pub struct OpenStackConfig {
    pub auth_url: String,
    pub username: String,
    pub password: String,
    pub project_name: String,
    pub region: String,
    pub cacert_file: Option<String>,
    pub insecure: bool,
}

#[derive(Debug)]
pub struct Config {
    pub terraform_dir: std::path::PathBuf,
    pub terraform_bin: String,
    pub cluster_name: String,
    pub tailscale: Option<TailscaleConfig>,
    pub openstack: Option<OpenStackConfig>,
}

/// The variables of `terraform.tfvars` that the tool reads, each optional.
#[derive(Debug, Clone, Default)]
pub struct TfVars {
    pub cluster_name: Option<String>,
    pub user_name: Option<String>,
    pub user_password: Option<String>,
    pub tenant_name: Option<String>,
    pub openstack_auth_url: Option<String>,
    pub openstack_region: Option<String>,
    pub openstack_cacert_file: Option<String>,
    pub openstack_insecure: Option<bool>,
    pub enable_tailscale: Option<bool>,
    pub tailscale_api_key: Option<String>,
    pub tailscale_tailnet: Option<String>,
}

pub open spec fn text_or(o: Option<String>, default: Seq<char>) -> Seq<char> {
    match o {
        Some(s) => s@,
        None => default,
    }
}

/// Whether the variables enable Tailscale.
pub open spec fn tailscale_on(v: TfVars) -> bool {
    v.enable_tailscale == Some(true)
}

/// Whether the variables hold OpenStack credentials.
pub open spec fn openstack_on(v: TfVars) -> bool {
    v.user_name is Some && v.user_password is Some
}

/// The field that is missing, if any: the Tailscale key and tailnet when
/// Tailscale is on, then the project when OpenStack credentials are there.
pub open spec fn missing_field(v: TfVars) -> Option<Seq<char>> {
    if tailscale_on(v) && v.tailscale_api_key is None {
        Some("tailscale_api_key"@)
    } else if tailscale_on(v) && v.tailscale_tailnet is None {
        Some("tailscale_tailnet"@)
    } else if openstack_on(v) && v.tenant_name is None {
        Some("tenant_name"@)
    } else {
        None
    }
}

fn text_or_default(o: Option<String>, default: &str) -> (r: String)
    ensures
        r@ == text_or(o, default@),
{
    match o {
        Some(s) => s,
        None => default.to_owned(),
    }
}

/// The configuration that the variables give, with the defaults filled in: the
/// cluster name `k3s-multicloud`, the default auth URL and region, and
/// certificate checks off unless the variables turn them on.
pub fn config_from_vars(terraform_dir: std::path::PathBuf, terraform_bin: String, vars: TfVars) -> (r: Result<Config, ConfigError>)
    ensures
        match missing_field(vars) {
            Some(f) => (r matches Err(ConfigError::MissingField(m)) && m@ == f),
            None => (r matches Ok(c) && {
                &&& c.terraform_dir == terraform_dir
                &&& c.terraform_bin == terraform_bin
                &&& c.cluster_name@ == text_or(vars.cluster_name, "k3s-multicloud"@)
                &&& tailscale_on(vars) ==> (c.tailscale matches Some(t) && t.api_key == vars.tailscale_api_key->0
                    && t.tailnet == vars.tailscale_tailnet->0)
                &&& !tailscale_on(vars) ==> c.tailscale is None
                &&& openstack_on(vars) ==> (c.openstack matches Some(o) && {
                    &&& o.auth_url@ == text_or(vars.openstack_auth_url, DEFAULT_AUTH_URL@)
                    &&& o.username == vars.user_name->0
                    &&& o.password == vars.user_password->0
                    &&& o.project_name == vars.tenant_name->0
                    &&& o.region@ == text_or(vars.openstack_region, DEFAULT_REGION@)
                    &&& o.cacert_file == vars.openstack_cacert_file
                    &&& o.insecure == (vars.openstack_insecure != Some(false))
                })
                &&& !openstack_on(vars) ==> c.openstack is None
            }),
        },
{
    let ghost v = vars;
    let tailscale_enabled = match vars.enable_tailscale {
        Some(b) => b,
        None => false,
    };
    let tailscale = if tailscale_enabled {
        let api_key = match vars.tailscale_api_key {
            Some(k) => k,
            None => return Err(ConfigError::MissingField("tailscale_api_key".to_owned())),
        };
        let tailnet = match vars.tailscale_tailnet {
            Some(t) => t,
            None => return Err(ConfigError::MissingField("tailscale_tailnet".to_owned())),
        };
        Some(TailscaleConfig { api_key, tailnet })
    } else {
        None
    };
    let openstack = if vars.user_name.is_some() && vars.user_password.is_some() {
        let project_name = match vars.tenant_name {
            Some(p) => p,
            None => return Err(ConfigError::MissingField("tenant_name".to_owned())),
        };
        let username = match vars.user_name {
            Some(u) => u,
            None => String::new(),
        };
        let password = match vars.user_password {
            Some(p) => p,
            None => String::new(),
        };
        Some(OpenStackConfig {
            auth_url: text_or_default(vars.openstack_auth_url, DEFAULT_AUTH_URL),
            username,
            password,
            project_name,
            region: text_or_default(vars.openstack_region, DEFAULT_REGION),
            cacert_file: vars.openstack_cacert_file,
            insecure: match vars.openstack_insecure {
                Some(b) => b,
                None => true,
            },
        })
    } else {
        None
    };
    let cluster_name = text_or_default(vars.cluster_name, "k3s-multicloud");
    Ok(Config { terraform_dir, terraform_bin, cluster_name, tailscale, openstack })
}

/// The infrastructure binary to run: `tofu` when it is installed, else
/// `terraform`, else an error.
pub fn choose_terraform_binary(tofu_found: bool, terraform_found: bool) -> (r: Result<String, TerraformError>)
    ensures
        tofu_found ==> (r matches Ok(b) && b@ == "tofu"@),
        !tofu_found && terraform_found ==> (r matches Ok(b) && b@ == "terraform"@),
        !tofu_found && !terraform_found ==> r matches Err(TerraformError::BinaryNotFound),
{
    if tofu_found {
        Ok("tofu".to_owned())
    } else if terraform_found {
        Ok("terraform".to_owned())
    } else {
        Err(TerraformError::BinaryNotFound)
    }
}

} // verus!
