//! Error taxonomy of the library, each with its operator-facing message.

use vstd::prelude::*;

verus! {

/// Relies on std's `io::Error`: carried through as an opaque value.
#[verifier::external_type_specification]
#[verifier::external_body]
pub struct ExIoError(std::io::Error);

/// Relies on anyhow's `Error`: carried through as an opaque value.
#[verifier::external_type_specification]
#[verifier::external_body]
pub struct ExAnyhowError(anyhow::Error);

/// Decimal text of an integer, with a leading `-` when it is negative.
pub open spec fn decimal_text(n: int) -> Seq<char>
    decreases (if n < 0 { -n + 1 } else { n }),
{
    if n < 0 {
        seq!['-'] + decimal_text(-n)
    } else if n < 10 {
        seq![(('0' as int) + n) as char]
    } else {
        decimal_text(n / 10) + seq![(('0' as int) + n % 10) as char]
    }
}

/// The one-character text of a decimal digit.
fn digit_text(d: u64) -> (r: &'static str)
    requires
        d < 10,
    ensures
        r@ == seq![(('0' as int) + d) as char],
{
    proof {
        reveal_strlit("0");
        reveal_strlit("1");
        reveal_strlit("2");
        reveal_strlit("3");
        reveal_strlit("4");
        reveal_strlit("5");
        reveal_strlit("6");
        reveal_strlit("7");
        reveal_strlit("8");
        reveal_strlit("9");
    }
    match d {
        0 => "0",
        1 => "1",
        2 => "2",
        3 => "3",
        4 => "4",
        5 => "5",
        6 => "6",
        7 => "7",
        8 => "8",
        _ => "9",
    }
}

/// Decimal digits of `n`.
pub fn u64_text(n: u64) -> (r: String)
    ensures
        r@ == decimal_text(n as int),
    decreases n,
{
    if n < 10 {
        digit_text(n).to_owned()
    } else {
        let mut s = u64_text(n / 10);
        s.append(digit_text(n % 10));
        s
    }
}

/// Decimal text of `n`, with a leading `-` when it is negative.
pub fn i32_text(n: i32) -> (r: String)
    ensures
        r@ == decimal_text(n as int),
{
    if n < 0 {
        let m = u64_text((-(n as i64)) as u64);
        proof {
            reveal_strlit("-");
        }
        concat2("-", &m)
    } else {
        u64_text(n as u64)
    }
}

/// `a` followed by `b`, as a new string.
pub fn concat2(a: &str, b: &str) -> (r: String)
    ensures
        r@ == a@ + b@,
{
    let s = a.to_owned();
    s.concat(b)
}

/// `a`, `b` and `c` one after another, as a new string.
pub fn concat3(a: &str, b: &str, c: &str) -> (r: String)
    ensures
        r@ == a@ + b@ + c@,
{
    let s = concat2(a, b);
    s.concat(c)
}

#[derive(Debug)]
pub enum TerraformError {
    InitFailed(String),
    CommandFailed { command: String, code: Option<i32> },
    OutputParseFailed(String),
    DirectoryNotFound(String),
    BinaryNotFound,
    ResourceNotFound { resource: String },
    /// The outputs describe no cloud provider: the cluster is not deployed.
    NoCloudProviders,
    /// The outputs give no node to monitor.
    NoNodes,
}

pub open spec fn terraform_error_text(e: TerraformError) -> Seq<char> {
    match e {
        TerraformError::InitFailed(s) => "Terraform initialization failed: "@ + s@,
        TerraformError::CommandFailed { command, code } => "Terraform command failed: "@ + command@
            + match code {
            Some(c) => " (exit code: "@ + decimal_text(c as int) + ")"@,
            None => Seq::<char>::empty(),
        },
        TerraformError::OutputParseFailed(s) => "Failed to parse terraform outputs: "@ + s@,
        TerraformError::DirectoryNotFound(d) => "Terraform directory not found: "@ + d@,
        TerraformError::BinaryNotFound => "Terraform binary not found. Install terraform or tofu"@,
        TerraformError::ResourceNotFound { resource } => "Failed to extract "@ + resource@
            + " from terraform outputs"@,
        TerraformError::NoCloudProviders =>
            "No cloud providers found in terraform outputs. Has the cluster been deployed?"@,
        TerraformError::NoNodes =>
            "No nodes found in Terraform outputs. Check all_server_ips and all_agent_ips."@,
    }
}

impl TerraformError {
    pub fn message(&self) -> (r: String)
        ensures
            r@ == terraform_error_text(*self),
    {
        match self {
            TerraformError::InitFailed(s) => concat2("Terraform initialization failed: ", s),
            TerraformError::CommandFailed { command, code } => {
                let head = concat2("Terraform command failed: ", command);
                match code {
                    Some(c) => {
                        let digits = i32_text(*c);
                        let tail = concat3(" (exit code: ", &digits, ")");
                        head.concat(&tail)
                    },
                    None => {
                        assert(head@ + Seq::<char>::empty() =~= head@);
                        head
                    },
                }
            },
            TerraformError::OutputParseFailed(s) => concat2("Failed to parse terraform outputs: ", s),
            TerraformError::DirectoryNotFound(d) => concat2("Terraform directory not found: ", d),
            TerraformError::BinaryNotFound => "Terraform binary not found. Install terraform or tofu".to_owned(),
            TerraformError::ResourceNotFound { resource } => concat3(
                "Failed to extract ",
                resource,
                " from terraform outputs",
            ),
            TerraformError::NoCloudProviders =>
                "No cloud providers found in terraform outputs. Has the cluster been deployed?".to_owned(),
            TerraformError::NoNodes =>
                "No nodes found in Terraform outputs. Check all_server_ips and all_agent_ips.".to_owned(),
        }
    }
}

#[derive(Debug)]
pub enum OpenStackError {
    AuthFailed(String),
    ListFailed { resource: String, message: String },
    DeleteFailed { resource: String, id: String, message: String },
    HttpError(String),
    CleanupTimeout { resource: String },
}

pub open spec fn openstack_error_text(e: OpenStackError) -> Seq<char> {
    match e {
        OpenStackError::AuthFailed(s) => "Authentication failed: "@ + s@,
        OpenStackError::ListFailed { resource, message } => "Failed to list "@ + resource@ + ": "@
            + message@,
        OpenStackError::DeleteFailed { resource, id, message } => "Failed to delete "@ + resource@
            + " "@ + id@ + ": "@ + message@,
        OpenStackError::HttpError(s) => "HTTP request failed: "@ + s@,
        OpenStackError::CleanupTimeout { resource } => "Resource cleanup timeout: "@ + resource@,
    }
}

impl OpenStackError {
    pub fn message(&self) -> (r: String)
        ensures
            r@ == openstack_error_text(*self),
    {
        match self {
            OpenStackError::AuthFailed(s) => concat2("Authentication failed: ", s),
            OpenStackError::ListFailed { resource, message } => {
                let head = concat3("Failed to list ", resource, ": ");
                head.concat(message)
            },
            OpenStackError::DeleteFailed { resource, id, message } => {
                let head = concat3("Failed to delete ", resource, " ");
                let tail = concat3(id, ": ", message);
                let r = head.concat(&tail);
                assert(r@ =~= "Failed to delete "@ + resource@ + " "@ + id@ + ": "@ + message@);
                r
            },
            OpenStackError::HttpError(s) => concat2("HTTP request failed: ", s),
            OpenStackError::CleanupTimeout { resource } => concat2("Resource cleanup timeout: ", resource),
        }
    }
}

#[derive(Debug)]
pub enum TailscaleError {
    ApiError(String),
    CliNotInstalled,
    NotRunning(String),
    WrongAccount { expected: String, actual: String },
    AccountSwitchFailed,
    ParseError(String),
}

pub open spec fn tailscale_error_text(e: TailscaleError) -> Seq<char> {
    match e {
        TailscaleError::ApiError(s) => "Tailscale API request failed: "@ + s@,
        TailscaleError::CliNotInstalled => "Tailscale CLI not installed"@,
        TailscaleError::NotRunning(s) => "Tailscale is not running (state: "@ + s@ + ")"@,
        TailscaleError::WrongAccount { expected, actual } =>
            "Connected to wrong Tailscale account. Expected: "@ + expected@ + ", got: "@ + actual@,
        TailscaleError::AccountSwitchFailed => "Failed to switch Tailscale account"@,
        TailscaleError::ParseError(s) => "Failed to parse Tailscale response: "@ + s@,
    }
}

impl TailscaleError {
    pub fn message(&self) -> (r: String)
        ensures
            r@ == tailscale_error_text(*self),
    {
        match self {
            TailscaleError::ApiError(s) => concat2("Tailscale API request failed: ", s),
            TailscaleError::CliNotInstalled => "Tailscale CLI not installed".to_owned(),
            TailscaleError::NotRunning(s) => concat3("Tailscale is not running (state: ", s, ")"),
            TailscaleError::WrongAccount { expected, actual } => {
                let head = concat3(
                    "Connected to wrong Tailscale account. Expected: ",
                    expected,
                    ", got: ",
                );
                head.concat(actual)
            },
            TailscaleError::AccountSwitchFailed => "Failed to switch Tailscale account".to_owned(),
            TailscaleError::ParseError(s) => concat2("Failed to parse Tailscale response: ", s),
        }
    }
}

#[derive(Debug)]
pub enum SshError {
    ConnectionFailed(String),
    CommandFailed { command: String },
    NoConnectionMethod,
    TailscaleHostnameNotFound(String),
}

pub open spec fn ssh_error_text(e: SshError) -> Seq<char> {
    match e {
        SshError::ConnectionFailed(s) => "SSH connection failed: "@ + s@,
        SshError::CommandFailed { command } => "SSH command execution failed: "@ + command@,
        SshError::NoConnectionMethod => "Neither Tailscale nor bastion host available for connection"@,
        SshError::TailscaleHostnameNotFound(s) => "Tailscale hostname not found for server "@ + s@,
    }
}

impl SshError {
    pub fn message(&self) -> (r: String)
        ensures
            r@ == ssh_error_text(*self),
    {
        match self {
            SshError::ConnectionFailed(s) => concat2("SSH connection failed: ", s),
            SshError::CommandFailed { command } => concat2("SSH command execution failed: ", command),
            SshError::NoConnectionMethod => "Neither Tailscale nor bastion host available for connection".to_owned(),
            SshError::TailscaleHostnameNotFound(s) => concat2("Tailscale hostname not found for server ", s),
        }
    }
}

#[derive(Debug)]
pub enum ConfigError {
    TerraformDirNotFound,
    TfVarsParseFailed(String),
    MissingField(String),
    InvalidValue { field: String, reason: String },
}

pub open spec fn config_error_text(e: ConfigError) -> Seq<char> {
    match e {
        ConfigError::TerraformDirNotFound =>
            "Terraform directory not found. Run from project root or im-deploy directory"@,
        ConfigError::TfVarsParseFailed(s) => "Failed to parse terraform.tfvars: "@ + s@,
        ConfigError::MissingField(s) => "Missing required configuration field: "@ + s@,
        ConfigError::InvalidValue { field, reason } => "Invalid configuration value for "@ + field@
            + ": "@ + reason@,
    }
}

impl ConfigError {
    pub fn message(&self) -> (r: String)
        ensures
            r@ == config_error_text(*self),
    {
        match self {
            ConfigError::TerraformDirNotFound => "Terraform directory not found. Run from project root or im-deploy directory".to_owned(),
            ConfigError::TfVarsParseFailed(s) => concat2("Failed to parse terraform.tfvars: ", s),
            ConfigError::MissingField(s) => concat2("Missing required configuration field: ", s),
            ConfigError::InvalidValue { field, reason } => {
                let head = concat3("Invalid configuration value for ", field, ": ");
                head.concat(reason)
            },
        }
    }
}

#[derive(Debug)]
pub enum ImDeployError {
    Terraform(TerraformError),
    OpenStack(OpenStackError),
    Tailscale(TailscaleError),
    Ssh(SshError),
    Config(ConfigError),
    Io(std::io::Error),
    Other(anyhow::Error),
}

impl ImDeployError {
    pub fn message(&self) -> (r: String)
        ensures
            match *self {
                ImDeployError::Terraform(e) => r@ == "Terraform error: "@ + terraform_error_text(e),
                ImDeployError::OpenStack(e) => r@ == "OpenStack error: "@ + openstack_error_text(e),
                ImDeployError::Tailscale(e) => r@ == "Tailscale error: "@ + tailscale_error_text(e),
                ImDeployError::Ssh(e) => r@ == "SSH error: "@ + ssh_error_text(e),
                ImDeployError::Config(e) => r@ == "Configuration error: "@ + config_error_text(e),
                ImDeployError::Io(_) => r@.len() >= 10 && r@.subrange(0, 10) == "IO error: "@,
                ImDeployError::Other(_) => true,
            },
    {
        match self {
            ImDeployError::Terraform(e) => {
                let m = e.message();
                concat2("Terraform error: ", &m)
            },
            ImDeployError::OpenStack(e) => {
                let m = e.message();
                concat2("OpenStack error: ", &m)
            },
            ImDeployError::Tailscale(e) => {
                let m = e.message();
                concat2("Tailscale error: ", &m)
            },
            ImDeployError::Ssh(e) => {
                let m = e.message();
                concat2("SSH error: ", &m)
            },
            ImDeployError::Config(e) => {
                let m = e.message();
                concat2("Configuration error: ", &m)
            },
            ImDeployError::Io(e) => {
                let m = e.to_string();
                let r = concat2("IO error: ", &m);
                proof {
                    reveal_strlit("IO error: ");
                    assert(r@.subrange(0, 10) =~= "IO error: "@);
                }
                r
            },
            ImDeployError::Other(e) => e.to_string(),
        }
    }
}

impl From<TerraformError> for ImDeployError {
    fn from(e: TerraformError) -> Self {
        ImDeployError::Terraform(e)
    }
}

impl vstd::std_specs::convert::FromSpecImpl<TerraformError> for ImDeployError {
    open spec fn obeys_from_spec() -> bool {
        true
    }

    open spec fn from_spec(e: TerraformError) -> Self {
        ImDeployError::Terraform(e)
    }
}

impl From<OpenStackError> for ImDeployError {
    fn from(e: OpenStackError) -> Self {
        ImDeployError::OpenStack(e)
    }
}

impl vstd::std_specs::convert::FromSpecImpl<OpenStackError> for ImDeployError {
    open spec fn obeys_from_spec() -> bool {
        true
    }

    open spec fn from_spec(e: OpenStackError) -> Self {
        ImDeployError::OpenStack(e)
    }
}

impl From<TailscaleError> for ImDeployError {
    fn from(e: TailscaleError) -> Self {
        ImDeployError::Tailscale(e)
    }
}

impl vstd::std_specs::convert::FromSpecImpl<TailscaleError> for ImDeployError {
    open spec fn obeys_from_spec() -> bool {
        true
    }

    open spec fn from_spec(e: TailscaleError) -> Self {
        ImDeployError::Tailscale(e)
    }
}

impl From<SshError> for ImDeployError {
    fn from(e: SshError) -> Self {
        ImDeployError::Ssh(e)
    }
}

impl vstd::std_specs::convert::FromSpecImpl<SshError> for ImDeployError {
    open spec fn obeys_from_spec() -> bool {
        true
    }

    open spec fn from_spec(e: SshError) -> Self {
        ImDeployError::Ssh(e)
    }
}

impl From<ConfigError> for ImDeployError {
    fn from(e: ConfigError) -> Self {
        ImDeployError::Config(e)
    }
}

impl vstd::std_specs::convert::FromSpecImpl<ConfigError> for ImDeployError {
    open spec fn obeys_from_spec() -> bool {
        true
    }

    open spec fn from_spec(e: ConfigError) -> Self {
        ImDeployError::Config(e)
    }
}

impl From<std::io::Error> for ImDeployError {
    fn from(e: std::io::Error) -> Self {
        ImDeployError::Io(e)
    }
}

impl vstd::std_specs::convert::FromSpecImpl<std::io::Error> for ImDeployError {
    open spec fn obeys_from_spec() -> bool {
        true
    }

    open spec fn from_spec(e: std::io::Error) -> Self {
        ImDeployError::Io(e)
    }
}

impl From<anyhow::Error> for ImDeployError {
    fn from(e: anyhow::Error) -> Self {
        ImDeployError::Other(e)
    }
}

impl vstd::std_specs::convert::FromSpecImpl<anyhow::Error> for ImDeployError {
    open spec fn obeys_from_spec() -> bool {
        true
    }

    open spec fn from_spec(e: anyhow::Error) -> Self {
        ImDeployError::Other(e)
    }
}

pub type Result<T> = std::result::Result<T, ImDeployError>;

} // verus!
