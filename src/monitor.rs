//! The cluster formation monitor as a state machine: node readiness, then the
//! optional GPU Operator, ArgoCD and Tailscale Serve installation phases.
//!
//! The caller runs the remote commands every check interval and hands their
//! output here; a failed command counts as "not ready yet".

use vstd::prelude::*;
use crate::domain::cluster::{count_named, CloudProvider};
use crate::errors::{concat2, concat3, ImDeployError, Result, TerraformError};
use crate::json::{as_array, as_bool, output_value, output_value_of, Json};
use crate::text::{contains, find_from, first_occurrence_from, seq_contains};

verus! {

/// Lines of `s` from position `start` on, as (lines holding ` Ready `, all lines).
/// Lines end at `\n`; a last line without one still counts, an empty rest does not.
#[verifier::opaque]
pub open spec fn node_lines_from(s: Seq<char>, start: int) -> (nat, nat)
    decreases s.len() - start,
{
    if start < 0 || start >= s.len() {
        (0, 0)
    } else {
        let (line, rest) = match first_occurrence_from(s, "\n"@, start) {
            Some(i) => if start <= i < s.len() {
                (s.subrange(start, i), node_lines_from(s, i + 1))
            } else {
                (s.subrange(start, s.len() as int), (0nat, 0nat))
            },
            None => (s.subrange(start, s.len() as int), (0nat, 0nat)),
        };
        (rest.0 + if seq_contains(line, " Ready "@) { 1nat } else { 0nat }, rest.1 + 1)
    }
}

proof fn lemma_node_lines_step(s: Seq<char>, start: int, line_end: int, next: int)
    requires
        0 <= start < s.len(),
        (first_occurrence_from(s, "\n"@, start) == Some(line_end) && start <= line_end < s.len() && next == line_end + 1)
            || (first_occurrence_from(s, "\n"@, start) is None && line_end == s.len() && next == s.len()),
    ensures
        node_lines_from(s, start).0 == node_lines_from(s, next).0 + if seq_contains(
            s.subrange(start, line_end),
            " Ready "@,
        ) {
            1nat
        } else {
            0nat
        },
        node_lines_from(s, start).1 == node_lines_from(s, next).1 + 1,
{
    reveal(node_lines_from);
    assert(node_lines_from(s, s.len() as int) == (0nat, 0nat));
}

/// Where the line that begins at `start` ends, and where the next one begins.
fn next_line(s: &str, start: usize, n: usize) -> (r: (usize, usize))
    requires
        n == s@.len(),
        start < n,
    ensures
        (first_occurrence_from(s@, "\n"@, start as int) == Some(r.0 as int) && start <= r.0 < n && r.1 == r.0 + 1)
            || (first_occurrence_from(s@, "\n"@, start as int) is None && r.0 == n && r.1 == n),
{
    proof {
        reveal_strlit("\n");
    }
    match find_from(s, "\n", start) {
        Some(i) => (i, i + 1),
        None => (n, n),
    }
}

/// Counts, in `kubectl get nodes --no-headers` output, the nodes that are
/// Ready and all the nodes listed.
pub fn count_ready_nodes(output: &str) -> (r: (usize, usize))
    ensures
        r.0 == node_lines_from(output@, 0).0,
        r.1 == node_lines_from(output@, 0).1,
{
    let n = output.unicode_len();
    let mut ready: usize = 0;
    let mut total: usize = 0;
    let mut start: usize = 0;
    proof {
        reveal(node_lines_from);
    }
    while start < n
        invariant
            n == output@.len(),
            start <= n,
            total <= start,
            ready <= total,
            node_lines_from(output@, 0).0 == ready + node_lines_from(output@, start as int).0,
            node_lines_from(output@, 0).1 == total + node_lines_from(output@, start as int).1,
        decreases n - start,
    {
        let (line_end, next) = next_line(output, start, n);
        proof {
            lemma_node_lines_step(output@, start as int, line_end as int, next as int);
        }
        let line = output.substring_char(start, line_end);
        if contains(line, " Ready ") {
            ready = ready + 1;
        }
        total = total + 1;
        start = next;
    }
    (ready, total)
}

/// How many nodes the cluster should have: the aggregated outputs
/// `all_server_ips` and `all_agent_ips` where present, else the provider's
/// servers and agents.
#[derive(Debug, Clone, Copy, PartialEq, Eq, Structural)]
pub struct NodeExpectation {
    pub servers: usize,
    pub agents: usize,
    pub total: usize,
}

pub open spec fn expected_servers(outputs: Json, provider: CloudProvider) -> nat {
    match as_array(output_value(outputs, "all_server_ips"@)) {
        Some(a) => a.len(),
        None => count_named(provider.servers@, false),
    }
}

pub open spec fn expected_agents(outputs: Json, provider: CloudProvider) -> nat {
    match as_array(output_value(outputs, "all_agent_ips"@)) {
        Some(a) => a.len(),
        None => count_named(provider.servers@, true),
    }
}

/// The expected node count; monitoring no node at all is an error.
pub fn expected_nodes(outputs: &Json, provider: &CloudProvider) -> (r: Result<NodeExpectation>)
    ensures
        match r {
            Ok(e) => e.servers == expected_servers(*outputs, *provider) && e.agents == expected_agents(
                *outputs,
                *provider,
            ) && e.total == e.servers + e.agents && e.total > 0,
            Err(err) => expected_servers(*outputs, *provider) + expected_agents(*outputs, *provider) == 0
                || expected_servers(*outputs, *provider) + expected_agents(*outputs, *provider) > usize::MAX,
        },
        expected_servers(*outputs, *provider) + expected_agents(*outputs, *provider) == 0 ==> r matches Err(
            ImDeployError::Terraform(TerraformError::NoNodes),
        ),
{
    let servers = match output_value_of(outputs, "all_server_ips") {
        Some(v) => match v.as_array() {
            Some(a) => a.len(),
            None => provider.server_count(),
        },
        None => provider.server_count(),
    };
    let agents = match output_value_of(outputs, "all_agent_ips") {
        Some(v) => match v.as_array() {
            Some(a) => a.len(),
            None => provider.agent_count(),
        },
        None => provider.agent_count(),
    };
    match servers.checked_add(agents) {
        Some(total) => if total == 0 {
            Err(ImDeployError::Terraform(TerraformError::NoNodes))
        } else {
            Ok(NodeExpectation { servers, agents, total })
        },
        None => Err(ImDeployError::Terraform(TerraformError::ResourceNotFound { resource: "node count".to_owned() })),
    }
}

/// Whether an output flag (`enable_nvidia_gpu_operator`, `enable_argocd`) is on.
pub fn output_flag(outputs: &Json, name: &str) -> (r: bool)
    ensures
        r == (as_bool(output_value(*outputs, name@)) == Some(true)),
{
    match output_value_of(outputs, name) {
        Some(v) => match v.as_bool() {
            Some(b) => b,
            None => false,
        },
        None => false,
    }
}

/// The monitor's phases, in order.
#[derive(Debug, Clone, Copy, PartialEq, Eq, Structural)]
pub enum Phase {
    Nodes,
    GpuOperator,
    ArgoCd,
    TailscaleServe,
    Done,
    Failed,
}

/// One of the installation phases that cloud-init runs after the nodes are up.
#[derive(Debug, Clone, Copy, PartialEq, Eq, Structural)]
pub enum InstallPhase {
    GpuOperator,
    ArgoCd,
    TailscaleServe,
}

pub open spec fn start_marker(p: InstallPhase) -> Seq<char> {
    match p {
        InstallPhase::GpuOperator => "Installing NVIDIA GPU Operator..."@,
        InstallPhase::ArgoCd => "Installing ArgoCD..."@,
        InstallPhase::TailscaleServe => "Setting up Tailscale Serve for ArgoCD..."@,
    }
}

pub open spec fn completion_marker(p: InstallPhase) -> Seq<char> {
    match p {
        InstallPhase::GpuOperator => "GPU Operator installation complete!"@,
        InstallPhase::ArgoCd => "ArgoCD installation complete!"@,
        InstallPhase::TailscaleServe => "Tailscale Serve configured successfully for ArgoCD"@,
    }
}

pub open spec fn log_path(p: InstallPhase) -> Seq<char> {
    match p {
        InstallPhase::GpuOperator => "/var/log/gpu-operator-install.log"@,
        InstallPhase::ArgoCd => "/var/log/argocd-install.log"@,
        InstallPhase::TailscaleServe => "/var/log/tailscale-argocd-serve.log"@,
    }
}

impl InstallPhase {
    pub fn start_marker(&self) -> (r: &'static str)
        ensures
            r@ == start_marker(*self),
    {
        match self {
            InstallPhase::GpuOperator => "Installing NVIDIA GPU Operator...",
            InstallPhase::ArgoCd => "Installing ArgoCD...",
            InstallPhase::TailscaleServe => "Setting up Tailscale Serve for ArgoCD...",
        }
    }

    pub fn completion_marker(&self) -> (r: &'static str)
        ensures
            r@ == completion_marker(*self),
    {
        match self {
            InstallPhase::GpuOperator => "GPU Operator installation complete!",
            InstallPhase::ArgoCd => "ArgoCD installation complete!",
            InstallPhase::TailscaleServe => "Tailscale Serve configured successfully for ArgoCD",
        }
    }

    pub fn log_path(&self) -> (r: &'static str)
        ensures
            r@ == log_path(*self),
    {
        match self {
            InstallPhase::GpuOperator => "/var/log/gpu-operator-install.log",
            InstallPhase::ArgoCd => "/var/log/argocd-install.log",
            InstallPhase::TailscaleServe => "/var/log/tailscale-argocd-serve.log",
        }
    }

    /// The remote command that prints the last lines of the phase's log.
    pub fn tail_command(&self) -> (r: String)
        ensures
            r@ == "sudo tail -n 5 "@ + log_path(*self) + " 2>/dev/null"@,
    {
        concat3("sudo tail -n 5 ", self.log_path(), " 2>/dev/null")
    }

    /// The remote command that prints the whole log of the phase.
    pub fn full_log_command(&self) -> (r: String)
        ensures
            r@ == "sudo cat "@ + log_path(*self),
    {
        concat2("sudo cat ", self.log_path())
    }
}

/// The remote command that reads the server's bootstrap log.
pub fn server_log_command() -> (r: String)
    ensures
        r@ == "sudo cat /var/log/k3s-server.log 2>/dev/null"@,
{
    "sudo cat /var/log/k3s-server.log 2>/dev/null".to_owned()
}

/// What one check of an installation phase found.
#[derive(Debug, Clone, Copy, PartialEq, Eq, Structural)]
pub enum PhaseCheck {
    /// A log could not be read: not ready yet.
    Unavailable,
    /// The bootstrap log shows `ERROR` or `FATAL`: the cluster itself failed.
    BootstrapFailed,
    /// The bootstrap has not reached this phase.
    NotStarted,
    /// Under way; `warning` when the phase log shows a warning.
    InProgress { warning: bool },
    Completed,
    /// The phase log shows `ERROR`: this phase failed.
    Failed,
}

pub open spec fn phase_check_of(p: InstallPhase, server_log: Option<Seq<char>>, phase_log: Option<Seq<char>>) -> PhaseCheck {
    match server_log {
        None => PhaseCheck::Unavailable,
        Some(s) => if seq_contains(s, "ERROR"@) || seq_contains(s, "FATAL"@) {
            PhaseCheck::BootstrapFailed
        } else if !seq_contains(s, start_marker(p)) {
            PhaseCheck::NotStarted
        } else {
            match phase_log {
                None => PhaseCheck::Unavailable,
                Some(l) => if seq_contains(l, completion_marker(p)) {
                    PhaseCheck::Completed
                } else if seq_contains(l, "ERROR"@) {
                    PhaseCheck::Failed
                } else {
                    PhaseCheck::InProgress { warning: seq_contains(l, "WARNING"@) }
                },
            }
        },
    }
}

pub open spec fn opt_text(o: Option<&str>) -> Option<Seq<char>> {
    match o {
        Some(s) => Some(s@),
        None => None,
    }
}

/// Reads one check of phase `p` from the bootstrap log and the phase's log
/// (`None` where the remote command failed). The phase log matters only once
/// the bootstrap log shows the phase's start marker.
pub fn check_phase(p: InstallPhase, server_log: Option<&str>, phase_log: Option<&str>) -> (r: PhaseCheck)
    ensures
        r == phase_check_of(p, opt_text(server_log), opt_text(phase_log)),
{
    match server_log {
        None => PhaseCheck::Unavailable,
        Some(s) => if contains(s, "ERROR") || contains(s, "FATAL") {
            PhaseCheck::BootstrapFailed
        } else if !contains(s, p.start_marker()) {
            PhaseCheck::NotStarted
        } else {
            match phase_log {
                None => PhaseCheck::Unavailable,
                Some(l) => if contains(l, p.completion_marker()) {
                    PhaseCheck::Completed
                } else if contains(l, "ERROR") {
                    PhaseCheck::Failed
                } else {
                    PhaseCheck::InProgress { warning: contains(l, "WARNING") }
                },
            }
        },
    }
}

/// The phase that follows `after`, skipping the disabled ones. Tailscale Serve
/// for ArgoCD runs only with ArgoCD.
pub open spec fn next_phase(after: Phase, gpu_enabled: bool, argocd_enabled: bool) -> Phase {
    match after {
        Phase::Nodes => if gpu_enabled {
            Phase::GpuOperator
        } else if argocd_enabled {
            Phase::ArgoCd
        } else {
            Phase::Done
        },
        Phase::GpuOperator => if argocd_enabled {
            Phase::ArgoCd
        } else {
            Phase::Done
        },
        Phase::ArgoCd => Phase::TailscaleServe,
        _ => Phase::Done,
    }
}

fn following_phase(after: Phase, gpu_enabled: bool, argocd_enabled: bool) -> (r: Phase)
    ensures
        r == next_phase(after, gpu_enabled, argocd_enabled),
{
    match after {
        Phase::Nodes => if gpu_enabled {
            Phase::GpuOperator
        } else if argocd_enabled {
            Phase::ArgoCd
        } else {
            Phase::Done
        },
        Phase::GpuOperator => if argocd_enabled {
            Phase::ArgoCd
        } else {
            Phase::Done
        },
        Phase::ArgoCd => Phase::TailscaleServe,
        _ => Phase::Done,
    }
}

/// The monitor's state: the phase under way, when it started, and when each
/// finished phase was done (seconds since the monitor started; the phases'
/// own durations for the installation phases).
#[derive(Debug, Clone, Copy, PartialEq, Eq, Structural)]
pub struct MonitorState {
    pub phase: Phase,
    pub expected_nodes: usize,
    pub gpu_enabled: bool,
    pub argocd_enabled: bool,
    pub phase_started_at: u64,
    pub nodes_ready_at: Option<u64>,
    pub gpu_duration: Option<u64>,
    pub argocd_duration: Option<u64>,
    pub serve_duration: Option<u64>,
}

/// Which phase's check failed the monitor, and how.
#[derive(Debug, Clone, Copy, PartialEq, Eq, Structural)]
pub struct MonitorFailure {
    pub phase: InstallPhase,
    pub bootstrap: bool,
}

pub open spec fn install_phase_of(p: Phase) -> Option<InstallPhase> {
    match p {
        Phase::GpuOperator => Some(InstallPhase::GpuOperator),
        Phase::ArgoCd => Some(InstallPhase::ArgoCd),
        Phase::TailscaleServe => Some(InstallPhase::TailscaleServe),
        _ => None,
    }
}

impl MonitorState {
    pub fn new(expected_nodes: usize, gpu_enabled: bool, argocd_enabled: bool) -> (r: Self)
        ensures
            r.phase == Phase::Nodes,
            r.expected_nodes == expected_nodes,
            r.gpu_enabled == gpu_enabled,
            r.argocd_enabled == argocd_enabled,
            r.phase_started_at == 0,
            r.nodes_ready_at is None && r.gpu_duration is None && r.argocd_duration is None
                && r.serve_duration is None,
    {
        MonitorState {
            phase: Phase::Nodes,
            expected_nodes,
            gpu_enabled,
            argocd_enabled,
            phase_started_at: 0,
            nodes_ready_at: None,
            gpu_duration: None,
            argocd_duration: None,
            serve_duration: None,
        }
    }

    /// The installation phase under way, if one is.
    pub fn install_phase(&self) -> (r: Option<InstallPhase>)
        ensures
            r == install_phase_of(self.phase),
    {
        match self.phase {
            Phase::GpuOperator => Some(InstallPhase::GpuOperator),
            Phase::ArgoCd => Some(InstallPhase::ArgoCd),
            Phase::TailscaleServe => Some(InstallPhase::TailscaleServe),
            _ => None,
        }
    }

    /// A node count seen at `now`: once at least the expected number of nodes
    /// is listed and Ready, the nodes phase ends and the next enabled one starts.
    pub fn on_nodes(&mut self, now: u64, ready: usize, total: usize) -> (r: bool)
        requires
            old(self).phase == Phase::Nodes,
        ensures
            r == (ready >= old(self).expected_nodes && total >= old(self).expected_nodes),
            r ==> *final(self) == (MonitorState {
                phase: next_phase(Phase::Nodes, old(self).gpu_enabled, old(self).argocd_enabled),
                phase_started_at: now,
                nodes_ready_at: Some(now),
                ..*old(self)
            }),
            !r ==> *final(self) == *old(self),
    {
        if ready >= self.expected_nodes && total >= self.expected_nodes {
            self.phase = following_phase(Phase::Nodes, self.gpu_enabled, self.argocd_enabled);
            self.phase_started_at = now;
            self.nodes_ready_at = Some(now);
            true
        } else {
            false
        }
    }

    /// A check of the installation phase under way, seen at `now`. Completion
    /// records the phase's duration and starts the next phase; an error marker
    /// fails the monitor; anything else waits for the next check.
    pub fn on_phase_check(&mut self, now: u64, check: PhaseCheck) -> (r: Option<MonitorFailure>)
        requires
            install_phase_of(old(self).phase) is Some,
            old(self).phase_started_at <= now,
        ensures
            final(self).expected_nodes == old(self).expected_nodes,
            final(self).gpu_enabled == old(self).gpu_enabled,
            final(self).argocd_enabled == old(self).argocd_enabled,
            final(self).nodes_ready_at == old(self).nodes_ready_at,
            check == PhaseCheck::Completed ==> {
                &&& r is None
                &&& final(self).phase == next_phase(old(self).phase, old(self).gpu_enabled, old(self).argocd_enabled)
                &&& final(self).phase_started_at == now
                &&& old(self).phase == Phase::GpuOperator ==> final(self).gpu_duration == Some((now - old(self).phase_started_at) as u64)
                &&& old(self).phase == Phase::ArgoCd ==> final(self).argocd_duration == Some((now - old(self).phase_started_at) as u64)
                &&& old(self).phase == Phase::TailscaleServe ==> final(self).serve_duration == Some((now - old(self).phase_started_at) as u64)
            },
            (check == PhaseCheck::BootstrapFailed || check == PhaseCheck::Failed) ==> {
                &&& r == Some(MonitorFailure {
                    phase: install_phase_of(old(self).phase)->0,
                    bootstrap: check == PhaseCheck::BootstrapFailed,
                })
                &&& final(self).phase == Phase::Failed
            },
            !(check == PhaseCheck::Completed || check == PhaseCheck::BootstrapFailed || check == PhaseCheck::Failed)
                ==> r is None && *final(self) == *old(self),
    {
        let p = self.install_phase();
        let phase = match p {
            Some(x) => x,
            None => InstallPhase::GpuOperator,
        };
        match check {
            PhaseCheck::Completed => {
                let took = now - self.phase_started_at;
                match phase {
                    InstallPhase::GpuOperator => self.gpu_duration = Some(took),
                    InstallPhase::ArgoCd => self.argocd_duration = Some(took),
                    InstallPhase::TailscaleServe => self.serve_duration = Some(took),
                }
                self.phase = following_phase(self.phase, self.gpu_enabled, self.argocd_enabled);
                self.phase_started_at = now;
                None
            },
            PhaseCheck::BootstrapFailed => {
                self.phase = Phase::Failed;
                Some(MonitorFailure { phase, bootstrap: true })
            },
            PhaseCheck::Failed => {
                self.phase = Phase::Failed;
                Some(MonitorFailure { phase, bootstrap: false })
            },
            _ => None,
        }
    }
}

/// The line that opens and closes the access information in the Tailscale
/// Serve log.
pub const ACCESS_INFO_DELIMITER: &'static str =
    "====================================================================";

/// Where the text of `n` lines that begin at `from` ends: at the `n`-th line
/// break, or at the end of `s`; a line break that ends `s` is left out.
pub open spec fn lines_end(s: Seq<char>, from: int, n: nat) -> int
    decreases n,
{
    if n == 0 || from >= s.len() {
        from - 1
    } else {
        match first_occurrence_from(s, "\n"@, from) {
            Some(i) => if n == 1 {
                i
            } else {
                lines_end(s, i + 1, (n - 1) as nat)
            },
            None => s.len() as int,
        }
    }
}

/// The access information block of the Tailscale Serve log: ten lines from the
/// first delimiter line on, when the log has one.
pub open spec fn access_info_of(log: Seq<char>) -> Option<Seq<char>> {
    match first_occurrence_from(log, ACCESS_INFO_DELIMITER@, 0) {
        Some(start) => Some(log.subrange(start, lines_end(log, start, 10))),
        None => None,
    }
}

/// The access information that the Tailscale Serve log ends with, for the
/// operator: ten lines from the delimiter on.
pub fn access_info_block(log: &str) -> (r: Option<String>)
    ensures
        match access_info_of(log@) {
            Some(b) => r matches Some(t) && t@ == b,
            None => r is None,
        },
{
    let n = log.unicode_len();
    let start = match find_from(log, ACCESS_INFO_DELIMITER, 0) {
        Some(i) => i,
        None => return None,
    };
    proof {
        reveal_strlit("====================================================================");
    }
    let mut from: usize = start;
    let mut left: usize = 10;
    let mut end: usize = n;
    loop
        invariant
            n == log@.len(),
            start < n,
            start <= from <= n,
            left <= 10,
            lines_end(log@, start as int, 10) == lines_end(log@, from as int, left as nat),
            left < 10 ==> start < from,
        ensures
            start <= end <= n,
            end as int == lines_end(log@, start as int, 10),
        decreases left,
    {
        if left == 0 || from >= n {
            end = from - 1;
            assert(end as int == lines_end(log@, start as int, 10));
            break;
        }
        match find_from(log, "\n", from) {
            Some(i) => {
                proof {
                    reveal_strlit("\n");
                }
                if left == 1 {
                    end = i;
                    assert(end as int == lines_end(log@, start as int, 10));
                    break;
                }
                from = i + 1;
                left = left - 1;
            },
            None => {
                end = n;
                assert(end as int == lines_end(log@, start as int, 10));
                break;
            },
        }
    }
    Some(log.substring_char(start, end).to_owned())
}

} // verus!
