use im_deploy::domain::cluster::{CloudProvider, ServerInfo};
use im_deploy::json::Json;
use im_deploy::monitor::{
    access_info_block, check_phase, count_ready_nodes, expected_nodes, output_flag, server_log_command, InstallPhase,
    MonitorFailure, MonitorState, Phase, PhaseCheck,
};

fn node(name: &str) -> ServerInfo {
    ServerInfo { name: name.to_string(), ip: "10.0.0.1".to_string(), cloud_provider: "openstack".to_string(), tailscale_hostname: None }
}

fn provider(names: &[&str]) -> CloudProvider {
    CloudProvider { name: "OpenStack".to_string(), bastion_ip: None, tailscale_enabled: false, servers: names.iter().map(|n| node(n)).collect() }
}

fn flag_outputs(name: &str, on: bool) -> Json {
    Json::Object(vec![name.to_string()], vec![Json::Object(vec!["value".to_string()], vec![Json::Bool(on)])])
}

#[test]
fn ready_nodes_are_counted_by_line() {
    let out = "k3s-server-0   Ready    control-plane   5m   v1.29\nk3s-agent-0    NotReady <none>   1m   v1.29\nk3s-agent-1    Ready    <none>   1m   v1.29\n";
    assert_eq!(count_ready_nodes(out), (2, 3));
    assert_eq!(count_ready_nodes(""), (0, 0));
    assert_eq!(count_ready_nodes("a Ready b"), (1, 1));
    assert_eq!(count_ready_nodes("\n\n"), (0, 2));
}

#[test]
fn expected_nodes_prefer_aggregated_outputs() {
    let p = provider(&["k3s-server-0", "k3s-agent-0", "k3s-agent-1"]);
    let e = expected_nodes(&Json::Null, &p).ok().unwrap();
    assert_eq!((e.servers, e.agents, e.total), (1, 2, 3));
    let arr = |n: usize| Json::Array((0..n).map(|_| Json::Str("x".into())).collect());
    let outputs = Json::Object(
        vec!["all_server_ips".to_string(), "all_agent_ips".to_string()],
        vec![
            Json::Object(vec!["value".to_string()], vec![arr(3)]),
            Json::Object(vec!["value".to_string()], vec![arr(2)]),
        ],
    );
    let e = expected_nodes(&outputs, &p).ok().unwrap();
    assert_eq!((e.servers, e.agents, e.total), (3, 2, 5));
    match expected_nodes(&Json::Null, &provider(&[])) {
        Err(e) => assert_eq!(
            e.message(),
            "Terraform error: No nodes found in Terraform outputs. Check all_server_ips and all_agent_ips."
        ),
        Ok(_) => panic!("expected no nodes to be an error"),
    }
}

#[test]
fn output_flags_default_to_off() {
    assert!(output_flag(&flag_outputs("enable_argocd", true), "enable_argocd"));
    assert!(!output_flag(&flag_outputs("enable_argocd", false), "enable_argocd"));
    assert!(!output_flag(&Json::Null, "enable_nvidia_gpu_operator"));
}

#[test]
fn install_phase_checks_read_the_markers() {
    let p = InstallPhase::GpuOperator;
    assert_eq!(check_phase(p, None, None), PhaseCheck::Unavailable);
    assert_eq!(check_phase(p, Some("boot FATAL x"), Some("ok")), PhaseCheck::BootstrapFailed);
    assert_eq!(check_phase(p, Some("booting"), None), PhaseCheck::NotStarted);
    let started = "Installing NVIDIA GPU Operator...";
    assert_eq!(check_phase(p, Some(started), None), PhaseCheck::Unavailable);
    assert_eq!(check_phase(p, Some(started), Some("GPU Operator installation complete!")), PhaseCheck::Completed);
    assert_eq!(check_phase(p, Some(started), Some("ERROR: helm")), PhaseCheck::Failed);
    assert_eq!(check_phase(p, Some(started), Some("WARNING: slow")), PhaseCheck::InProgress { warning: true });
    assert_eq!(check_phase(p, Some(started), Some("pulling")), PhaseCheck::InProgress { warning: false });
    assert_eq!(InstallPhase::ArgoCd.tail_command(), "sudo tail -n 5 /var/log/argocd-install.log 2>/dev/null");
    assert_eq!(InstallPhase::TailscaleServe.full_log_command(), "sudo cat /var/log/tailscale-argocd-serve.log");
    assert_eq!(server_log_command(), "sudo cat /var/log/k3s-server.log 2>/dev/null");
}

#[test]
fn monitor_walks_the_enabled_phases() {
    let mut m = MonitorState::new(3, false, true);
    assert!(!m.on_nodes(10, 2, 3));
    assert_eq!(m.phase, Phase::Nodes);
    assert!(m.on_nodes(20, 3, 3));
    assert_eq!(m.phase, Phase::ArgoCd);
    assert_eq!(m.nodes_ready_at, Some(20));
    assert_eq!(m.install_phase(), Some(InstallPhase::ArgoCd));
    assert_eq!(m.on_phase_check(30, PhaseCheck::NotStarted), None);
    assert_eq!(m.on_phase_check(80, PhaseCheck::Completed), None);
    assert_eq!(m.argocd_duration, Some(60));
    assert_eq!(m.phase, Phase::TailscaleServe);
    assert_eq!(m.on_phase_check(90, PhaseCheck::Completed), None);
    assert_eq!(m.serve_duration, Some(10));
    assert_eq!(m.phase, Phase::Done);
}

#[test]
fn monitor_stops_on_error_markers() {
    let mut m = MonitorState::new(1, true, false);
    assert!(m.on_nodes(5, 1, 1));
    assert_eq!(m.phase, Phase::GpuOperator);
    assert_eq!(
        m.on_phase_check(15, PhaseCheck::BootstrapFailed),
        Some(MonitorFailure { phase: InstallPhase::GpuOperator, bootstrap: true })
    );
    assert_eq!(m.phase, Phase::Failed);
    let mut m = MonitorState::new(1, true, false);
    m.on_nodes(5, 1, 1);
    assert_eq!(m.on_phase_check(15, PhaseCheck::Unavailable), None);
    assert_eq!(m.phase, Phase::GpuOperator);
    assert_eq!(m.on_phase_check(25, PhaseCheck::Failed), Some(MonitorFailure { phase: InstallPhase::GpuOperator, bootstrap: false }));
}

#[test]
fn access_info_is_ten_lines_from_the_delimiter() {
    let bar = "=".repeat(68);
    let mut log = String::from("setting up\n");
    log.push_str(&bar);
    log.push('\n');
    for i in 1..=12 {
        log.push_str(&format!("line {}\n", i));
    }
    let expected = format!("{}\nline 1\nline 2\nline 3\nline 4\nline 5\nline 6\nline 7\nline 8\nline 9", bar);
    assert_eq!(access_info_block(&log), Some(expected));
    let short = format!("{}\nURL: https://argocd\n", bar);
    assert_eq!(access_info_block(&short), Some(format!("{}\nURL: https://argocd", bar)));
    assert_eq!(access_info_block("no block"), None);
}
