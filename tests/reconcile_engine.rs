use im_deploy::openstack::{
    auth_outcome, auth_tokens_url, classify_port, octavia_ports_to_delete, is_kubernetes_lb, select_lb_candidates,
    select_lb_ports, select_network_ports, select_octavia_ports, select_orphaned_floating_ips,
    select_security_groups, select_terraform_lb_ids, tls_mode, FloatingIp, LoadBalancer,
    OpenStackSession, Port, PortOwner, SecurityGroup, TlsMode,
};
use im_deploy::errors::OpenStackError;
use im_deploy::reconcile::{
    classify_delete, delete_accepted, lb_delete_outcome, orphan_sweep_plan, post_destroy_plan, pre_destroy_plan, run_poll, CleanupRun,
    DeleteOutcome, DeleteResponse, LbDeletionPoll, PollResponse, PollState, Stage, StageReport,
};

fn lb(id: &str, name: &str, net: &str) -> LoadBalancer {
    LoadBalancer {
        id: id.to_string(),
        name: name.to_string(),
        vip_network_id: net.to_string(),
        provisioning_status: "ACTIVE".to_string(),
    }
}

fn port(id: &str, name: &str, owner: &str) -> Port {
    Port {
        id: id.to_string(),
        name: name.to_string(),
        device_owner: owner.to_string(),
        network_id: "net-1".to_string(),
    }
}

#[test]
fn terraform_load_balancers_are_never_candidates() {
    let lbs = vec![
        lb("a", "kube-cluster-lb", "net-1"),
        lb("b", "kube_service_default_web_x-lb", "net-1"),
        lb("c", "mycluster-lb", "net-1"),
    ];
    assert!(select_lb_candidates(&lbs, "net-1").is_empty());
    assert!(!is_kubernetes_lb("kube-anything-lb"));
}

#[test]
fn kubernetes_load_balancers_on_the_network_are_chosen_once() {
    let lbs = vec![
        lb("a", "kube_service_default_web_1", "net-1"),
        lb("b", "kube-ingress", "net-1"),
        lb("c", "kube-ingress", "net-2"),
        lb("d", "other", "net-1"),
        lb("e", "kube_service_x_y_z", "net-1"),
    ];
    assert_eq!(select_lb_candidates(&lbs, "net-1"), vec![0, 1, 4]);
    assert_eq!(select_lb_candidates(&lbs, "net-2"), vec![2]);
    assert!(select_lb_candidates(&Vec::new(), "net-1").is_empty());
}

#[test]
fn octavia_ports_are_kept_when_load_balancers_cannot_be_listed() {
    let lbs = vec![lb("tf-id-1", "cluster-lb", "net-1")];
    let ports = vec![port("port-1", "octavia-lb-tf-id-1", "Octavia"), port("port-2", "octavia-lb-k", "Octavia")];
    assert_eq!(octavia_ports_to_delete(Some(&lbs), "net-1", &ports), Some(vec![1]));
    assert_eq!(octavia_ports_to_delete(None, "net-1", &ports), None);
}

#[test]
fn octavia_ports_of_terraform_load_balancers_are_kept() {
    let lbs = vec![lb("tf-id-1", "cluster-lb", "net-1"), lb("k-id", "kube-x", "net-1"), lb("tf-other", "x-lb", "net-2")];
    let ids = select_terraform_lb_ids(&lbs, "net-1");
    assert_eq!(ids, vec!["tf-id-1".to_string()]);
    let ports = vec![
        port("port-1", "octavia-lb-tf-id-1", "Octavia"),
        port("port-2", "octavia-lb-k-id", "Octavia"),
        port("port-3", "vm", "compute:nova"),
        port("port-4", "octavia-lb-zzz", "octavia-something"),
    ];
    assert_eq!(select_octavia_ports(&ports, &ids), vec![1, 3]);
    assert_eq!(select_lb_ports(&ports), vec![0, 1, 3]);
}

#[test]
fn ports_are_classified_by_owner_prefix() {
    assert_eq!(classify_port("compute:nova"), PortOwner::Compute);
    assert_eq!(classify_port("network:router_interface"), PortOwner::Router);
    assert_eq!(classify_port("network:dhcp"), PortOwner::Dhcp);
    assert_eq!(classify_port("Octavia"), PortOwner::LoadBalancer);
    assert_eq!(classify_port(""), PortOwner::Unclassified);
    let ports = vec![
        port("port-1", "a", "compute:nova"),
        port("port-2", "b", "network:router_gateway"),
        port("port-3", "c", "network:dhcp"),
        port("port-4", "d", "Octavia"),
        port("port-5", "e", "neutron:LOADBALANCERV2"),
    ];
    assert_eq!(select_network_ports(&ports), vec![3, 4]);
}

#[test]
fn orphaned_floating_ips_are_down_or_unbound() {
    let fips = vec![
        FloatingIp { id: "f1".into(), floating_ip_address: "1.1.1.1".into(), status: "DOWN".into(), port_id: Some("p".into()) },
        FloatingIp { id: "f2".into(), floating_ip_address: "1.1.1.2".into(), status: "ACTIVE".into(), port_id: Some("p".into()) },
        FloatingIp { id: "f3".into(), floating_ip_address: "1.1.1.3".into(), status: "ACTIVE".into(), port_id: None },
        FloatingIp { id: "f4".into(), floating_ip_address: "1.1.1.4".into(), status: "Down".into(), port_id: Some("p".into()) },
    ];
    assert_eq!(select_orphaned_floating_ips(&fips), vec![0, 2, 3]);
}

#[test]
fn security_groups_of_load_balancers_and_the_cluster_are_chosen() {
    let sg = |n: &str| SecurityGroup { id: format!("id-{}", n), name: n.to_string(), description: String::new() };
    let sgs = vec![sg("lb-sg-123"), sg("demo-server"), sg("demo-agent"), sg("default"), sg("demo-server-extra")];
    assert_eq!(select_security_groups(&sgs, "demo"), vec![0, 1, 2]);
}

#[test]
fn endpoints_derive_from_the_auth_url() {
    let session = OpenStackSession::new("https://cloud.example:5000/v3", "tok".to_string());
    assert_eq!(session.neutron_endpoint, "https://cloud.example:9696/v2.0");
    assert_eq!(session.octavia_endpoint, "https://cloud.example:9876/v2.0");
    assert_eq!(session.load_balancer_delete_url("abc"), "https://cloud.example:9876/v2.0/lbaas/loadbalancers/abc?cascade=true");
    assert_eq!(session.network_ports_url("net"), "https://cloud.example:9696/v2.0/ports?network_id=net");
    assert_eq!(session.security_group_url("s1"), "https://cloud.example:9696/v2.0/security-groups/s1");
    assert_eq!(session.floating_ips_url(), "https://cloud.example:9696/v2.0/floatingips");
    assert_eq!(auth_tokens_url("https://x:5000/v3"), "https://x:5000/v3/auth/tokens");
    let twice = OpenStackSession::new("https://a:5000/v3/b:5000/v3", "t".to_string());
    assert_eq!(twice.neutron_endpoint, "https://a:9696/v2.0/b:9696/v2.0");
    let none = OpenStackSession::new("https://a:5001/v3", "t".to_string());
    assert_eq!(none.octavia_endpoint, "https://a:5001/v3");
}

#[test]
fn authentication_outcomes() {
    match auth_outcome(401, "denied", Some("t")) {
        Err(OpenStackError::AuthFailed(m)) => assert_eq!(m, "status 401: denied"),
        _ => panic!("expected an authentication failure"),
    }
    match auth_outcome(201, "", None) {
        Err(OpenStackError::AuthFailed(m)) => assert_eq!(m, "No X-Subject-Token in response"),
        _ => panic!("expected a missing token"),
    }
    assert_eq!(auth_outcome(201, "", Some("gAAA")).ok(), Some("gAAA".to_string()));
}

#[test]
fn insecure_wins_over_a_custom_certificate() {
    assert_eq!(tls_mode(true, Some("/ca.pem")), TlsMode::AcceptInvalidCerts);
    assert_eq!(tls_mode(false, Some("/ca.pem")), TlsMode::CustomRoot("/ca.pem".to_string()));
    assert_eq!(tls_mode(false, None), TlsMode::SystemRoots);
}

#[test]
fn delete_responses_are_classified() {
    assert!(delete_accepted(&DeleteResponse::Status(204)));
    assert!(delete_accepted(&DeleteResponse::Status(404)));
    assert!(!delete_accepted(&DeleteResponse::Status(500)));
    assert_eq!(classify_delete(&DeleteResponse::Status(409)), DeleteOutcome::InUse);
    assert_eq!(classify_delete(&DeleteResponse::Status(500)), DeleteOutcome::Failed);
    assert_eq!(classify_delete(&DeleteResponse::TransportError("reset".into())), DeleteOutcome::Failed);
    assert_eq!(classify_delete(&DeleteResponse::Status(202)), DeleteOutcome::Deleted);
}

#[test]
fn security_groups_come_after_load_balancers_and_ports() {
    assert_eq!(pre_destroy_plan(), vec![Stage::LoadBalancers, Stage::OctaviaPorts]);
    assert_eq!(post_destroy_plan(), vec![Stage::FloatingIps, Stage::LoadBalancerPorts, Stage::SecurityGroups]);
    let mut issued = Vec::new();
    let mut run = CleanupRun::new(post_destroy_plan());
    while let Some(stage) = run.current_stage() {
        run.begin_stage(true, vec!["a".to_string(), "b".to_string()]);
        while let Some(id) = run.next_target() {
            issued.push((stage, id.clone()));
            if stage == Stage::LoadBalancers {
                run.record_lb_delete(&DeleteResponse::Status(204), PollState::Completed);
            } else {
                run.record(DeleteOutcome::Deleted);
            }
        }
    }
    let first_group = issued.iter().position(|(s, _)| *s == Stage::SecurityGroups).unwrap();
    assert!(issued[first_group..].iter().all(|(s, _)| *s == Stage::SecurityGroups));
    assert_eq!(issued.len(), 6);
}

#[test]
fn a_failed_delete_does_not_stop_the_stage() {
    let mut run = CleanupRun::new(pre_destroy_plan());
    run.begin_stage(true, vec!["lb1".to_string(), "lb2".to_string(), "lb3".to_string()]);
    assert_eq!(run.next_target().unwrap(), "lb1");
    run.record_lb_delete(&DeleteResponse::Status(204), PollState::TimedOut);
    assert_eq!(run.next_target().unwrap(), "lb2");
    run.record_lb_delete(&DeleteResponse::Status(404), PollState::Completed);
    run.record_lb_delete(&DeleteResponse::Status(500), PollState::Waiting);
    assert_eq!(run.current_stage(), Some(Stage::OctaviaPorts));
    assert_eq!(
        run.reports()[0],
        StageReport { stage: Stage::LoadBalancers, listed: true, candidates: 3, deleted: 1, in_use: 0, failed: 2 }
    );
    run.begin_stage(true, vec!["port-a".to_string(), "port-b".to_string()]);
    run.record(DeleteOutcome::Failed);
    run.record(DeleteOutcome::InUse);
    assert_eq!(
        run.reports()[1],
        StageReport { stage: Stage::OctaviaPorts, listed: true, candidates: 2, deleted: 0, in_use: 1, failed: 1 }
    );
    assert_eq!(run.current_stage(), None);
    let mut run = CleanupRun::new(pre_destroy_plan());
    run.begin_stage(true, Vec::new());
    run.begin_stage(false, Vec::new());
    assert_eq!(run.current_stage(), None);
    assert!(!run.reports()[1].listed);
}

#[test]
fn a_poll_that_sees_404_completes() {
    let trace = vec![(0, PollResponse::Present(Some("PENDING_DELETE".into()))), (5, PollResponse::Gone)];
    assert_eq!(run_poll(120, &trace), PollState::Completed);
}

#[test]
fn a_poll_that_sees_error_completes() {
    let trace = vec![(0, PollResponse::Unreadable), (5, PollResponse::Present(Some("ERROR".into())))];
    assert_eq!(run_poll(120, &trace), PollState::Completed);
    let trace = vec![(0, PollResponse::Present(Some("DELETED".into())))];
    assert_eq!(run_poll(120, &trace), PollState::Completed);
}

#[test]
fn a_poll_that_never_ends_times_out() {
    let mut trace = Vec::new();
    let mut t = 0;
    while t <= 125 {
        trace.push((t, PollResponse::Present(Some("PENDING_DELETE".into()))));
        t += 5;
    }
    assert_eq!(run_poll(120, &trace), PollState::TimedOut);
    let mut poll = LbDeletionPoll::new(120);
    assert_eq!(poll.interval_secs, 5);
    assert!(poll.before_check(120));
    poll.observe(&PollResponse::Unreadable);
    assert!(poll.outcome().is_none());
    assert!(!poll.before_check(121));
    match poll.outcome() {
        Some(Err(OpenStackError::CleanupTimeout { resource })) => assert_eq!(resource, "load balancer"),
        _ => panic!("expected a timeout"),
    }
}

#[test]
fn orphan_sweep_and_load_balancer_outcomes() {
    assert_eq!(orphan_sweep_plan(false), vec![Stage::LoadBalancerPorts, Stage::FloatingIps]);
    assert_eq!(
        orphan_sweep_plan(true),
        vec![Stage::LoadBalancers, Stage::LoadBalancerPorts, Stage::NetworkPorts, Stage::FloatingIps]
    );
    assert_eq!(lb_delete_outcome(&DeleteResponse::Status(204), PollState::Completed), DeleteOutcome::Deleted);
    assert_eq!(lb_delete_outcome(&DeleteResponse::Status(404), PollState::Completed), DeleteOutcome::Deleted);
    assert_eq!(lb_delete_outcome(&DeleteResponse::Status(204), PollState::TimedOut), DeleteOutcome::Failed);
    assert_eq!(lb_delete_outcome(&DeleteResponse::Status(500), PollState::Waiting), DeleteOutcome::Failed);
}
