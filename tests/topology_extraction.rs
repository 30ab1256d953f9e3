use im_deploy::json::Json;
use im_deploy::topology::{
    cluster_output, extract_cloud_providers, lb_ip_from_endpoint, load_balancer_ip,
    rewrite_kubeconfig_server,
};
use im_deploy::errors::{ImDeployError, TerraformError};

fn obj(members: Vec<(&str, Json)>) -> Json {
    let mut keys = Vec::new();
    let mut values = Vec::new();
    for (k, v) in members {
        keys.push(k.to_string());
        values.push(v);
    }
    Json::Object(keys, values)
}

fn text(s: &str) -> Json {
    Json::Str(s.to_string())
}

fn texts(items: &[&str]) -> Json {
    Json::Array(items.iter().map(|s| text(s)).collect())
}

fn output(v: Json) -> Json {
    obj(vec![("value", v)])
}

fn sample_outputs(tailscale: bool) -> Json {
    obj(vec![
        (
            "openstack_cluster",
            output(obj(vec![
                ("bastion_ip", text("1.2.3.4")),
                ("cluster_name", text("test-cluster")),
                ("network_id", text("net-12345")),
                ("loadbalancer_ip", text("5.6.7.8")),
                ("server_ips", texts(&["10.0.1.10", "10.0.1.11", "10.0.1.12"])),
                ("agent_ips", texts(&["10.0.2.10", "10.0.2.11"])),
            ])),
        ),
        ("tailscale_enabled", output(Json::Bool(tailscale))),
        (
            "tailscale_hostnames",
            output(obj(vec![
                ("openstack_servers", texts(&["k3s-server-0.tailnet.ts.net", "k3s-server-1.tailnet.ts.net", "k3s-server-2.tailnet.ts.net"])),
                ("openstack_agents", texts(&["k3s-agent-0.tailnet.ts.net", "k3s-agent-1.tailnet.ts.net"])),
            ])),
        ),
        ("primary_api_endpoint", output(text("https://5.6.7.8:6443"))),
    ])
}

#[test]
fn topology_has_three_servers_and_two_agents_with_aligned_hostnames() {
    let providers = extract_cloud_providers(&sample_outputs(true)).ok().unwrap();
    assert_eq!(providers.len(), 1);
    let p = &providers[0];
    assert_eq!(p.name, "OpenStack");
    assert_eq!(p.bastion_ip.as_deref(), Some("1.2.3.4"));
    assert!(p.tailscale_enabled);
    assert_eq!(p.server_count(), 3);
    assert_eq!(p.agent_count(), 2);
    assert_eq!(p.servers[0].name, "k3s-server-0");
    assert_eq!(p.servers[2].ip, "10.0.1.12");
    assert_eq!(p.servers[2].tailscale_hostname.as_deref(), Some("k3s-server-2.tailnet.ts.net"));
    assert_eq!(p.servers[3].name, "k3s-agent-0");
    assert_eq!(p.servers[4].tailscale_hostname.as_deref(), Some("k3s-agent-1.tailnet.ts.net"));
    assert_eq!(p.servers[4].cloud_provider, "openstack");
}

#[test]
fn topology_without_tailscale_has_no_hostnames() {
    let providers = extract_cloud_providers(&sample_outputs(false)).ok().unwrap();
    assert!(!providers[0].tailscale_enabled);
    assert!(providers[0].servers.iter().all(|s| s.tailscale_hostname.is_none()));
}

#[test]
fn empty_outputs_give_no_provider() {
    match extract_cloud_providers(&obj(vec![])) {
        Err(ImDeployError::Terraform(e @ TerraformError::NoCloudProviders)) => assert_eq!(
            e.message(),
            "No cloud providers found in terraform outputs. Has the cluster been deployed?"
        ),
        _ => panic!("expected no provider"),
    }
    let null_cluster = obj(vec![("openstack_cluster", output(Json::Null))]);
    assert!(extract_cloud_providers(&null_cluster).is_err());
}

#[test]
fn load_balancer_ip_comes_from_the_api_endpoint() {
    assert_eq!(lb_ip_from_endpoint("https://5.6.7.8:6443"), "5.6.7.8");
    assert_eq!(lb_ip_from_endpoint("https://https://9.9.9.9:6443:6443"), "9.9.9.9");
    assert_eq!(load_balancer_ip(&sample_outputs(true), "OpenStack").ok(), Some("5.6.7.8".to_string()));
    let direct = obj(vec![("openstack_cluster", output(obj(vec![("loadbalancer_ip", text("7.7.7.7"))])))]);
    assert_eq!(load_balancer_ip(&direct, "OpenStack").ok(), Some("7.7.7.7".to_string()));
    match load_balancer_ip(&direct, "AWS") {
        Err(e) => assert!(e.message().contains("load balancer IP")),
        Ok(_) => panic!("expected no address"),
    }
}

#[test]
fn cluster_outputs_for_destroy() {
    let o = sample_outputs(true);
    assert_eq!(cluster_output(&o, "network_id"), Some("net-12345".to_string()));
    assert_eq!(cluster_output(&o, "cluster_name"), Some("test-cluster".to_string()));
    assert_eq!(cluster_output(&o, "missing"), None);
}

#[test]
fn kubeconfig_server_is_rewritten_and_nothing_else() {
    let k = "apiVersion: v1\nclusters:\n- cluster:\n    server: https://10.0.0.5:6443\n  name: default\n";
    let r = rewrite_kubeconfig_server(k, "5.6.7.8");
    assert_eq!(r, "apiVersion: v1\nclusters:\n- cluster:\n    server: https://5.6.7.8:6443\n  name: default\n");
    assert_eq!(rewrite_kubeconfig_server("no server here", "1.1.1.1"), "no server here");
    assert_eq!(rewrite_kubeconfig_server("server: https://host:443", "1.1.1.1"), "server: https://host:443");
}
