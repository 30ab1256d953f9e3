use im_deploy::domain::cluster::{CloudProvider, ClusterInfo, ServerInfo};

#[test]
fn test_server_info_is_server() {
    let server = ServerInfo {
        name: "k3s-server-0".to_string(),
        ip: "10.0.0.1".to_string(),
        cloud_provider: "openstack".to_string(),
        tailscale_hostname: None,
    };
    assert!(server.is_server());
    assert!(!server.is_agent());
}

#[test]
fn test_server_info_is_agent() {
    let agent = ServerInfo {
        name: "k3s-agent-0".to_string(),
        ip: "10.0.0.2".to_string(),
        cloud_provider: "openstack".to_string(),
        tailscale_hostname: None,
    };
    assert!(!agent.is_server());
    assert!(agent.is_agent());
}

#[test]
fn test_cloud_provider_counts() {
    let provider = CloudProvider {
        name: "OpenStack".to_string(),
        bastion_ip: Some("1.2.3.4".to_string()),
        tailscale_enabled: false,
        servers: vec![
            ServerInfo {
                name: "k3s-server-0".to_string(),
                ip: "10.0.0.1".to_string(),
                cloud_provider: "openstack".to_string(),
                tailscale_hostname: None,
            },
            ServerInfo {
                name: "k3s-agent-0".to_string(),
                ip: "10.0.0.2".to_string(),
                cloud_provider: "openstack".to_string(),
                tailscale_hostname: None,
            },
            ServerInfo {
                name: "k3s-agent-1".to_string(),
                ip: "10.0.0.3".to_string(),
                cloud_provider: "openstack".to_string(),
                tailscale_hostname: None,
            },
        ],
    };

    assert_eq!(provider.server_count(), 1);
    assert_eq!(provider.agent_count(), 2);
    assert_eq!(provider.total_nodes(), 3);
}

#[test]
fn test_cloud_provider_get_first_server() {
    let provider = CloudProvider {
        name: "OpenStack".to_string(),
        bastion_ip: None,
        tailscale_enabled: true,
        servers: vec![
            ServerInfo {
                name: "k3s-agent-0".to_string(),
                ip: "10.0.0.2".to_string(),
                cloud_provider: "openstack".to_string(),
                tailscale_hostname: None,
            },
            ServerInfo {
                name: "k3s-server-0".to_string(),
                ip: "10.0.0.1".to_string(),
                cloud_provider: "openstack".to_string(),
                tailscale_hostname: Some("server-0.tailscale.net".to_string()),
            },
        ],
    };

    let first_server = provider.get_first_server();
    assert!(first_server.is_some());
    assert_eq!(first_server.unwrap().name, "k3s-server-0");
}

#[test]
fn test_cluster_info_total_nodes_multiple_providers() {
    let cluster_info = ClusterInfo {
        cluster_name: "multi-cloud".to_string(),
        providers: vec![
            CloudProvider {
                name: "OpenStack".to_string(),
                bastion_ip: None,
                tailscale_enabled: true,
                servers: vec![
                    ServerInfo {
                        name: "k3s-server-0".to_string(),
                        ip: "10.0.0.1".to_string(),
                        cloud_provider: "openstack".to_string(),
                        tailscale_hostname: None,
                    },
                    ServerInfo {
                        name: "k3s-agent-0".to_string(),
                        ip: "10.0.0.2".to_string(),
                        cloud_provider: "openstack".to_string(),
                        tailscale_hostname: None,
                    },
                ],
            },
            CloudProvider {
                name: "AWS".to_string(),
                bastion_ip: Some("1.2.3.4".to_string()),
                tailscale_enabled: false,
                servers: vec![ServerInfo {
                    name: "k3s-agent-1".to_string(),
                    ip: "172.16.0.1".to_string(),
                    cloud_provider: "aws".to_string(),
                    tailscale_hostname: None,
                }],
            },
        ],
        primary_api_endpoint: None,
        gpu_enabled: false,
        argocd_enabled: false,
    };

    assert_eq!(cluster_info.total_expected_nodes(), 3);
}

#[test]
fn test_cluster_info_primary_provider_returns_first() {
    let cluster_info = ClusterInfo {
        cluster_name: "test".to_string(),
        providers: vec![
            CloudProvider {
                name: "Provider1".to_string(),
                bastion_ip: None,
                tailscale_enabled: false,
                servers: vec![],
            },
            CloudProvider {
                name: "Provider2".to_string(),
                bastion_ip: None,
                tailscale_enabled: false,
                servers: vec![],
            },
        ],
        primary_api_endpoint: None,
        gpu_enabled: false,
        argocd_enabled: false,
    };

    let primary = cluster_info.primary_provider();
    assert!(primary.is_some());
    assert_eq!(primary.unwrap().name, "Provider1");
}

#[test]
fn test_cloud_provider_empty_servers() {
    let provider = CloudProvider {
        name: "Empty".to_string(),
        bastion_ip: None,
        tailscale_enabled: false,
        servers: vec![],
    };

    assert_eq!(provider.server_count(), 0);
    assert_eq!(provider.agent_count(), 0);
    assert_eq!(provider.total_nodes(), 0);
    assert!(provider.get_first_server().is_none());
}
