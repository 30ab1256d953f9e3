//! The cluster topology and the values that commands read from Terraform's
//! outputs, and the rewrite of a fetched kubeconfig.

use vstd::prelude::*;
use crate::domain::cluster::{CloudProvider, ServerInfo};
use crate::errors::{concat3, decimal_text, u64_text, ImDeployError, Result, TerraformError};
use crate::json::{as_array, as_bool, as_text, field, field_of, output_value, output_value_of, Json};
use crate::text::{
    find_from, first_occurrence_from, lemma_first_occurrence, occurs_at, same_text, seq_contains, strip_leading, strip_trailing, trim_end_matches,
    trim_start_matches,
};

verus! {

/// A node as the contracts see it: name, address and Tailscale hostname.
pub open spec fn node_view(s: ServerInfo) -> (Seq<char>, Seq<char>, Option<Seq<char>>) {
    (s.name@, s.ip@, match s.tailscale_hostname {
        Some(h) => Some(h@),
        None => None,
    })
}

pub open spec fn node_views(s: Seq<ServerInfo>) -> Seq<(Seq<char>, Seq<char>, Option<Seq<char>>)> {
    s.map_values(|n: ServerInfo| node_view(n))
}

/// The hostname at position `i` of the hostname list, when it holds text there.
pub open spec fn hostname_at(names: Option<Seq<Json>>, i: int) -> Option<Seq<char>> {
    match names {
        Some(a) => if 0 <= i < a.len() {
            as_text(Some(a[i]))
        } else {
            None
        },
        None => None,
    }
}

/// The nodes of one role (`server` or `agent`): one for each address that is
/// text, named `k3s-<role>-<position>`, with the hostname at the same position.
pub open spec fn role_nodes(ips: Seq<Json>, role: Seq<char>, names: Option<Seq<Json>>) -> Seq<
    (Seq<char>, Seq<char>, Option<Seq<char>>),
>
    decreases ips.len(),
{
    if ips.len() == 0 {
        seq![]
    } else {
        let before = role_nodes(ips.drop_last(), role, names);
        let i = ips.len() - 1;
        match ips.last() {
            Json::Str(ip) => before.push(
                ("k3s-"@ + role + "-"@ + decimal_text(i), ip@, hostname_at(names, i)),
            ),
            _ => before,
        }
    }
}

pub open spec fn tailscale_enabled_in(outputs: Json) -> bool {
    as_bool(output_value(outputs, "tailscale_enabled"@)) == Some(true)
}

/// The hostname list `key` of `tailscale_hostnames`, read only when Tailscale is on.
pub open spec fn hostnames_in(outputs: Json, key: Seq<char>) -> Option<Seq<Json>> {
    if tailscale_enabled_in(outputs) {
        as_array(field_of(output_value(outputs, "tailscale_hostnames"@), key))
    } else {
        None
    }
}

/// The `openstack_cluster` output's value, unless it is absent or null.
pub open spec fn openstack_cluster_in(outputs: Json) -> Option<Json> {
    match output_value(outputs, "openstack_cluster"@) {
        Some(Json::Null) => None,
        v => v,
    }
}

pub open spec fn array_or_empty(j: Option<Json>) -> Seq<Json> {
    match as_array(j) {
        Some(a) => a,
        None => seq![],
    }
}

/// The OpenStack nodes that the outputs describe: servers, then agents.
pub open spec fn openstack_nodes(outputs: Json) -> Seq<(Seq<char>, Seq<char>, Option<Seq<char>>)> {
    match openstack_cluster_in(outputs) {
        Some(c) => role_nodes(
            array_or_empty(field(c, "server_ips"@)),
            "server"@,
            hostnames_in(outputs, "openstack_servers"@),
        ) + role_nodes(
            array_or_empty(field(c, "agent_ips"@)),
            "agent"@,
            hostnames_in(outputs, "openstack_agents"@),
        ),
        None => seq![],
    }
}

pub open spec fn opt_view(o: Option<String>) -> Option<Seq<char>> {
    match o {
        Some(s) => Some(s@),
        None => None,
    }
}

pub open spec fn opt_array_view(o: Option<&Vec<Json>>) -> Option<Seq<Json>> {
    match o {
        Some(a) => Some(a@),
        None => None,
    }
}

/// Every node is on the `openstack` provider.
pub open spec fn all_openstack(s: Seq<ServerInfo>) -> bool {
    forall|k: int| 0 <= k < s.len() ==> (#[trigger] s[k]).cloud_provider@ == "openstack"@
}

/// Appends the nodes of one role, read from the address list `ips`.
fn push_role_nodes(servers: &mut Vec<ServerInfo>, ips: &Vec<Json>, role: &str, names: Option<&Vec<Json>>)
    requires
        all_openstack(old(servers)@),
    ensures
        node_views(final(servers)@) == node_views(old(servers)@) + role_nodes(ips@, role@, opt_array_view(names)),
        all_openstack(final(servers)@),
{
    let ghost start = node_views(servers@);
    let mut i: usize = 0;
    while i < ips.len()
        invariant
            i <= ips@.len(),
            node_views(servers@) == start + role_nodes(ips@.subrange(0, i as int), role@, opt_array_view(names)),
            all_openstack(servers@),
        decreases ips@.len() - i,
    {
        proof {
            assert(ips@.subrange(0, i + 1).drop_last() =~= ips@.subrange(0, i as int));
            assert(ips@.subrange(0, i + 1).last() == ips@[i as int]);
        }
        if let Some(ip) = ips[i].as_str() {
            let tailscale_hostname: Option<String> = match names {
                Some(a) => if i < a.len() {
                    match a[i].as_str() {
                        Some(h) => Some(h.to_owned()),
                        None => None,
                    }
                } else {
                    None
                },
                None => None,
            };
            let index = u64_text(i as u64);
            let head = concat3("k3s-", role, "-");
            let name = head.concat(&index);
            let node = ServerInfo { name, ip: ip.to_owned(), cloud_provider: "openstack".to_owned(), tailscale_hostname };
            let ghost before = servers@;
            servers.push(node);
            assert(node_views(servers@) =~= node_views(before).push(node_view(node)));
        }
        i += 1;
    }
    assert(ips@.subrange(0, i as int) =~= ips@);
}

/// The cloud providers that Terraform's outputs describe (OpenStack alone), or
/// an error when they describe no node at all.
pub fn extract_cloud_providers(outputs: &Json) -> (r: Result<Vec<CloudProvider>>)
    ensures
        openstack_nodes(*outputs).len() == 0 ==> r matches Err(
            ImDeployError::Terraform(TerraformError::NoCloudProviders),
        ),
        openstack_nodes(*outputs).len() > 0 ==> (r matches Ok(ps) && ps@.len() == 1 && {
            let p = ps@[0];
            &&& p.name@ == "OpenStack"@
            &&& opt_view(p.bastion_ip) == as_text(field(openstack_cluster_in(*outputs)->0, "bastion_ip"@))
            &&& p.tailscale_enabled == tailscale_enabled_in(*outputs)
            &&& node_views(p.servers@) == openstack_nodes(*outputs)
            &&& all_openstack(p.servers@)
        }),
{
    let tailscale_enabled = match output_value_of(outputs, "tailscale_enabled") {
        Some(v) => match v.as_bool() {
            Some(b) => b,
            None => false,
        },
        None => false,
    };
    let hostnames = output_value_of(outputs, "tailscale_hostnames");
    let ts_servers: Option<&Vec<Json>> = if tailscale_enabled {
        match hostnames {
            Some(h) => match h.get("openstack_servers") {
                Some(a) => a.as_array(),
                None => None,
            },
            None => None,
        }
    } else {
        None
    };
    let ts_agents: Option<&Vec<Json>> = if tailscale_enabled {
        match hostnames {
            Some(h) => match h.get("openstack_agents") {
                Some(a) => a.as_array(),
                None => None,
            },
            None => None,
        }
    } else {
        None
    };
    let mut providers: Vec<CloudProvider> = Vec::new();
    if let Some(cluster) = output_value_of(outputs, "openstack_cluster") {
        if !cluster.is_null() {
            let bastion_ip: Option<String> = match cluster.get("bastion_ip") {
                Some(b) => match b.as_str() {
                    Some(s) => Some(s.to_owned()),
                    None => None,
                },
                None => None,
            };
            let mut servers: Vec<ServerInfo> = Vec::new();
            let empty: Vec<Json> = Vec::new();
            let server_ips = match cluster.get("server_ips") {
                Some(a) => match a.as_array() {
                    Some(v) => v,
                    None => &empty,
                },
                None => &empty,
            };
            push_role_nodes(&mut servers, server_ips, "server", ts_servers);
            let agent_ips = match cluster.get("agent_ips") {
                Some(a) => match a.as_array() {
                    Some(v) => v,
                    None => &empty,
                },
                None => &empty,
            };
            push_role_nodes(&mut servers, agent_ips, "agent", ts_agents);
            assert(node_views(Seq::<ServerInfo>::empty()) =~= seq![]);
            if servers.len() > 0 {
                providers.push(CloudProvider { name: "OpenStack".to_owned(), bastion_ip, tailscale_enabled, servers });
            }
        }
    }
    if providers.len() == 0 {
        return Err(ImDeployError::Terraform(TerraformError::NoCloudProviders));
    }
    Ok(providers)
}

/// The API server's address in an endpoint written `https://<ip>:6443`.
pub open spec fn endpoint_host(endpoint: Seq<char>) -> Seq<char> {
    strip_trailing(strip_leading(endpoint, "https://"@), ":6443"@)
}

/// The host part of an API endpoint: without its `https://` prefix and its
/// `:6443` suffix.
pub fn lb_ip_from_endpoint(endpoint: &str) -> (r: String)
    ensures
        r@ == endpoint_host(endpoint@),
{
    let rest = trim_start_matches(endpoint, "https://");
    trim_end_matches(&rest, ":6443")
}

/// The text member `key` of the `openstack_cluster` output.
pub open spec fn cluster_text(outputs: Json, key: Seq<char>) -> Option<Seq<char>> {
    as_text(field_of(output_value(outputs, "openstack_cluster"@), key))
}

/// `openstack_cluster.value.<key>` when it is text (the network id or the
/// cluster name that a destroy needs).
pub fn cluster_output(outputs: &Json, key: &str) -> (r: Option<String>)
    ensures
        opt_view(r) == cluster_text(*outputs, key@),
{
    match output_value_of(outputs, "openstack_cluster") {
        Some(c) => match c.get(key) {
            Some(v) => match v.as_str() {
                Some(t) => Some(t.to_owned()),
                None => None,
            },
            None => None,
        },
        None => None,
    }
}

/// The load balancer's floating IP: from `primary_api_endpoint` when it is
/// there, else, for OpenStack, from the cluster's `loadbalancer_ip`.
pub fn load_balancer_ip(outputs: &Json, provider_name: &str) -> (r: Result<String>)
    ensures
        match as_text(output_value(*outputs, "primary_api_endpoint"@)) {
            Some(e) => r matches Ok(ip) && ip@ == endpoint_host(e),
            None => if provider_name@ == "OpenStack"@ && cluster_text(*outputs, "loadbalancer_ip"@) is Some {
                r matches Ok(ip) && ip@ == cluster_text(*outputs, "loadbalancer_ip"@)->0
            } else {
                r matches Err(ImDeployError::Terraform(TerraformError::ResourceNotFound { resource }))
                    && resource@ == "load balancer IP"@
            },
        },
{
    if let Some(e) = output_value_of(outputs, "primary_api_endpoint") {
        if let Some(endpoint) = e.as_str() {
            return Ok(lb_ip_from_endpoint(endpoint));
        }
    }
    if same_text(provider_name, "OpenStack") {
        if let Some(ip) = cluster_output(outputs, "loadbalancer_ip") {
            return Ok(ip);
        }
    }
    Err(ImDeployError::Terraform(TerraformError::ResourceNotFound { resource: "load balancer IP".to_owned() }))
}

/// `kubeconfig` with the host of its first `server: https://<host>:6443` line
/// replaced by `ip`; unchanged when it has no such entry.
pub open spec fn rewritten_kubeconfig(kubeconfig: Seq<char>, ip: Seq<char>) -> Seq<char> {
    match first_occurrence_from(kubeconfig, "server: https://"@, 0) {
        Some(start) => match first_occurrence_from(kubeconfig, ":6443"@, start + 16) {
            Some(port) => kubeconfig.subrange(0, start + 16) + ip + kubeconfig.subrange(port, kubeconfig.len() as int),
            None => kubeconfig,
        },
        None => kubeconfig,
    }
}

/// Points a fetched kubeconfig at the load balancer's floating IP.
pub fn rewrite_kubeconfig_server(kubeconfig: &str, ip: &str) -> (r: String)
    ensures
        r@ == rewritten_kubeconfig(kubeconfig@, ip@),
{
    proof {
        reveal_strlit("server: https://");
    }
    let n = kubeconfig.unicode_len();
    match find_from(kubeconfig, "server: https://", 0) {
        Some(start) => {
            let cut = start + 16;
            match find_from(kubeconfig, ":6443", cut) {
                Some(port) => {
                    let head = kubeconfig.substring_char(0, cut);
                    let tail = kubeconfig.substring_char(port, n);
                    concat3(head, ip, tail)
                },
                None => kubeconfig.to_owned(),
            }
        },
        None => kubeconfig.to_owned(),
    }
}

/// No proper prefix of `m` is also a suffix of it, so two occurrences of `m`
/// never overlap.
pub open spec fn border_free(m: Seq<char>) -> bool {
    forall|l: int| 0 < l < m.len() ==> #[trigger] m.subrange(0, l) != m.subrange(m.len() - l, m.len() as int)
}

proof fn lemma_markers_border_free()
    ensures
        border_free("server: https://"@),
        border_free(":6443"@),
{
    reveal_strlit("server: https://");
    reveal_strlit(":6443");
    let m = "server: https://"@;
    assert forall|l: int| 0 < l < m.len() implies #[trigger] m.subrange(0, l) != m.subrange(m.len() - l, m.len() as int) by {
        if m.subrange(0, l) == m.subrange(m.len() - l, m.len() as int) {
            assert(m.subrange(0, l)[0] == m.subrange(m.len() - l, m.len() as int)[0]);
            if l > 1 {
                assert(m.subrange(0, l)[1] == m.subrange(m.len() - l, m.len() as int)[1]);
            }
        }
    }
    let n = ":6443"@;
    assert forall|l: int| 0 < l < n.len() implies #[trigger] n.subrange(0, l) != n.subrange(n.len() - l, n.len() as int) by {
        if n.subrange(0, l) == n.subrange(n.len() - l, n.len() as int) {
            assert(n.subrange(0, l)[0] == n.subrange(n.len() - l, n.len() as int)[0]);
        }
    }
}

/// With a border-free `m` at `start`, and no whole occurrence of `m` between
/// `from` and `start`, the first occurrence from `from` on is at `start`.
#[verifier::rlimit(40)]
proof fn lemma_first_at(k: Seq<char>, m: Seq<char>, from: int, start: int)
    requires
        m.len() > 0,
        border_free(m),
        0 <= from <= start,
        occurs_at(k, m, start),
        forall|i: int| from <= i && i + m.len() <= start ==> !occurs_at(k, m, i),
    ensures
        first_occurrence_from(k, m, from) == Some(start),
{
    assert forall|j: int| from <= j < start implies !occurs_at(k, m, j) by {
        if occurs_at(k, m, j) && j + m.len() > start {
            let l = j + m.len() - start;
            assert(m.subrange(0, l) =~= k.subrange(start, j + m.len()));
            assert(m.subrange(m.len() - l, m.len() as int) =~= k.subrange(start, j + m.len()));
            assert(m.subrange(0, l) != m.subrange(m.len() - l, m.len() as int));
        }
    }
    lemma_first_occurrence(k, m, from, start);
}

proof fn lemma_server_marker(p: Seq<char>, rest: Seq<char>)
    requires
        !seq_contains(p, "server: https://"@),
    ensures
        first_occurrence_from(p + "server: https://"@ + rest, "server: https://"@, 0) == Some(p.len() as int),
{
    reveal_strlit("server: https://");
    lemma_markers_border_free();
    let m = "server: https://"@;
    let k = p + m + rest;
    let start = p.len() as int;
    assert(k.subrange(start, start + 16) =~= m);
    assert forall|i: int| 0 <= i && i + m.len() <= start implies !occurs_at(k, m, i) by {
        assert(k.subrange(i, i + 16) =~= p.subrange(i, i + 16));
        if occurs_at(k, m, i) {
            assert(occurs_at(p, m, i));
        }
    }
    lemma_first_at(k, m, 0, start);
}

proof fn lemma_port_marker(front: Seq<char>, h: Seq<char>, r: Seq<char>)
    requires
        !seq_contains(h, ":6443"@),
    ensures
        first_occurrence_from(front + h + ":6443"@ + r, ":6443"@, front.len() as int) == Some(
            (front.len() + h.len()) as int,
        ),
{
    reveal_strlit(":6443");
    lemma_markers_border_free();
    let n = ":6443"@;
    let k = front + h + n + r;
    let cut = front.len() as int;
    let port = cut + h.len();
    assert(k.subrange(port, port + 5) =~= n);
    assert forall|j: int| cut <= j && j + n.len() <= port implies !occurs_at(k, n, j) by {
        assert(k.subrange(j, j + 5) =~= h.subrange(j - cut, j - cut + 5));
        if occurs_at(k, n, j) {
            assert(occurs_at(h, n, j - cut));
        }
    }
    lemma_first_at(k, n, cut, port);
}

/// Rewriting a kubeconfig `p + "server: https://" + h + ":6443" + r`, where `p`
/// holds no `server: https://` and `h` no `:6443`, replaces `h` by the address
/// and leaves everything else as it was.
#[verifier::spinoff_prover]
#[verifier::rlimit(60)]
pub proof fn lemma_kubeconfig_rewrite(p: Seq<char>, h: Seq<char>, r: Seq<char>, ip: Seq<char>)
    requires
        !seq_contains(p, "server: https://"@),
        !seq_contains(h, ":6443"@),
    ensures
        rewritten_kubeconfig(p + "server: https://"@ + h + ":6443"@ + r, ip) == p + "server: https://"@ + ip
            + ":6443"@ + r,
{
    reveal_strlit("server: https://");
    let m = "server: https://"@;
    let n = ":6443"@;
    let front = p + m;
    let k = front + h + n + r;
    assert(k =~= p + m + (h + n + r));
    lemma_server_marker(p, h + n + r);
    lemma_port_marker(front, h, r);
    let cut = front.len() as int;
    let port = cut + h.len();
    assert(cut == p.len() + 16);
    assert(k.subrange(0, cut) =~= front);
    assert(k.subrange(port, k.len() as int) =~= n + r);
    assert(rewritten_kubeconfig(k, ip) == k.subrange(0, cut) + ip + k.subrange(port, k.len() as int));
    assert(front + ip + (n + r) =~= p + m + ip + n + r);
}

} // verus!
