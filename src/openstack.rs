//! OpenStack resources, their ownership rules and the authenticated session's
//! endpoints.
//!
//! Kubernetes creates load balancers, ports, floating IPs and security groups
//! that Terraform does not track. The rules here decide which of them a cleanup
//! may delete; Terraform-owned load balancers (named `*-lb`) are never chosen.

use vstd::prelude::*;
use crate::errors::{concat2, concat3, i32_text, decimal_text, OpenStackError};
use crate::text::{
    contains, ends_with, same_text, replace_all, replace_all_text, seq_contains, seq_ends_with,
    seq_starts_with, starts_with, to_lower, lower_of,
};

verus! {

#[derive(Debug, Clone)]
pub struct LoadBalancer {
    pub id: String,
    pub name: String,
    pub vip_network_id: String,
    pub provisioning_status: String,
}

#[derive(Debug, Clone)]
pub struct Port {
    pub id: String,
    pub name: String,
    pub device_owner: String,
    pub network_id: String,
}

#[derive(Debug, Clone)]
pub struct FloatingIp {
    pub id: String,
    pub floating_ip_address: String,
    pub status: String,
    pub port_id: Option<String>,
}

#[derive(Debug, Clone)]
pub struct SecurityGroup {
    pub id: String,
    pub name: String,
    pub description: String,
}

#[derive(Debug, Clone)]
pub struct Volume {
    pub id: String,
    pub name: String,
    pub size: u32,
    pub status: String,
}

/// A load balancer name that Kubernetes' cloud controller gives, and that no
/// Terraform-managed load balancer (`*-lb`) has.
pub open spec fn is_kubernetes_lb_name(name: Seq<char>) -> bool {
    (seq_starts_with(name, "kube_service_"@) || seq_starts_with(name, "kube-"@))
        && !seq_ends_with(name, "-lb"@)
}

/// A load balancer that the pre-destroy cleanup deletes.
pub open spec fn is_lb_candidate(lb: LoadBalancer, network_id: Seq<char>) -> bool {
    lb.vip_network_id@ == network_id && is_kubernetes_lb_name(lb.name@)
}

/// A Terraform-managed load balancer on the network.
pub open spec fn is_terraform_lb(lb: LoadBalancer, network_id: Seq<char>) -> bool {
    lb.vip_network_id@ == network_id && seq_ends_with(lb.name@, "-lb"@)
}

/// Positions of the load balancers in `lbs` that the cleanup deletes, in order.
pub open spec fn lb_candidates(lbs: Seq<LoadBalancer>, network_id: Seq<char>) -> Seq<usize>
    decreases lbs.len(),
{
    if lbs.len() == 0 {
        seq![]
    } else {
        let before = lb_candidates(lbs.drop_last(), network_id);
        if is_lb_candidate(lbs.last(), network_id) {
            before.push((lbs.len() - 1) as usize)
        } else {
            before
        }
    }
}

pub fn is_kubernetes_lb(name: &str) -> (r: bool)
    ensures
        r == is_kubernetes_lb_name(name@),
{
    (starts_with(name, "kube_service_") || starts_with(name, "kube-")) && !ends_with(name, "-lb")
}

/// The positions, in increasing order, of the load balancers on `network_id`
/// that Kubernetes created.
pub fn select_lb_candidates(lbs: &Vec<LoadBalancer>, network_id: &str) -> (r: Vec<usize>)
    ensures
        r@ == lb_candidates(lbs@, network_id@),
{
    let mut out: Vec<usize> = Vec::new();
    let mut i: usize = 0;
    while i < lbs.len()
        invariant
            i <= lbs@.len(),
            out@ == lb_candidates(lbs@.subrange(0, i as int), network_id@),
        decreases lbs@.len() - i,
    {
        proof {
            assert(lbs@.subrange(0, i + 1).drop_last() =~= lbs@.subrange(0, i as int));
            assert(lbs@.subrange(0, i + 1).last() == lbs@[i as int]);
        }
        let lb = &lbs[i];
        if same_text(&lb.vip_network_id, network_id) && is_kubernetes_lb(&lb.name) {
            out.push(i);
        }
        i += 1;
    }
    assert(lbs@.subrange(0, i as int) =~= lbs@);
    out
}

proof fn lemma_lb_candidates(lbs: Seq<LoadBalancer>, network_id: Seq<char>)
    requires
        lbs.len() <= usize::MAX,
    ensures
        forall|k: int| 0 <= k < lb_candidates(lbs, network_id).len() ==> {
            let i = #[trigger] lb_candidates(lbs, network_id)[k];
            i < lbs.len() && is_lb_candidate(lbs[i as int], network_id)
        },
        forall|k1: int, k2: int|
            0 <= k1 < k2 < lb_candidates(lbs, network_id).len() ==> lb_candidates(lbs, network_id)[k1]
                < lb_candidates(lbs, network_id)[k2],
        forall|i: int| 0 <= i < lbs.len() && is_lb_candidate(lbs[i], network_id) ==>
            lb_candidates(lbs, network_id).contains(i as usize),
    decreases lbs.len(),
{
    if lbs.len() > 0 {
        let pre = lbs.drop_last();
        lemma_lb_candidates(pre, network_id);
        let before = lb_candidates(pre, network_id);
        let r = lb_candidates(lbs, network_id);
        assert forall|k: int| 0 <= k < r.len() implies {
            let i = #[trigger] r[k];
            i < lbs.len() && is_lb_candidate(lbs[i as int], network_id)
        } by {
            if k < before.len() {
                assert(r[k] == before[k]);
                assert(lbs[before[k] as int] == pre[before[k] as int]);
            } else {
                assert(r[k] == (lbs.len() - 1) as usize);
            }
        }
        assert forall|k1: int, k2: int| 0 <= k1 < k2 < r.len() implies r[k1] < r[k2] by {
            if k2 < before.len() {
                assert(r[k1] == before[k1] && r[k2] == before[k2]);
            } else {
                assert(r[k1] == before[k1]);
                assert(before[k1] < pre.len());
            }
        }
        assert forall|i: int| 0 <= i < lbs.len() && is_lb_candidate(lbs[i], network_id) implies
            r.contains(i as usize) by {
            if i < lbs.len() - 1 {
                assert(pre[i] == lbs[i]);
                let k = choose|k: int| 0 <= k < before.len() && before[k] == i as usize;
                assert(r[k] == i as usize);
            } else {
                assert(r[r.len() - 1] == i as usize);
            }
        }
    }
}

/// A load balancer that Terraform manages is never chosen for deletion,
/// whatever network it is on.
pub proof fn lemma_terraform_lbs_never_chosen(lbs: Seq<LoadBalancer>, network_id: Seq<char>)
    requires
        lbs.len() <= usize::MAX,
    ensures
        forall|k: int| 0 <= k < lb_candidates(lbs, network_id).len() ==> !seq_ends_with(
            lbs[#[trigger] lb_candidates(lbs, network_id)[k] as int].name@,
            "-lb"@,
        ),
{
    lemma_lb_candidates(lbs, network_id);
    assert forall|k: int| 0 <= k < lb_candidates(lbs, network_id).len() implies !seq_ends_with(
        lbs[#[trigger] lb_candidates(lbs, network_id)[k] as int].name@,
        "-lb"@,
    ) by {
        let i = lb_candidates(lbs, network_id)[k];
        assert(is_lb_candidate(lbs[i as int], network_id));
    }
}

/// Every Kubernetes-created load balancer on the network is chosen for deletion
/// exactly once.
pub proof fn lemma_kubernetes_lbs_chosen_once(lbs: Seq<LoadBalancer>, network_id: Seq<char>, i: int)
    requires
        lbs.len() <= usize::MAX,
        0 <= i < lbs.len(),
        lbs[i].vip_network_id@ == network_id,
        seq_starts_with(lbs[i].name@, "kube_service_"@) || seq_starts_with(lbs[i].name@, "kube-"@),
        !seq_ends_with(lbs[i].name@, "-lb"@),
    ensures
        exists|k: int|
            0 <= k < lb_candidates(lbs, network_id).len() && lb_candidates(lbs, network_id)[k] == i,
        forall|k1: int, k2: int|
            0 <= k1 < lb_candidates(lbs, network_id).len() && 0 <= k2 < lb_candidates(lbs, network_id).len()
                && lb_candidates(lbs, network_id)[k1] == i && lb_candidates(lbs, network_id)[k2] == i
                ==> k1 == k2,
{
    lemma_lb_candidates(lbs, network_id);
    let r = lb_candidates(lbs, network_id);
    assert(r.contains(i as usize));
    let k0 = choose|k: int| 0 <= k < r.len() && r[k] == i as usize;
    assert(0 <= k0 < r.len() && r[k0] == i);
    assert forall|k1: int, k2: int|
        0 <= k1 < r.len() && 0 <= k2 < r.len() && r[k1] == i && r[k2] == i implies k1 == k2 by {
        if k1 < k2 {
            assert(r[k1] < r[k2]);
        } else if k2 < k1 {
            assert(r[k2] < r[k1]);
        }
    }
}


/// Who created a port, read from the prefix of its device owner.
#[derive(Debug, Clone, Copy, PartialEq, Eq, Structural)]
pub enum PortOwner {
    Compute,
    Router,
    Dhcp,
    LoadBalancer,
    Unclassified,
}

pub open spec fn is_octavia_owner(owner: Seq<char>) -> bool {
    seq_starts_with(owner, "Octavia"@) || seq_starts_with(owner, "octavia"@)
}

pub open spec fn port_owner_of(owner: Seq<char>) -> PortOwner {
    if seq_starts_with(owner, "compute:"@) {
        PortOwner::Compute
    } else if seq_starts_with(owner, "network:router_"@) {
        PortOwner::Router
    } else if seq_starts_with(owner, "network:dhcp"@) {
        PortOwner::Dhcp
    } else if is_octavia_owner(owner) {
        PortOwner::LoadBalancer
    } else {
        PortOwner::Unclassified
    }
}

/// Compute, router and DHCP ports are never deleted.
pub open spec fn is_protected_owner(owner: PortOwner) -> bool {
    owner == PortOwner::Compute || owner == PortOwner::Router || owner == PortOwner::Dhcp
}

pub fn is_octavia_port_owner(owner: &str) -> (r: bool)
    ensures
        r == is_octavia_owner(owner@),
{
    starts_with(owner, "Octavia") || starts_with(owner, "octavia")
}

pub fn classify_port(owner: &str) -> (r: PortOwner)
    ensures
        r == port_owner_of(owner@),
{
    if starts_with(owner, "compute:") {
        PortOwner::Compute
    } else if starts_with(owner, "network:router_") {
        PortOwner::Router
    } else if starts_with(owner, "network:dhcp") {
        PortOwner::Dhcp
    } else if is_octavia_port_owner(owner) {
        PortOwner::LoadBalancer
    } else {
        PortOwner::Unclassified
    }
}

/// Ids of the Terraform-managed load balancers of `lbs` on the network, in order.
pub open spec fn terraform_lb_ids(lbs: Seq<LoadBalancer>, network_id: Seq<char>) -> Seq<Seq<char>>
    decreases lbs.len(),
{
    if lbs.len() == 0 {
        seq![]
    } else {
        let before = terraform_lb_ids(lbs.drop_last(), network_id);
        if is_terraform_lb(lbs.last(), network_id) {
            before.push(lbs.last().id@)
        } else {
            before
        }
    }
}

/// The ids of the Terraform-managed load balancers on `network_id`.
pub fn select_terraform_lb_ids(lbs: &Vec<LoadBalancer>, network_id: &str) -> (r: Vec<String>)
    ensures
        r@.map_values(|s: String| s@) == terraform_lb_ids(lbs@, network_id@),
{
    let mut out: Vec<String> = Vec::new();
    let mut i: usize = 0;
    while i < lbs.len()
        invariant
            i <= lbs@.len(),
            out@.map_values(|s: String| s@) == terraform_lb_ids(lbs@.subrange(0, i as int), network_id@),
        decreases lbs@.len() - i,
    {
        proof {
            assert(lbs@.subrange(0, i + 1).drop_last() =~= lbs@.subrange(0, i as int));
            assert(lbs@.subrange(0, i + 1).last() == lbs@[i as int]);
        }
        let lb = &lbs[i];
        if same_text(&lb.vip_network_id, network_id) && ends_with(&lb.name, "-lb") {
            let ghost before = out@;
            out.push(lb.id.clone());
            assert(out@.map_values(|s: String| s@) =~= before.map_values(|s: String| s@).push(lb.id@));
        }
        i += 1;
    }
    assert(lbs@.subrange(0, i as int) =~= lbs@);
    out
}

/// The port's name refers to none of `ids`.
pub open spec fn names_none_of(name: Seq<char>, ids: Seq<Seq<char>>) -> bool {
    forall|k: int| 0 <= k < ids.len() ==> !seq_contains(name, #[trigger] ids[k])
}

/// A port that the pre-destroy cleanup deletes: created by Octavia, and not
/// serving a Terraform-managed load balancer (whose id its name would hold).
pub open spec fn is_octavia_port_target(p: Port, terraform_ids: Seq<Seq<char>>) -> bool {
    is_octavia_owner(p.device_owner@) && names_none_of(p.name@, terraform_ids)
}

/// Whether `name` holds none of `ids`.
pub fn name_refers_to_none(name: &str, ids: &Vec<String>) -> (r: bool)
    ensures
        r == names_none_of(name@, ids@.map_values(|s: String| s@)),
{
    let ghost v = ids@.map_values(|s: String| s@);
    let mut k: usize = 0;
    while k < ids.len()
        invariant
            k <= ids@.len(),
            v == ids@.map_values(|s: String| s@),
            forall|j: int| 0 <= j < k ==> !seq_contains(name@, #[trigger] v[j]),
        decreases ids@.len() - k,
    {
        if contains(name, &ids[k]) {
            assert(seq_contains(name@, v[k as int]));
            return false;
        }
        k += 1;
    }
    true
}

/// A floating IP that is down, or bound to no port.
pub open spec fn is_orphaned_fip(f: FloatingIp) -> bool {
    lower_of(f.status@) == "down"@ || f.port_id is None
}

pub fn is_orphaned_floating_ip(f: &FloatingIp) -> (r: bool)
    ensures
        r == is_orphaned_fip(*f),
{
    let status = to_lower(&f.status);
    same_text(&status, "down") || f.port_id.is_none()
}

/// A security group that the post-destroy cleanup deletes: one that Kubernetes
/// made for a load balancer, or a cluster group that outlived the destroy.
pub open spec fn is_cleanup_group(sg: SecurityGroup, cluster_name: Seq<char>) -> bool {
    seq_starts_with(sg.name@, "lb-sg-"@) || sg.name@ == cluster_name + "-server"@ || sg.name@
        == cluster_name + "-agent"@
}

pub fn is_cleanup_security_group(sg: &SecurityGroup, cluster_name: &str) -> (r: bool)
    ensures
        r == is_cleanup_group(*sg, cluster_name@),
{
    if starts_with(&sg.name, "lb-sg-") {
        return true;
    }
    let server_group = concat2(cluster_name, "-server");
    let agent_group = concat2(cluster_name, "-agent");
    same_text(&sg.name, &server_group) || same_text(&sg.name, &agent_group)
}

/// Positions of the ports that the pre-destroy cleanup deletes in `xs`, in order.
pub open spec fn octavia_port_targets(xs: Seq<Port>, terraform_ids: Seq<Seq<char>>) -> Seq<usize>
    decreases xs.len(),
{
    if xs.len() == 0 {
        seq![]
    } else {
        let before = octavia_port_targets(xs.drop_last(), terraform_ids);
        if is_octavia_port_target(xs.last(), terraform_ids) {
            before.push((xs.len() - 1) as usize)
        } else {
            before
        }
    }
}

/// The positions, in increasing order, of the ports that the pre-destroy cleanup deletes in `xs`.
pub fn select_octavia_ports(xs: &Vec<Port>, terraform_ids: &Vec<String>) -> (r: Vec<usize>)
    ensures
        r@ == octavia_port_targets(xs@, terraform_ids@.map_values(|s: String| s@)),
{
    let mut out: Vec<usize> = Vec::new();
    let mut i: usize = 0;
    while i < xs.len()
        invariant
            i <= xs@.len(),
            out@ == octavia_port_targets(xs@.subrange(0, i as int), terraform_ids@.map_values(|s: String| s@)),
        decreases xs@.len() - i,
    {
        proof {
            assert(xs@.subrange(0, i + 1).drop_last() =~= xs@.subrange(0, i as int));
            assert(xs@.subrange(0, i + 1).last() == xs@[i as int]);
        }
        if is_octavia_port_owner(&xs[i].device_owner) && name_refers_to_none(&xs[i].name, terraform_ids) {
            out.push(i);
        }
        i += 1;
    }
    assert(xs@.subrange(0, i as int) =~= xs@);
    out
}

/// Positions of the ports created by Octavia in `xs`, in order.
pub open spec fn lb_port_targets(xs: Seq<Port>) -> Seq<usize>
    decreases xs.len(),
{
    if xs.len() == 0 {
        seq![]
    } else {
        let before = lb_port_targets(xs.drop_last());
        if is_octavia_owner(xs.last().device_owner@) {
            before.push((xs.len() - 1) as usize)
        } else {
            before
        }
    }
}

/// The positions, in increasing order, of the ports created by Octavia in `xs`.
pub fn select_lb_ports(xs: &Vec<Port>) -> (r: Vec<usize>)
    ensures
        r@ == lb_port_targets(xs@),
{
    let mut out: Vec<usize> = Vec::new();
    let mut i: usize = 0;
    while i < xs.len()
        invariant
            i <= xs@.len(),
            out@ == lb_port_targets(xs@.subrange(0, i as int)),
        decreases xs@.len() - i,
    {
        proof {
            assert(xs@.subrange(0, i + 1).drop_last() =~= xs@.subrange(0, i as int));
            assert(xs@.subrange(0, i + 1).last() == xs@[i as int]);
        }
        if is_octavia_port_owner(&xs[i].device_owner) {
            out.push(i);
        }
        i += 1;
    }
    assert(xs@.subrange(0, i as int) =~= xs@);
    out
}

/// Positions of the ports that no compute, router or DHCP owner holds in `xs`, in order.
pub open spec fn network_port_targets(xs: Seq<Port>) -> Seq<usize>
    decreases xs.len(),
{
    if xs.len() == 0 {
        seq![]
    } else {
        let before = network_port_targets(xs.drop_last());
        if !is_protected_owner(port_owner_of(xs.last().device_owner@)) {
            before.push((xs.len() - 1) as usize)
        } else {
            before
        }
    }
}

/// The positions, in increasing order, of the ports that no compute, router or DHCP owner holds in `xs`.
pub fn select_network_ports(xs: &Vec<Port>) -> (r: Vec<usize>)
    ensures
        r@ == network_port_targets(xs@),
{
    let mut out: Vec<usize> = Vec::new();
    let mut i: usize = 0;
    while i < xs.len()
        invariant
            i <= xs@.len(),
            out@ == network_port_targets(xs@.subrange(0, i as int)),
        decreases xs@.len() - i,
    {
        proof {
            assert(xs@.subrange(0, i + 1).drop_last() =~= xs@.subrange(0, i as int));
            assert(xs@.subrange(0, i + 1).last() == xs@[i as int]);
        }
        if !matches!(classify_port(&xs[i].device_owner), PortOwner::Compute | PortOwner::Router | PortOwner::Dhcp) {
            out.push(i);
        }
        i += 1;
    }
    assert(xs@.subrange(0, i as int) =~= xs@);
    out
}

/// Positions of the orphaned floating IPs in `xs`, in order.
pub open spec fn orphaned_fip_targets(xs: Seq<FloatingIp>) -> Seq<usize>
    decreases xs.len(),
{
    if xs.len() == 0 {
        seq![]
    } else {
        let before = orphaned_fip_targets(xs.drop_last());
        if is_orphaned_fip(xs.last()) {
            before.push((xs.len() - 1) as usize)
        } else {
            before
        }
    }
}

/// The positions, in increasing order, of the orphaned floating IPs in `xs`.
pub fn select_orphaned_floating_ips(xs: &Vec<FloatingIp>) -> (r: Vec<usize>)
    ensures
        r@ == orphaned_fip_targets(xs@),
{
    let mut out: Vec<usize> = Vec::new();
    let mut i: usize = 0;
    while i < xs.len()
        invariant
            i <= xs@.len(),
            out@ == orphaned_fip_targets(xs@.subrange(0, i as int)),
        decreases xs@.len() - i,
    {
        proof {
            assert(xs@.subrange(0, i + 1).drop_last() =~= xs@.subrange(0, i as int));
            assert(xs@.subrange(0, i + 1).last() == xs@[i as int]);
        }
        if is_orphaned_floating_ip(&xs[i]) {
            out.push(i);
        }
        i += 1;
    }
    assert(xs@.subrange(0, i as int) =~= xs@);
    out
}

/// Positions of the security groups that the post-destroy cleanup deletes in `xs`, in order.
pub open spec fn security_group_targets(xs: Seq<SecurityGroup>, cluster_name: Seq<char>) -> Seq<usize>
    decreases xs.len(),
{
    if xs.len() == 0 {
        seq![]
    } else {
        let before = security_group_targets(xs.drop_last(), cluster_name);
        if is_cleanup_group(xs.last(), cluster_name) {
            before.push((xs.len() - 1) as usize)
        } else {
            before
        }
    }
}

/// The positions, in increasing order, of the security groups that the post-destroy cleanup deletes in `xs`.
pub fn select_security_groups(xs: &Vec<SecurityGroup>, cluster_name: &str) -> (r: Vec<usize>)
    ensures
        r@ == security_group_targets(xs@, cluster_name@),
{
    let mut out: Vec<usize> = Vec::new();
    let mut i: usize = 0;
    while i < xs.len()
        invariant
            i <= xs@.len(),
            out@ == security_group_targets(xs@.subrange(0, i as int), cluster_name@),
        decreases xs@.len() - i,
    {
        proof {
            assert(xs@.subrange(0, i + 1).drop_last() =~= xs@.subrange(0, i as int));
            assert(xs@.subrange(0, i + 1).last() == xs@[i as int]);
        }
        if is_cleanup_security_group(&xs[i], cluster_name) {
            out.push(i);
        }
        i += 1;
    }
    assert(xs@.subrange(0, i as int) =~= xs@);
    out
}

/// How the HTTP client treats the server certificate. Accepting invalid
/// certificates wins over a custom root certificate.
#[derive(Debug, Clone, PartialEq, Eq)]
pub enum TlsMode {
    AcceptInvalidCerts,
    CustomRoot(String),
    SystemRoots,
}

pub fn tls_mode(insecure: bool, cacert_file: Option<&str>) -> (r: TlsMode)
    ensures
        insecure ==> r == TlsMode::AcceptInvalidCerts,
        !insecure ==> (match cacert_file {
            Some(path) => r matches TlsMode::CustomRoot(p) && p@ == path@,
            None => r == TlsMode::SystemRoots,
        }),
{
    if insecure {
        TlsMode::AcceptInvalidCerts
    } else {
        match cacert_file {
            Some(path) => TlsMode::CustomRoot(path.to_owned()),
            None => TlsMode::SystemRoots,
        }
    }
}

/// The network service's endpoint, derived from the auth URL.
pub open spec fn neutron_endpoint_of(auth_url: Seq<char>) -> Seq<char> {
    replace_all_text(auth_url, ":5000/v3"@, ":9696/v2.0"@)
}

/// The load-balancer service's endpoint, derived from the auth URL.
pub open spec fn octavia_endpoint_of(auth_url: Seq<char>) -> Seq<char> {
    replace_all_text(auth_url, ":5000/v3"@, ":9876/v2.0"@)
}

pub open spec fn is_success_status(status: u16) -> bool {
    200 <= status <= 299
}

/// The token request's URL.
pub fn auth_tokens_url(auth_url: &str) -> (r: String)
    ensures
        r@ == auth_url@ + "/auth/tokens"@,
{
    concat2(auth_url, "/auth/tokens")
}

/// What a token request's answer gives: the token, or why authentication failed.
/// A non-2xx status fails with its code and body; a success without the
/// `X-Subject-Token` header fails too.
pub fn auth_outcome(status: u16, body: &str, subject_token: Option<&str>) -> (r: Result<String, OpenStackError>)
    ensures
        !is_success_status(status) ==> (r matches Err(OpenStackError::AuthFailed(m))
            && m@ == "status "@ + decimal_text(status as int) + ": "@ + body@),
        is_success_status(status) ==> (match subject_token {
            Some(t) => r matches Ok(tok) && tok@ == t@,
            None => r matches Err(OpenStackError::AuthFailed(m)) && m@ == "No X-Subject-Token in response"@,
        }),
{
    if !(200 <= status && status <= 299) {
        let code = i32_text(status as i32);
        let head = concat3("status ", &code, ": ");
        return Err(OpenStackError::AuthFailed(head.concat(body)));
    }
    match subject_token {
        Some(t) => Ok(t.to_owned()),
        None => Err(OpenStackError::AuthFailed("No X-Subject-Token in response".to_owned())),
    }
}

/// A token and the service endpoints derived from the auth URL it was obtained
/// from.
pub struct OpenStackSession {
    pub auth_token: String,
    pub neutron_endpoint: String,
    pub octavia_endpoint: String,
}

impl OpenStackSession {
    pub fn new(auth_url: &str, auth_token: String) -> (r: Self)
        ensures
            r.auth_token == auth_token,
            r.neutron_endpoint@ == neutron_endpoint_of(auth_url@),
            r.octavia_endpoint@ == octavia_endpoint_of(auth_url@),
    {
        proof {
            reveal_strlit(":5000/v3");
        }
        let neutron_endpoint = replace_all(auth_url, ":5000/v3", ":9696/v2.0");
        let octavia_endpoint = replace_all(auth_url, ":5000/v3", ":9876/v2.0");
        OpenStackSession { auth_token, neutron_endpoint, octavia_endpoint }
    }

    pub fn load_balancers_url(&self) -> (r: String)
        ensures
            r@ == self.octavia_endpoint@ + "/lbaas/loadbalancers"@,
    {
        concat2(&self.octavia_endpoint, "/lbaas/loadbalancers")
    }

    pub fn load_balancer_url(&self, id: &str) -> (r: String)
        ensures
            r@ == self.octavia_endpoint@ + "/lbaas/loadbalancers/"@ + id@,
    {
        concat3(&self.octavia_endpoint, "/lbaas/loadbalancers/", id)
    }

    /// Deleting with `cascade` removes the listeners, pools, members and health
    /// monitors along with the load balancer.
    pub fn load_balancer_delete_url(&self, id: &str) -> (r: String)
        ensures
            r@ == self.octavia_endpoint@ + "/lbaas/loadbalancers/"@ + id@ + "?cascade=true"@,
    {
        let u = self.load_balancer_url(id);
        u.concat("?cascade=true")
    }

    pub fn floating_ips_url(&self) -> (r: String)
        ensures
            r@ == self.neutron_endpoint@ + "/floatingips"@,
    {
        concat2(&self.neutron_endpoint, "/floatingips")
    }

    pub fn floating_ip_url(&self, id: &str) -> (r: String)
        ensures
            r@ == self.neutron_endpoint@ + "/floatingips/"@ + id@,
    {
        concat3(&self.neutron_endpoint, "/floatingips/", id)
    }

    pub fn ports_url(&self) -> (r: String)
        ensures
            r@ == self.neutron_endpoint@ + "/ports"@,
    {
        concat2(&self.neutron_endpoint, "/ports")
    }

    pub fn network_ports_url(&self, network_id: &str) -> (r: String)
        ensures
            r@ == self.neutron_endpoint@ + "/ports?network_id="@ + network_id@,
    {
        concat3(&self.neutron_endpoint, "/ports?network_id=", network_id)
    }

    pub fn port_url(&self, id: &str) -> (r: String)
        ensures
            r@ == self.neutron_endpoint@ + "/ports/"@ + id@,
    {
        concat3(&self.neutron_endpoint, "/ports/", id)
    }

    pub fn security_groups_url(&self) -> (r: String)
        ensures
            r@ == self.neutron_endpoint@ + "/security-groups"@,
    {
        concat2(&self.neutron_endpoint, "/security-groups")
    }

    pub fn security_group_url(&self, id: &str) -> (r: String)
        ensures
            r@ == self.neutron_endpoint@ + "/security-groups/"@ + id@,
    {
        concat3(&self.neutron_endpoint, "/security-groups/", id)
    }
}

/// The Octavia ports to delete on the network, given the load balancers listed
/// again after their deletion. When that listing failed (`None`), no port is
/// chosen: a port of a Terraform-managed load balancer could not be told apart.
pub fn octavia_ports_to_delete(lbs: Option<&Vec<LoadBalancer>>, network_id: &str, ports: &Vec<Port>) -> (r: Option<Vec<usize>>)
    ensures
        lbs is None ==> r is None,
        lbs matches Some(l) ==> (r matches Some(v) && v@ == octavia_port_targets(
            ports@,
            terraform_lb_ids(l@, network_id@),
        )),
{
    match lbs {
        None => None,
        Some(l) => {
            let ids = select_terraform_lb_ids(l, network_id);
            Some(select_octavia_ports(ports, &ids))
        },
    }
}

} // verus!
