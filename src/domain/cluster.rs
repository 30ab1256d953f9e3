//! Read-only cluster topology: servers, cloud providers and the cluster.

use vstd::prelude::*;
use crate::text::{contains, seq_contains};

verus! {

/// One cluster node as reported by the infrastructure outputs.
#[derive(Debug, Clone)]
pub struct ServerInfo {
    pub name: String,
    pub ip: String,
    pub cloud_provider: String,
    pub tailscale_hostname: Option<String>,
}

/// A node name marks a k3s server when it holds `server`.
pub open spec fn is_server_name(name: Seq<char>) -> bool {
    seq_contains(name, "server"@)
}

/// A node name marks a k3s agent when it holds `agent`.
pub open spec fn is_agent_name(name: Seq<char>) -> bool {
    seq_contains(name, "agent"@)
}

/// Whether `name` marks an agent (`agents`) or a server (`!agents`).
pub open spec fn has_role(name: Seq<char>, agents: bool) -> bool {
    if agents {
        is_agent_name(name)
    } else {
        is_server_name(name)
    }
}

/// Number of nodes in `s` whose name marks an agent (`agents`) or a server.
pub open spec fn count_named(s: Seq<ServerInfo>, agents: bool) -> nat
    decreases s.len(),
{
    if s.len() == 0 {
        0
    } else {
        count_named(s.drop_last(), agents) + if has_role(s.last().name@, agents) {
            1nat
        } else {
            0nat
        }
    }
}

/// Position of the first node in `s` whose name marks a server.
pub open spec fn first_server_index(s: Seq<ServerInfo>) -> Option<int> {
    if exists|i: int| 0 <= i < s.len() && is_server_name(s[i].name@) {
        Some(choose|i: int| 0 <= i < s.len() && is_server_name(s[i].name@)
            && forall|j: int| 0 <= j < i ==> !is_server_name(s[j].name@))
    } else {
        None
    }
}

proof fn lemma_count_named_le(s: Seq<ServerInfo>, agents: bool)
    ensures
        count_named(s, agents) <= s.len(),
    decreases s.len(),
{
    if s.len() > 0 {
        lemma_count_named_le(s.drop_last(), agents);
    }
}

impl ServerInfo {
    pub fn is_server(&self) -> (r: bool)
        ensures
            r == is_server_name(self.name@),
    {
        contains(&self.name, "server")
    }

    pub fn is_agent(&self) -> (r: bool)
        ensures
            r == is_agent_name(self.name@),
    {
        contains(&self.name, "agent")
    }
}

/// The nodes that one cloud provider contributes to the cluster.
#[derive(Debug, Clone)]
pub struct CloudProvider {
    pub name: String,
    pub bastion_ip: Option<String>,
    pub tailscale_enabled: bool,
    pub servers: Vec<ServerInfo>,
}

impl CloudProvider {
    pub fn server_count(&self) -> (r: usize)
        ensures
            r == count_named(self.servers@, false),
    {
        let mut count: usize = 0;
        let mut i: usize = 0;
        while i < self.servers.len()
            invariant
                i <= self.servers@.len(),
                count == count_named(self.servers@.subrange(0, i as int), false),
            decreases self.servers@.len() - i,
        {
            proof {
                assert(self.servers@.subrange(0, i + 1).drop_last() =~= self.servers@.subrange(0, i as int));
                assert(self.servers@.subrange(0, i + 1).last() == self.servers@[i as int]);
                lemma_count_named_le(self.servers@.subrange(0, i as int), false);
            }
            if self.servers[i].is_server() {
                count = count + 1;
            }
            i += 1;
        }
        assert(self.servers@.subrange(0, i as int) =~= self.servers@);
        count
    }

    pub fn agent_count(&self) -> (r: usize)
        ensures
            r == count_named(self.servers@, true),
    {
        let mut count: usize = 0;
        let mut i: usize = 0;
        while i < self.servers.len()
            invariant
                i <= self.servers@.len(),
                count == count_named(self.servers@.subrange(0, i as int), true),
            decreases self.servers@.len() - i,
        {
            proof {
                assert(self.servers@.subrange(0, i + 1).drop_last() =~= self.servers@.subrange(0, i as int));
                assert(self.servers@.subrange(0, i + 1).last() == self.servers@[i as int]);
                lemma_count_named_le(self.servers@.subrange(0, i as int), true);
            }
            if self.servers[i].is_agent() {
                count = count + 1;
            }
            i += 1;
        }
        assert(self.servers@.subrange(0, i as int) =~= self.servers@);
        count
    }

    pub fn total_nodes(&self) -> (r: usize)
        ensures
            r == self.servers@.len(),
    {
        self.servers.len()
    }

    pub fn get_first_server(&self) -> (r: Option<&ServerInfo>)
        ensures
            match first_server_index(self.servers@) {
                Some(i) => r == Some(&self.servers@[i]),
                None => r is None,
            },
    {
        let mut i: usize = 0;
        while i < self.servers.len()
            invariant
                i <= self.servers@.len(),
                forall|j: int| 0 <= j < i ==> !is_server_name(#[trigger] self.servers@[j].name@),
            decreases self.servers@.len() - i,
        {
            if self.servers[i].is_server() {
                let ghost s = self.servers@;
                assert(first_server_index(s) == Some(i as int)) by {
                    let x = choose|x: int| 0 <= x < s.len() && is_server_name(s[x].name@)
                        && forall|j: int| 0 <= j < x ==> !is_server_name(s[j].name@);
                    assert(0 <= i < s.len() && is_server_name(s[i as int].name@));
                    if x < i {
                    } else if x > i {
                    }
                }
                return Some(&self.servers[i]);
            }
            i += 1;
        }
        None
    }
}

/// Sum of the node counts of `ps`.
pub open spec fn total_node_count(ps: Seq<CloudProvider>) -> nat
    decreases ps.len(),
{
    if ps.len() == 0 {
        0
    } else {
        total_node_count(ps.drop_last()) + ps.last().servers@.len()
    }
}

/// The whole cluster: its providers and the features enabled on it.
#[derive(Debug, Clone)]
pub struct ClusterInfo {
    pub cluster_name: String,
    pub providers: Vec<CloudProvider>,
    pub primary_api_endpoint: Option<String>,
    pub gpu_enabled: bool,
    pub argocd_enabled: bool,
}

proof fn lemma_total_prefix_le(ps: Seq<CloudProvider>, i: int)
    requires
        0 <= i <= ps.len(),
    ensures
        total_node_count(ps.subrange(0, i)) <= total_node_count(ps),
    decreases ps.len() - i,
{
    if i < ps.len() {
        lemma_total_prefix_le(ps, i + 1);
        assert(ps.subrange(0, i + 1).drop_last() =~= ps.subrange(0, i));
    } else {
        assert(ps.subrange(0, i) =~= ps);
    }
}

impl ClusterInfo {
    pub fn total_expected_nodes(&self) -> (r: usize)
        requires
            total_node_count(self.providers@) <= usize::MAX,
        ensures
            r == total_node_count(self.providers@),
    {
        let mut total: usize = 0;
        let mut i: usize = 0;
        while i < self.providers.len()
            invariant
                i <= self.providers@.len(),
                total_node_count(self.providers@) <= usize::MAX,
                total == total_node_count(self.providers@.subrange(0, i as int)),
            decreases self.providers@.len() - i,
        {
            proof {
                assert(self.providers@.subrange(0, i + 1).drop_last() =~= self.providers@.subrange(0, i as int));
                lemma_total_prefix_le(self.providers@, i + 1);
            }
            total = total + self.providers[i].total_nodes();
            i += 1;
        }
        assert(self.providers@.subrange(0, i as int) =~= self.providers@);
        total
    }

    pub fn primary_provider(&self) -> (r: Option<&CloudProvider>)
        ensures
            self.providers@.len() == 0 ==> r is None,
            self.providers@.len() > 0 ==> r == Some(&self.providers@[0]),
    {
        self.providers.first()
    }
}

} // verus!
