//! The decisions of the destroy command: which cleanups run around
//! `terraform destroy`, and when the operator must confirm going on.

use vstd::prelude::*;
use crate::reconcile::StageReport;

verus! {

/// Why a cleanup step does not run.
#[derive(Debug, Clone, Copy, PartialEq, Eq, Structural)]
pub enum SkipReason {
    CredentialsUnavailable,
    NetworkIdNotFound,
    ClusterNameNotFound,
}

/// What a destroy does besides `terraform destroy` itself.
#[derive(Debug)]
pub struct DestroyPlan {
    /// Remove the cluster's Tailscale devices first.
    pub tailscale_cleanup: bool,
    /// Clean up before the destroy on (network id, cluster name), or why not.
    pub pre_cleanup: Result<(String, String), SkipReason>,
    /// Clean up after the destroy for the cluster name, or why not.
    pub post_cleanup: Result<String, SkipReason>,
}

/// The Terraform state entry removed before a destroy, so that the backup
/// container and its backups survive.
pub const BACKUP_CONTAINER_STATE_ENTRY: &'static str =
    "module.openstack_k3s[0].openstack_objectstorage_container_v1.longhorn_backup[0]";

/// Plans the cleanups: the pre-destroy one needs OpenStack credentials, the
/// network id and the cluster name; the post-destroy one needs credentials and
/// the cluster name.
pub fn plan_destroy(
    tailscale_configured: bool,
    openstack_configured: bool,
    network_id: Option<String>,
    cluster_name: Option<String>,
) -> (r: DestroyPlan)
    ensures
        r.tailscale_cleanup == tailscale_configured,
        !openstack_configured ==> r.pre_cleanup == Err::<(String, String), SkipReason>(SkipReason::CredentialsUnavailable)
            && r.post_cleanup == Err::<String, SkipReason>(SkipReason::CredentialsUnavailable),
        openstack_configured && network_id is None ==> r.pre_cleanup == Err::<(String, String), SkipReason>(
            SkipReason::NetworkIdNotFound,
        ),
        openstack_configured && network_id is Some && cluster_name is None ==> r.pre_cleanup == Err::<
            (String, String),
            SkipReason,
        >(SkipReason::ClusterNameNotFound),
        openstack_configured && network_id is Some && cluster_name is Some ==> r.pre_cleanup == Ok::<
            (String, String),
            SkipReason,
        >((network_id->0, cluster_name->0)),
        openstack_configured && cluster_name is None ==> r.post_cleanup == Err::<String, SkipReason>(
            SkipReason::ClusterNameNotFound,
        ),
        openstack_configured && cluster_name is Some ==> r.post_cleanup == Ok::<String, SkipReason>(cluster_name->0),
{
    if !openstack_configured {
        return DestroyPlan {
            tailscale_cleanup: tailscale_configured,
            pre_cleanup: Err(SkipReason::CredentialsUnavailable),
            post_cleanup: Err(SkipReason::CredentialsUnavailable),
        };
    }
    let post_cleanup = match &cluster_name {
        Some(c) => Ok(c.clone()),
        None => Err(SkipReason::ClusterNameNotFound),
    };
    let pre_cleanup = match network_id {
        None => Err(SkipReason::NetworkIdNotFound),
        Some(n) => match cluster_name {
            Some(c) => Ok((n, c)),
            None => Err(SkipReason::ClusterNameNotFound),
        },
    };
    DestroyPlan { tailscale_cleanup: tailscale_configured, pre_cleanup, post_cleanup }
}

/// A stage that could not list its resources, or failed a delete.
pub open spec fn reports_failure(r: StageReport) -> bool {
    !r.listed || r.failed > 0
}

/// Whether a cleanup run reported any failure, so that the destroy may block
/// and the operator must confirm going on.
pub fn has_failures(reports: &Vec<StageReport>) -> (r: bool)
    ensures
        r == exists|k: int| 0 <= k < reports@.len() && reports_failure(#[trigger] reports@[k]),
{
    let mut k: usize = 0;
    while k < reports.len()
        invariant
            k <= reports@.len(),
            forall|j: int| 0 <= j < k ==> !reports_failure(#[trigger] reports@[j]),
        decreases reports@.len() - k,
    {
        if !reports[k].listed || reports[k].failed > 0 {
            assert(reports_failure(reports@[k as int]));
            return true;
        }
        k += 1;
    }
    false
}

} // verus!
