//! Tailscale device cleanup and client-state checks.

use vstd::prelude::*;
use crate::errors::{concat2, concat3, TailscaleError};
use crate::text::same_text;

verus! {

/// A device of the tailnet, as the API lists it.
#[derive(Debug, Clone)]
pub struct Device {
    pub id: String,
    pub name: String,
    pub tags: Vec<String>,
}

/// The account that cluster devices join.
pub const EXPECTED_TAILNET: &'static str = "cloudserv11.github";

/// The tag that marks the cluster's devices: `<cluster>-openstack`.
pub fn cluster_tag(cluster_name: &str) -> (r: String)
    ensures
        r@ == cluster_name@ + "-openstack"@,
{
    concat2(cluster_name, "-openstack")
}

pub fn devices_url(tailnet: &str) -> (r: String)
    ensures
        r@ == "https://api.tailscale.com/api/v2/tailnet/"@ + tailnet@ + "/devices"@,
{
    concat3("https://api.tailscale.com/api/v2/tailnet/", tailnet, "/devices")
}

pub fn device_url(id: &str) -> (r: String)
    ensures
        r@ == "https://api.tailscale.com/api/v2/device/"@ + id@,
{
    concat2("https://api.tailscale.com/api/v2/device/", id)
}

/// The device carries the tag `tag:<cluster_tag>`.
pub open spec fn has_cluster_tag(d: Device, cluster_tag: Seq<char>) -> bool {
    exists|k: int| 0 <= k < d.tags@.len() && d.tags@[k]@ == "tag:"@ + cluster_tag
}

/// Positions of the devices in `ds` that carry the cluster tag, in order.
pub open spec fn tagged_devices(ds: Seq<Device>, cluster_tag: Seq<char>) -> Seq<usize>
    decreases ds.len(),
{
    if ds.len() == 0 {
        seq![]
    } else {
        let before = tagged_devices(ds.drop_last(), cluster_tag);
        if has_cluster_tag(ds.last(), cluster_tag) {
            before.push((ds.len() - 1) as usize)
        } else {
            before
        }
    }
}

pub fn device_has_tag(d: &Device, cluster_tag: &str) -> (r: bool)
    ensures
        r == has_cluster_tag(*d, cluster_tag@),
{
    let wanted = concat2("tag:", cluster_tag);
    let mut k: usize = 0;
    while k < d.tags.len()
        invariant
            k <= d.tags@.len(),
            wanted@ == "tag:"@ + cluster_tag@,
            forall|j: int| 0 <= j < k ==> d.tags@[j]@ != wanted@,
        decreases d.tags@.len() - k,
    {
        if same_text(&d.tags[k], &wanted) {
            return true;
        }
        k += 1;
    }
    false
}

/// The positions, in increasing order, of the devices tagged for the cluster.
pub fn select_devices_by_tag(ds: &Vec<Device>, cluster_tag: &str) -> (r: Vec<usize>)
    ensures
        r@ == tagged_devices(ds@, cluster_tag@),
{
    let mut out: Vec<usize> = Vec::new();
    let mut i: usize = 0;
    while i < ds.len()
        invariant
            i <= ds@.len(),
            out@ == tagged_devices(ds@.subrange(0, i as int), cluster_tag@),
        decreases ds@.len() - i,
    {
        proof {
            assert(ds@.subrange(0, i + 1).drop_last() =~= ds@.subrange(0, i as int));
            assert(ds@.subrange(0, i + 1).last() == ds@[i as int]);
        }
        if device_has_tag(&ds[i], cluster_tag) {
            out.push(i);
        }
        i += 1;
    }
    assert(ds@.subrange(0, i as int) =~= ds@);
    out
}

/// What `tailscale status --json` reports that the checks read.
#[derive(Debug, Clone)]
pub struct TailscaleStatus {
    pub backend_state: String,
    pub current_tailnet: Option<String>,
}

/// The verdict on the local Tailscale client.
#[derive(Debug, Clone)]
pub enum StatusCheck {
    Ready,
    /// Running, but the account could not be read.
    AccountUnknown,
    /// Running on another account than the expected one.
    OtherAccount { actual: String },
}

/// Running is required; the account is checked against the expected one.
pub fn check_status(status: &TailscaleStatus) -> (r: std::result::Result<StatusCheck, TailscaleError>)
    ensures
        status.backend_state@ != "Running"@ ==> (r matches Err(TailscaleError::NotRunning(s))
            && s@ == status.backend_state@),
        status.backend_state@ == "Running"@ ==> match status.current_tailnet {
            None => r matches Ok(StatusCheck::AccountUnknown),
            Some(t) => if t@ == "cloudserv11.github"@ {
                r matches Ok(StatusCheck::Ready)
            } else {
                r matches Ok(StatusCheck::OtherAccount { actual }) && actual@ == t@
            },
        },
{
    if !same_text(&status.backend_state, "Running") {
        return Err(TailscaleError::NotRunning(status.backend_state.clone()));
    }
    match &status.current_tailnet {
        None => Ok(StatusCheck::AccountUnknown),
        Some(t) => if same_text(t, EXPECTED_TAILNET) {
            Ok(StatusCheck::Ready)
        } else {
            Ok(StatusCheck::OtherAccount { actual: t.clone() })
        },
    }
}

} // verus!
