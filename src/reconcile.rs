//! The reconciliation engine's decisions: the order in which resource kinds
//! are deleted, what each delete response means, the tallies per kind, and the
//! polling of an asynchronous load-balancer delete.
//!
//! The caller performs each request and hands the response back; nothing here
//! waits or talks to the network.

use vstd::prelude::*;
use crate::constants::openstack::LOADBALANCER_POLL_INTERVAL_SECS;
use crate::errors::OpenStackError;
use crate::text::same_text;

verus! {

/// One kind of resource that a cleanup deletes, as one stage of a run.
#[derive(Debug, Clone, Copy, PartialEq, Eq, Structural)]
pub enum Stage {
    /// Kubernetes-created load balancers on the cluster network.
    LoadBalancers,
    /// Octavia ports on the cluster network, but those of Terraform's load balancers.
    OctaviaPorts,
    /// Octavia ports anywhere in the project.
    LoadBalancerPorts,
    /// Ports on the cluster network that no compute, router or DHCP owner holds.
    NetworkPorts,
    /// Floating IPs that are down or bound to no port.
    FloatingIps,
    /// Kubernetes load-balancer groups and leftover cluster groups.
    SecurityGroups,
}

pub open spec fn is_port_stage(s: Stage) -> bool {
    s == Stage::OctaviaPorts || s == Stage::LoadBalancerPorts || s == Stage::NetworkPorts
}

/// The deletion protocol: no load balancer after a port, and nothing but
/// security groups after a security group.
pub open spec fn follows_protocol(plan: Seq<Stage>) -> bool {
    forall|a: int, b: int|
        0 <= a < b < plan.len() ==> !(plan[a] == Stage::SecurityGroups && plan[b] != Stage::SecurityGroups)
            && !(is_port_stage(plan[a]) && plan[b] == Stage::LoadBalancers)
}

pub open spec fn pre_destroy_stages() -> Seq<Stage> {
    seq![Stage::LoadBalancers, Stage::OctaviaPorts]
}

pub open spec fn post_destroy_stages() -> Seq<Stage> {
    seq![Stage::FloatingIps, Stage::LoadBalancerPorts, Stage::SecurityGroups]
}

/// Before `terraform destroy`: Kubernetes' load balancers, then the Octavia
/// ports that outlived them.
pub fn pre_destroy_plan() -> (r: Vec<Stage>)
    ensures
        r@ == pre_destroy_stages(),
{
    let r = vec![Stage::LoadBalancers, Stage::OctaviaPorts];
    assert(r@ =~= pre_destroy_stages());
    r
}

/// After `terraform destroy`: floating IPs, Octavia ports, and security groups
/// last, since a group cannot go while anything still refers to it.
pub fn post_destroy_plan() -> (r: Vec<Stage>)
    ensures
        r@ == post_destroy_stages(),
{
    let r = vec![Stage::FloatingIps, Stage::LoadBalancerPorts, Stage::SecurityGroups];
    assert(r@ =~= post_destroy_stages());
    r
}

pub open spec fn orphan_sweep_stages(on_network: bool) -> Seq<Stage> {
    if on_network {
        seq![Stage::LoadBalancers, Stage::LoadBalancerPorts, Stage::NetworkPorts, Stage::FloatingIps]
    } else {
        seq![Stage::LoadBalancerPorts, Stage::FloatingIps]
    }
}

/// A sweep for orphans outside a destroy, in protocol order: given a network,
/// its Kubernetes load balancers first; then Octavia ports, the network's
/// unowned ports, and the orphaned floating IPs last. It deletes no security
/// group.
pub fn orphan_sweep_plan(on_network: bool) -> (r: Vec<Stage>)
    ensures
        r@ == orphan_sweep_stages(on_network),
{
    if on_network {
        let r = vec![Stage::LoadBalancers, Stage::LoadBalancerPorts, Stage::NetworkPorts, Stage::FloatingIps];
        assert(r@ =~= orphan_sweep_stages(on_network));
        r
    } else {
        let r = vec![Stage::LoadBalancerPorts, Stage::FloatingIps];
        assert(r@ =~= orphan_sweep_stages(on_network));
        r
    }
}

/// What came back from one delete request.
#[derive(Debug, Clone)]
pub enum DeleteResponse {
    Status(u16),
    TransportError(String),
}

/// How one delete ended, for the tallies.
#[derive(Debug, Clone, Copy, PartialEq, Eq, Structural)]
pub enum DeleteOutcome {
    Deleted,
    /// The resource is still referenced (409); the platform removes it later.
    InUse,
    Failed,
}

/// A success status or 404 (already gone): the delete was accepted.
pub open spec fn is_accepted(resp: DeleteResponse) -> bool {
    match resp {
        DeleteResponse::Status(s) => (200 <= s <= 299) || s == 404,
        DeleteResponse::TransportError(_) => false,
    }
}

pub open spec fn outcome_of(resp: DeleteResponse) -> DeleteOutcome {
    if is_accepted(resp) {
        DeleteOutcome::Deleted
    } else if resp matches DeleteResponse::Status(409) {
        DeleteOutcome::InUse
    } else {
        DeleteOutcome::Failed
    }
}

pub fn delete_accepted(resp: &DeleteResponse) -> (r: bool)
    ensures
        r == is_accepted(*resp),
{
    match resp {
        DeleteResponse::Status(s) => (200 <= *s && *s <= 299) || *s == 404,
        DeleteResponse::TransportError(_) => false,
    }
}

/// The outcome of a delete whose response is final (every kind but load
/// balancers, whose accepted delete is still polled).
pub fn classify_delete(resp: &DeleteResponse) -> (r: DeleteOutcome)
    ensures
        r == outcome_of(*resp),
{
    if delete_accepted(resp) {
        DeleteOutcome::Deleted
    } else {
        match resp {
            DeleteResponse::Status(s) => if *s == 409 {
                DeleteOutcome::InUse
            } else {
                DeleteOutcome::Failed
            },
            DeleteResponse::TransportError(_) => DeleteOutcome::Failed,
        }
    }
}

/// The outcome of a load-balancer delete: deleted once the cascade delete was
/// accepted and its poll completed; a rejected delete or a timed-out poll is a
/// failure.
pub fn lb_delete_outcome(resp: &DeleteResponse, poll: PollState) -> (r: DeleteOutcome)
    ensures
        r == if is_accepted(*resp) && poll == PollState::Completed {
            DeleteOutcome::Deleted
        } else {
            DeleteOutcome::Failed
        },
{
    if delete_accepted(resp) && poll == PollState::Completed {
        DeleteOutcome::Deleted
    } else {
        DeleteOutcome::Failed
    }
}

/// The tallies of one stage.
#[derive(Debug, Clone, Copy, PartialEq, Eq, Structural)]
pub struct StageReport {
    pub stage: Stage,
    /// Whether the resources could be listed; a stage that could not list them
    /// deletes nothing.
    pub listed: bool,
    pub candidates: usize,
    pub deleted: usize,
    pub in_use: usize,
    pub failed: usize,
}

pub open spec fn tally(r: StageReport, o: DeleteOutcome) -> StageReport {
    StageReport {
        deleted: if o == DeleteOutcome::Deleted { (r.deleted + 1) as usize } else { r.deleted },
        in_use: if o == DeleteOutcome::InUse { (r.in_use + 1) as usize } else { r.in_use },
        failed: if o == DeleteOutcome::Failed { (r.failed + 1) as usize } else { r.failed },
        ..r
    }
}

/// The stage at position `i` of a plan, if the plan has one there.
pub open spec fn stage_at(plan: Seq<Stage>, i: int) -> Option<Stage> {
    if 0 <= i < plan.len() {
        Some(plan[i])
    } else {
        None
    }
}

/// `after` is `before` with the delete of its next target recorded as
/// `outcome`: the run moves on to the following target, or, after the last one,
/// closes the stage with its tallies and moves to the next stage of the plan.
pub open spec fn recorded(before: CleanupRun, after: CleanupRun, outcome: DeleteOutcome) -> bool {
    &&& after.plan_view() == before.plan_view()
    &&& after.issued_deletes() == before.issued_deletes().push(before.stage_view()->0)
    &&& before.pending().len() > 1 ==> {
        &&& after.in_stage()
        &&& after.stage_view() == before.stage_view()
        &&& after.pending() == before.pending().drop_first()
        &&& after.reports_view() == before.reports_view()
        &&& after.current_report() == tally(before.current_report(), outcome)
    }
    &&& before.pending().len() == 1 ==> {
        &&& !after.in_stage()
        &&& after.reports_view() == before.reports_view().push(tally(before.current_report(), outcome))
        &&& after.stage_view() == stage_at(after.plan_view(), after.reports_view().len() as int)
    }
}

/// A cleanup run: its plan of stages, the targets of the stage under way, the
/// reports of the finished stages, and (as proof state) the stage of every
/// delete issued so far.
pub struct CleanupRun {
    plan: Vec<Stage>,
    position: usize,
    started: bool,
    targets: Vec<String>,
    next: usize,
    current: StageReport,
    reports: Vec<StageReport>,
    issued: Ghost<Seq<int>>,
}

impl CleanupRun {
    pub closed spec fn well_formed(&self) -> bool {
        &&& self.position <= self.plan@.len()
        &&& self.started ==> {
            &&& self.position < self.plan@.len()
            &&& self.next < self.targets@.len()
            &&& self.current.stage == self.plan@[self.position as int]
            &&& self.current.deleted + self.current.in_use + self.current.failed == self.next
            &&& self.current.candidates == self.targets@.len()
        }
        &&& self.reports@.len() == self.position
        &&& forall|k: int| 0 <= k < self.issued@.len() ==> 0 <= #[trigger] self.issued@[k] < self.plan@.len()
            && self.issued@[k] <= self.position && (!self.started ==> self.issued@[k] < self.position)
        &&& forall|a: int, b: int| 0 <= a < b < self.issued@.len() ==> self.issued@[a] <= self.issued@[b]
    }

    /// The stages of the run.
    pub closed spec fn plan_view(&self) -> Seq<Stage> {
        self.plan@
    }

    /// The stage of every delete issued so far, in the order issued.
    pub closed spec fn issued_deletes(&self) -> Seq<Stage> {
        self.issued@.map_values(|p: int| self.plan@[p])
    }

    /// The stage under way or next to begin, if any is left.
    pub closed spec fn stage_view(&self) -> Option<Stage> {
        if self.position < self.plan@.len() {
            Some(self.plan@[self.position as int])
        } else {
            None
        }
    }

    /// Whether the current stage's targets have been handed over.
    pub closed spec fn in_stage(&self) -> bool {
        self.started
    }

    /// The ids still to delete in the stage under way.
    pub closed spec fn pending(&self) -> Seq<Seq<char>> {
        if self.started {
            self.targets@.subrange(self.next as int, self.targets@.len() as int).map_values(|s: String| s@)
        } else {
            seq![]
        }
    }

    /// The tallies of the stage under way.
    pub closed spec fn current_report(&self) -> StageReport {
        self.current
    }

    /// The reports of the finished stages, in plan order.
    pub closed spec fn reports_view(&self) -> Seq<StageReport> {
        self.reports@
    }

    pub fn new(plan: Vec<Stage>) -> (r: Self)
        ensures
            r.well_formed(),
            r.plan_view() == plan@,
            r.issued_deletes() == Seq::<Stage>::empty(),
            r.reports_view() == Seq::<StageReport>::empty(),
            !r.in_stage(),
            plan@.len() > 0 ==> r.stage_view() == Some(plan@[0]),
            plan@.len() == 0 ==> r.stage_view() is None,
    {
        let r = CleanupRun {
            plan,
            position: 0,
            started: false,
            targets: Vec::new(),
            next: 0,
            current: StageReport { stage: Stage::LoadBalancers, listed: false, candidates: 0, deleted: 0, in_use: 0, failed: 0 },
            reports: Vec::new(),
            issued: Ghost(Seq::empty()),
        };
        assert(r.issued_deletes() =~= Seq::<Stage>::empty());
        r
    }

    /// The stage under way or next to begin.
    pub fn current_stage(&self) -> (r: Option<Stage>)
        requires
            self.well_formed(),
        ensures
            r == self.stage_view(),
    {
        if self.position < self.plan.len() {
            Some(self.plan[self.position])
        } else {
            None
        }
    }

    pub fn reports(&self) -> (r: &Vec<StageReport>)
        ensures
            r@ == self.reports_view(),
    {
        &self.reports
    }

    /// Closes the stage with `report` and moves to the next one.
    fn finish_stage(&mut self, report: StageReport)
        requires
            old(self).position < old(self).plan@.len(),
            old(self).reports@.len() == old(self).position,
            forall|k: int| 0 <= k < old(self).issued@.len() ==> 0 <= #[trigger] old(self).issued@[k] < old(self).plan@.len()
                && old(self).issued@[k] <= old(self).position,
            forall|a: int, b: int| 0 <= a < b < old(self).issued@.len() ==> old(self).issued@[a] <= old(self).issued@[b],
        ensures
            final(self).well_formed(),
            final(self).plan == old(self).plan,
            final(self).issued == old(self).issued,
            final(self).position == old(self).position + 1,
            !final(self).started,
            final(self).reports@ == old(self).reports@.push(report),
    {
        let n = self.plan.len();
        assert(self.position < n);
        self.reports.push(report);
        self.position = self.position + 1;
        self.started = false;
        self.targets = Vec::new();
        self.next = 0;
    }

    /// Starts the current stage on the ids of its targets. With no target, or
    /// when the listing failed (`listed` false), the stage closes at once.
    pub fn begin_stage(&mut self, listed: bool, targets: Vec<String>)
        requires
            old(self).well_formed(),
            !old(self).in_stage(),
            old(self).stage_view() is Some,
        ensures
            final(self).well_formed(),
            final(self).plan_view() == old(self).plan_view(),
            final(self).issued_deletes() == old(self).issued_deletes(),
            listed && targets@.len() > 0 ==> {
                &&& final(self).in_stage()
                &&& final(self).stage_view() == old(self).stage_view()
                &&& final(self).pending() == targets@.map_values(|s: String| s@)
                &&& final(self).reports_view() == old(self).reports_view()
                &&& final(self).current_report() == (StageReport {
                    stage: old(self).stage_view()->0,
                    listed: true,
                    candidates: targets@.len() as usize,
                    deleted: 0,
                    in_use: 0,
                    failed: 0,
                })
            },
            !(listed && targets@.len() > 0) ==> {
                &&& !final(self).in_stage()
                &&& final(self).reports_view() == old(self).reports_view().push(StageReport {
                    stage: old(self).stage_view()->0,
                    listed: listed,
                    candidates: if listed { targets@.len() as usize } else { 0 },
                    deleted: 0,
                    in_use: 0,
                    failed: 0,
                })
                &&& final(self).stage_view() == stage_at(final(self).plan_view(), final(self).reports_view().len() as int)
            },
    {
        let stage = self.plan[self.position];
        let n = if listed { targets.len() } else { 0 };
        let report = StageReport { stage, listed, candidates: n, deleted: 0, in_use: 0, failed: 0 };
        if n == 0 {
            self.finish_stage(report);
            assert(self.issued_deletes() =~= old(self).issued_deletes());
        } else {
            self.started = true;
            self.targets = targets;
            self.next = 0;
            self.current = report;
            assert(self.issued_deletes() =~= old(self).issued_deletes());
            assert(self.pending() =~= targets@.map_values(|s: String| s@));
        }
    }

    /// The id to delete next, in the stage under way.
    pub fn next_target(&self) -> (r: Option<&String>)
        requires
            self.well_formed(),
        ensures
            self.in_stage() ==> (r matches Some(id) && self.pending().len() > 0 && id@ == self.pending()[0]),
            !self.in_stage() ==> r is None,
    {
        if self.started {
            Some(&self.targets[self.next])
        } else {
            None
        }
    }

    fn record_outcome(&mut self, outcome: DeleteOutcome)
        requires
            old(self).well_formed(),
            old(self).in_stage(),
        ensures
            final(self).well_formed(),
            recorded(*old(self), *final(self), outcome),
    {
        let ghost p = self.position as int;
        let ghost old_issued = self.issued_deletes();
        proof {
            self.issued@ = self.issued@.push(p);
        }
        assert(self.issued_deletes() =~= old_issued.push(self.plan@[p]));
        let mut report = self.current;
        match outcome {
            DeleteOutcome::Deleted => report.deleted = report.deleted + 1,
            DeleteOutcome::InUse => report.in_use = report.in_use + 1,
            DeleteOutcome::Failed => report.failed = report.failed + 1,
        }
        self.next = self.next + 1;
        if self.next < self.targets.len() {
            self.current = report;
            assert(self.pending() =~= old(self).pending().drop_first());
        } else {
            let ghost before = self.issued_deletes();
            self.finish_stage(report);
            assert(self.issued_deletes() =~= before);
        }
    }

    /// Records how the delete of the next target ended, in any stage but the
    /// load balancers' (see `record_lb_delete`). Whatever the outcome, the run
    /// moves on to the following target; after the last one the stage closes
    /// with its tallies.
    pub fn record(&mut self, outcome: DeleteOutcome)
        requires
            old(self).well_formed(),
            old(self).in_stage(),
            old(self).stage_view() != Some(Stage::LoadBalancers),
        ensures
            final(self).well_formed(),
            recorded(*old(self), *final(self), outcome),
    {
        self.record_outcome(outcome);
    }

    /// Records the delete of the next load balancer, once it is over: a delete
    /// that was accepted is over only when its poll has completed or timed out.
    /// The run then moves on to the next load balancer, whatever the outcome.
    pub fn record_lb_delete(&mut self, resp: &DeleteResponse, poll: PollState)
        requires
            old(self).well_formed(),
            old(self).in_stage(),
            old(self).stage_view() == Some(Stage::LoadBalancers),
            is_accepted(*resp) ==> poll != PollState::Waiting,
        ensures
            final(self).well_formed(),
            recorded(
                *old(self),
                *final(self),
                if is_accepted(*resp) && poll == PollState::Completed {
                    DeleteOutcome::Deleted
                } else {
                    DeleteOutcome::Failed
                },
            ),
    {
        let outcome = lb_delete_outcome(resp, poll);
        self.record_outcome(outcome);
    }
}

/// `s` is the stage at one of the positions up to `reached` of `plan`.
pub open spec fn reached_stage(plan: Seq<Stage>, reached: int, s: Stage) -> bool {
    exists|a: int| 0 <= a <= reached && a < plan.len() && plan[a] == s
}

/// The shape of every run: it is at the stage of the plan that follows its
/// finished stages, and each delete it issued belongs to a stage of the plan
/// that it has reached.
pub proof fn lemma_run_shape(run: &CleanupRun)
    requires
        run.well_formed(),
    ensures
        run.reports_view().len() <= run.plan_view().len(),
        run.stage_view() == stage_at(run.plan_view(), run.reports_view().len() as int),
        run.in_stage() ==> run.stage_view() is Some,
        forall|k: int| 0 <= k < run.issued_deletes().len() ==> reached_stage(
            run.plan_view(),
            run.reports_view().len() as int,
            #[trigger] run.issued_deletes()[k],
        ),
{
    assert forall|k: int| 0 <= k < run.issued_deletes().len() implies reached_stage(
        run.plan_view(),
        run.reports_view().len() as int,
        #[trigger] run.issued_deletes()[k],
    ) by {
        let a = run.issued@[k];
        assert(0 <= a <= run.reports_view().len() && a < run.plan_view().len());
        assert(run.issued_deletes()[k] == run.plan_view()[a]);
    }
}

/// A pre-destroy run deletes load balancers and Octavia ports only: no
/// floating IP and no security group.
pub proof fn lemma_pre_destroy_deletes(run: &CleanupRun)
    requires
        run.well_formed(),
        run.plan_view() == pre_destroy_stages(),
    ensures
        forall|k: int| 0 <= k < run.issued_deletes().len() ==> #[trigger] run.issued_deletes()[k]
            == Stage::LoadBalancers || run.issued_deletes()[k] == Stage::OctaviaPorts,
{
    lemma_run_shape(run);
    assert forall|k: int| 0 <= k < run.issued_deletes().len() implies #[trigger] run.issued_deletes()[k]
        == Stage::LoadBalancers || run.issued_deletes()[k] == Stage::OctaviaPorts by {
        let a = choose|a: int| 0 <= a <= run.reports_view().len() && a < run.plan_view().len()
            && run.plan_view()[a] == run.issued_deletes()[k];
        assert(a == 0 || a == 1);
    }
}

/// The deletes of a run follow its plan: a delete of a later stage never comes
/// before one of an earlier stage.
proof fn lemma_issued_follow_plan(run: &CleanupRun, i: int, j: int)
    requires
        run.well_formed(),
        0 <= i < j < run.issued_deletes().len(),
    ensures
        exists|a: int, b: int|
            0 <= a <= b < run.plan_view().len() && run.issued_deletes()[i] == run.plan_view()[a]
                && run.issued_deletes()[j] == run.plan_view()[b],
{
    let a = run.issued@[i];
    let b = run.issued@[j];
    assert(0 <= a <= b < run.plan_view().len());
    assert(run.issued_deletes()[i] == run.plan_view()[a]);
    assert(run.issued_deletes()[j] == run.plan_view()[b]);
}

/// In a run on a plan that keeps the deletion protocol (both cleanup plans do),
/// no security-group delete is issued before a load-balancer or port delete,
/// and no load-balancer delete after a port delete.
pub proof fn lemma_deletes_keep_protocol(run: &CleanupRun, i: int, j: int)
    requires
        run.well_formed(),
        follows_protocol(run.plan_view()),
        0 <= i < j < run.issued_deletes().len(),
    ensures
        run.issued_deletes()[i] == Stage::SecurityGroups ==> run.issued_deletes()[j] == Stage::SecurityGroups,
        is_port_stage(run.issued_deletes()[i]) ==> run.issued_deletes()[j] != Stage::LoadBalancers,
{
    lemma_issued_follow_plan(run, i, j);
    let (a, b) = choose|a: int, b: int|
        0 <= a <= b < run.plan_view().len() && run.issued_deletes()[i] == run.plan_view()[a]
            && run.issued_deletes()[j] == run.plan_view()[b];
    if a < b {
        assert(!(run.plan_view()[a] == Stage::SecurityGroups && run.plan_view()[b] != Stage::SecurityGroups));
        assert(!(is_port_stage(run.plan_view()[a]) && run.plan_view()[b] == Stage::LoadBalancers));
    }
}

/// Every plan of the engine keeps the deletion protocol; the orphan sweep also
/// deletes every load balancer and port before any floating IP.
pub proof fn lemma_plans_keep_protocol()
    ensures
        follows_protocol(pre_destroy_stages()),
        follows_protocol(post_destroy_stages()),
        follows_protocol(orphan_sweep_stages(true)),
        follows_protocol(orphan_sweep_stages(false)),
        forall|a: int|
            0 <= a < orphan_sweep_stages(true).len() - 1 ==> #[trigger] orphan_sweep_stages(true)[a] != Stage::FloatingIps,
        forall|a: int|
            0 <= a < orphan_sweep_stages(false).len() - 1 ==> #[trigger] orphan_sweep_stages(false)[a] != Stage::FloatingIps,
{
}

/// What one check on a load balancer being deleted saw.
#[derive(Debug, Clone)]
pub enum PollResponse {
    /// 404: the load balancer is gone.
    Gone,
    /// A success status, with the provisioning status when the body gave one.
    Present(Option<String>),
    /// Another status, a transport error or an unreadable body.
    Unreadable,
}

/// Gone, or in the terminal provisioning states `DELETED` or `ERROR`.
pub open spec fn is_terminal(resp: PollResponse) -> bool {
    match resp {
        PollResponse::Gone => true,
        PollResponse::Present(Some(s)) => s@ == "DELETED"@ || s@ == "ERROR"@,
        _ => false,
    }
}

pub fn is_terminal_response(resp: &PollResponse) -> (r: bool)
    ensures
        r == is_terminal(*resp),
{
    match resp {
        PollResponse::Gone => true,
        PollResponse::Present(Some(s)) => same_text(s, "DELETED") || same_text(s, "ERROR"),
        _ => false,
    }
}

#[derive(Debug, Clone, Copy, PartialEq, Eq, Structural)]
pub enum PollState {
    Waiting,
    Completed,
    TimedOut,
}

/// The wait for an accepted cascade delete to finish: check, and while the
/// load balancer is neither gone nor in a terminal state, sleep the interval
/// and check again, until the deadline has passed.
#[derive(Debug, Clone, Copy)]
pub struct LbDeletionPoll {
    pub timeout_secs: u64,
    pub interval_secs: u64,
    pub state: PollState,
}

/// The state that a poll reaches over the checks of `trace`, each the seconds
/// elapsed before the check and what the check saw.
pub open spec fn poll_result(timeout_secs: u64, trace: Seq<(u64, PollResponse)>) -> PollState
    decreases trace.len(),
{
    if trace.len() == 0 {
        PollState::Waiting
    } else if trace[0].0 > timeout_secs {
        PollState::TimedOut
    } else if is_terminal(trace[0].1) {
        PollState::Completed
    } else {
        poll_result(timeout_secs, trace.drop_first())
    }
}

impl LbDeletionPoll {
    pub fn new(timeout_secs: u64) -> (r: Self)
        ensures
            r.timeout_secs == timeout_secs,
            r.interval_secs == LOADBALANCER_POLL_INTERVAL_SECS,
            r.state == PollState::Waiting,
    {
        LbDeletionPoll { timeout_secs, interval_secs: LOADBALANCER_POLL_INTERVAL_SECS, state: PollState::Waiting }
    }

    /// Before a check: whether to check, given the seconds elapsed since the
    /// delete. Past the deadline the poll times out instead.
    pub fn before_check(&mut self, elapsed_secs: u64) -> (r: bool)
        requires
            old(self).state == PollState::Waiting,
        ensures
            r == (elapsed_secs <= old(self).timeout_secs),
            final(self).timeout_secs == old(self).timeout_secs,
            final(self).interval_secs == old(self).interval_secs,
            final(self).state == if r { PollState::Waiting } else { PollState::TimedOut },
    {
        if elapsed_secs > self.timeout_secs {
            self.state = PollState::TimedOut;
            false
        } else {
            true
        }
    }

    /// After a check: a terminal response completes the poll (an `ERROR`
    /// state too: it will not change); any other keeps it waiting.
    pub fn observe(&mut self, resp: &PollResponse)
        requires
            old(self).state == PollState::Waiting,
        ensures
            final(self).timeout_secs == old(self).timeout_secs,
            final(self).interval_secs == old(self).interval_secs,
            final(self).state == if is_terminal(*resp) { PollState::Completed } else { PollState::Waiting },
    {
        if is_terminal_response(resp) {
            self.state = PollState::Completed;
        }
    }

    /// `Ok` once completed, a timeout error once timed out, nothing while waiting.
    pub fn outcome(&self) -> (r: Option<Result<(), OpenStackError>>)
        ensures
            self.state == PollState::Waiting ==> r is None,
            self.state == PollState::Completed ==> r == Some(Ok::<(), OpenStackError>(())),
            self.state == PollState::TimedOut ==> (r matches Some(Err(OpenStackError::CleanupTimeout { resource }))
                && resource@ == "load balancer"@),
    {
        match self.state {
            PollState::Waiting => None,
            PollState::Completed => Some(Ok(())),
            PollState::TimedOut => Some(Err(OpenStackError::CleanupTimeout { resource: "load balancer".to_owned() })),
        }
    }
}

/// Runs a poll over recorded checks, as a clock and the responses would drive
/// it, and gives the state it ends in.
pub fn run_poll(timeout_secs: u64, trace: &Vec<(u64, PollResponse)>) -> (r: PollState)
    ensures
        r == poll_result(timeout_secs, trace@),
{
    let mut poll = LbDeletionPoll::new(timeout_secs);
    let mut i: usize = 0;
    assert(trace@.subrange(0, trace@.len() as int) =~= trace@);
    while i < trace.len()
        invariant
            i <= trace@.len(),
            poll.timeout_secs == timeout_secs,
            poll.state == PollState::Waiting,
            poll_result(timeout_secs, trace@) == poll_result(timeout_secs, trace@.subrange(i as int, trace@.len() as int)),
        decreases trace@.len() - i,
    {
        let ghost rest = trace@.subrange(i as int, trace@.len() as int);
        assert(rest.drop_first() =~= trace@.subrange(i + 1, trace@.len() as int));
        assert(rest[0] == trace@[i as int]);
        let check = &trace[i];
        if !poll.before_check(check.0) {
            return poll.state;
        }
        poll.observe(&check.1);
        if poll.state == PollState::Completed {
            return poll.state;
        }
        i += 1;
    }
    assert(trace@.subrange(i as int, trace@.len() as int) =~= Seq::<(u64, PollResponse)>::empty());
    poll.state
}

/// A poll whose checks never see the load balancer gone, `DELETED` or `ERROR`
/// ends in a timeout once a check comes after the deadline.
pub proof fn lemma_poll_times_out(timeout_secs: u64, trace: Seq<(u64, PollResponse)>, late: int)
    requires
        0 <= late < trace.len(),
        trace[late].0 > timeout_secs,
        forall|k: int| 0 <= k < trace.len() ==> !is_terminal(#[trigger] trace[k].1),
    ensures
        poll_result(timeout_secs, trace) == PollState::TimedOut,
    decreases trace.len(),
{
    if trace[0].0 <= timeout_secs {
        assert(late > 0);
        assert(!is_terminal(trace[0].1));
        assert forall|k: int| 0 <= k < trace.drop_first().len() implies !is_terminal(#[trigger] trace.drop_first()[k].1) by {
            assert(trace.drop_first()[k] == trace[k + 1]);
        }
        assert(trace.drop_first()[late - 1] == trace[late]);
        lemma_poll_times_out(timeout_secs, trace.drop_first(), late - 1);
    }
}

/// A check within the deadline that sees a 404, or the `ERROR` state, ends the
/// poll as completed, whatever checks would follow.
pub proof fn lemma_poll_completes(timeout_secs: u64, trace: Seq<(u64, PollResponse)>)
    requires
        trace.len() > 0,
        trace[0].0 <= timeout_secs,
        trace[0].1 matches PollResponse::Gone || (trace[0].1 matches PollResponse::Present(Some(s)) && s@ == "ERROR"@),
    ensures
        poll_result(timeout_secs, trace) == PollState::Completed,
{
}

} // verus!
