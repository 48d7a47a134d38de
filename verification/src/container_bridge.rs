//! Container orchestration bookkeeping: deployment, scaling and the
//! allocation of container ids.
//!
//! Container ids are handed out in increasing order starting at 1: each
//! call that hands out ids takes them from `next_container_id` upwards and
//! moves the counter past them. As long as the counter is changed only by
//! these calls (it is a public field), every id handed out is below it and
//! no id is handed out twice.
use vstd::prelude::*;

verus! {

/// Container deployment request.
#[derive(Debug, Clone)]
pub struct DeployRequest {
    pub image_hash: [u8; 32],
    pub cpu_limit_us: u64,
    pub memory_limit: u64,
    pub replicas: u32,
    pub region: u8,
}

/// Container health status.
#[derive(Debug, Clone, Copy, PartialEq, Eq, Structural)]
pub enum HealthStatus {
    Healthy,
    Degraded,
    Unhealthy,
    Unknown,
}

/// Deployment result.
#[derive(Debug, Clone)]
pub struct DeployResult {
    pub container_ids: Vec<u64>,
    pub status: HealthStatus,
}

/// Container orchestrator.
pub struct ContainerOrchestrator {
    /// The id the next new container receives.
    pub next_container_id: u64,
    pub deployments: u64,
    pub scale_events: u64,
    pub health_checks: u64,
}

/// The `n` consecutive ids starting at `first`.
pub open spec fn id_run(first: u64, n: nat) -> Seq<u64> {
    Seq::new(n, |i: int| (first + i) as u64)
}

impl ContainerOrchestrator {
    /// A fresh orchestrator: ids start at 1, all counters at 0.
    pub fn new() -> (o: Self)
        ensures
            o.next_container_id == 1,
            o.deployments == 0,
            o.scale_events == 0,
            o.health_checks == 0,
    {
        ContainerOrchestrator { next_container_id: 1, deployments: 0, scale_events: 0, health_checks: 0 }
    }

    /// Deploy `req.replicas` containers: they receive the next ids in order,
    /// and the result reports them healthy.
    pub fn deploy(&mut self, req: &DeployRequest) -> (r: DeployResult)
        requires
            old(self).next_container_id + req.replicas <= u64::MAX,
            old(self).deployments < u64::MAX,
        ensures
            r.container_ids@ == id_run(old(self).next_container_id, req.replicas as nat),
            r.status == HealthStatus::Healthy,
            final(self).next_container_id == old(self).next_container_id + req.replicas,
            final(self).deployments == old(self).deployments + 1,
            final(self).scale_events == old(self).scale_events,
            final(self).health_checks == old(self).health_checks,
    {
        let ghost first = self.next_container_id;
        let mut ids: Vec<u64> = Vec::new();
        let mut i: u32 = 0;
        while i < req.replicas
            invariant
                i <= req.replicas,
                first + req.replicas <= u64::MAX,
                self.next_container_id == first + i,
                ids@ == id_run(first, i as nat),
                self.deployments == old(self).deployments,
                self.scale_events == old(self).scale_events,
                self.health_checks == old(self).health_checks,
            decreases req.replicas - i,
        {
            ids.push(self.next_container_id);
            self.next_container_id = self.next_container_id + 1;
            i = i + 1;
            assert(ids@ =~= id_run(first, i as nat));
        }
        self.deployments = self.deployments + 1;
        DeployResult { container_ids: ids, status: HealthStatus::Healthy }
    }

    /// Scale to `target_replicas`, the current count being taken modulo 2^32 as
    /// a `u32`: growing keeps the current ids and appends
    /// fresh ones; shrinking keeps the first `target_replicas` ids.
    pub fn scale(&mut self, current_ids: &[u64], target_replicas: u32) -> (r: Vec<u64>)
        requires
            old(self).scale_events < u64::MAX,
            target_replicas > (current_ids@.len() as u32) ==> old(self).next_container_id + (
            target_replicas - (current_ids@.len() as u32)) <= u64::MAX,
        ensures
            final(self).scale_events == old(self).scale_events + 1,
            final(self).deployments == old(self).deployments,
            final(self).health_checks == old(self).health_checks,
            target_replicas > (current_ids@.len() as u32) ==> {
                &&& r@ == current_ids@ + id_run(
                    old(self).next_container_id,
                    (target_replicas - (current_ids@.len() as u32)) as nat,
                )
                &&& final(self).next_container_id == old(self).next_container_id + (target_replicas
                    - (current_ids@.len() as u32))
            },
            target_replicas <= (current_ids@.len() as u32) ==> {
                &&& r@ == current_ids@.subrange(0, target_replicas as int)
                &&& final(self).next_container_id == old(self).next_container_id
            },
    {
        self.scale_events = self.scale_events + 1;
        let current = #[verifier::truncate] (current_ids.len() as u32);
        if target_replicas > current {
            let ghost first = self.next_container_id;
            let mut new_ids = vstd::slice::slice_to_vec(current_ids);
            let mut i: u32 = current;
            while i < target_replicas
                invariant
                    current <= i <= target_replicas,
                    current == (current_ids@.len() as u32),
                    first + (target_replicas - current) <= u64::MAX,
                    self.next_container_id == first + (i - current),
                    new_ids@ == current_ids@ + id_run(first, (i - current) as nat),
                    self.scale_events == old(self).scale_events + 1,
                    self.deployments == old(self).deployments,
                    self.health_checks == old(self).health_checks,
                decreases target_replicas - i,
            {
                new_ids.push(self.next_container_id);
                self.next_container_id = self.next_container_id + 1;
                i = i + 1;
                assert(new_ids@ =~= current_ids@ + id_run(first, (i - current) as nat));
            }
            new_ids
        } else {
            vstd::slice::slice_to_vec(vstd::slice::slice_subrange(current_ids, 0, target_replicas as usize))
        }
    }
}

/// The ids of a run are distinct and lie between the id counter before the
/// call and the counter after it; since every call that hands out ids moves
/// the counter past them, no two calls on one orchestrator share an id.
pub proof fn lemma_deployed_ids_fresh(first: u64, n: nat)
    requires
        first + n <= u64::MAX,
    ensures
        forall|i: int| #![trigger id_run(first, n)[i]]
            0 <= i < n ==> first <= id_run(first, n)[i] < first + n,
        forall|i: int, j: int|
            0 <= i < n && 0 <= j < n && i != j ==> id_run(first, n)[i] != id_run(first, n)[j],
{
}

/// Two calls in a row hand out disjoint ids: the second run starts where the
/// first one ended.
pub proof fn lemma_consecutive_runs_disjoint(first: u64, n1: nat, n2: nat)
    requires
        first + n1 + n2 <= u64::MAX,
    ensures
        forall|i: int, j: int|
            0 <= i < n1 && 0 <= j < n2 ==> #[trigger] id_run(first, n1)[i] != #[trigger] id_run(
                (first + n1) as u64,
                n2,
            )[j],
{
}

/// Sum of the run lengths.
pub open spec fn total_len(ns: Seq<nat>) -> nat
    decreases ns.len(),
{
    if ns.len() == 0 {
        0
    } else {
        total_len(ns.drop_last()) + ns.last()
    }
}

/// Where run `i` starts when runs of lengths `ns` follow each other from
/// `first`.
pub open spec fn run_start(first: u64, ns: Seq<nat>, i: int) -> u64 {
    (first + total_len(ns.take(i))) as u64
}

proof fn lemma_total_len_prefix(ns: Seq<nat>, i: int, j: int)
    requires
        0 <= i < j <= ns.len(),
    ensures
        total_len(ns.take(i)) + ns[i] <= total_len(ns.take(j)),
        total_len(ns.take(j)) <= total_len(ns),
    decreases ns.len() - i, j - i,
{
    assert(ns.take(ns.len() as int) =~= ns);
    if j == i + 1 {
        assert(ns.take(j).drop_last() =~= ns.take(i));
    } else {
        lemma_total_len_prefix(ns, i, j - 1);
        assert(ns.take(j).drop_last() =~= ns.take(j - 1));
    }
    if j < ns.len() {
        lemma_total_len_prefix(ns, j, ns.len() as int);
    }
}

/// Over any sequence of calls that hand out runs of ids one after another
/// from `first` (each starting where the previous one ended, as `deploy` and
/// `scale` do), ids increase strictly within a run and every id of a later
/// run is greater than every id of an earlier one, so no id is handed out
/// twice.
pub proof fn lemma_id_runs_increasing(first: u64, ns: Seq<nat>, i: int, a: int, j: int, b: int)
    requires
        first + total_len(ns) <= u64::MAX,
        0 <= i <= j < ns.len(),
        0 <= a < ns[i],
        0 <= b < ns[j],
        i == j ==> a < b,
    ensures
        id_run(run_start(first, ns, i), ns[i])[a] < id_run(run_start(first, ns, j), ns[j])[b],
{
    lemma_total_len_prefix(ns, i, ns.len() as int);
    if i < j {
        lemma_total_len_prefix(ns, i, j);
        lemma_total_len_prefix(ns, j, ns.len() as int);
    }
}

} // verus!
