//! The computation orchestrator and callback verifier.
//!
//! A match request packages two active orders' ciphertext shards into a
//! cluster job and is fire-and-forget: the submitting flow never blocks on
//! the cluster, whose latency is unbounded.  The result arrives later as an
//! independent callback.  Each job moves `Queued -> Executing ->
//! {Completed | Aborted}` and never leaves a terminal state; a duplicate
//! callback for a terminal job is a rejected no-op.
//!
//! Whether the cluster's signature on a callback checks against its key
//! material is decided outside this crate, by the cluster's own verified
//! execution path; the callback entry point here takes that verdict as a
//! plain boolean and drives the state transition that follows from it.

use vstd::prelude::*;
use crate::codec::{append_block, append_u128_le, executed_flag, read_u64_le, u128_le_bytes};
use crate::errors::ErrorCode;
use crate::store::{deactivated, order_placed, DarkOrder, OrderStore};

verus! {

/// Lifecycle of one match job.  `Queued` is the transient state between
/// local acceptance and hand-off; a job is recorded as `Executing` as soon
/// as the submission call returns.
#[derive(Clone, Copy, Debug, PartialEq, Eq, Structural)]
pub enum ComputationState {
    Queued,
    Executing,
    Completed,
    Aborted,
}

/// A job that reached `Completed` or `Aborted` stays there.
pub open spec fn is_terminal(s: ComputationState) -> bool {
    s is Completed || s is Aborted
}

impl ComputationState {
    /// Whether this state is terminal.
    pub fn terminal(&self) -> (r: bool)
        ensures
            r == is_terminal(*self),
    {
        match self {
            ComputationState::Completed => true,
            ComputationState::Aborted => true,
            _ => false,
        }
    }
}

/// One tracked match request: the two order references, the one-time key
/// the cluster re-encrypts the verdict to, the submission nonce that
/// prevents replay of a stale payload, and the job's lifecycle state.
#[derive(Clone, Copy, Debug)]
pub struct MatchJob {
    pub computation_id: u64,
    pub maker_order: usize,
    pub taker_order: usize,
    pub result_key: [u8; 32],
    pub nonce: u128,
    pub state: ComputationState,
}

/// What a completed match makes publicly observable: an order reference,
/// the boolean outcome and a timestamp.  The execution price and volume
/// are never part of it; they stay readable only to the holder of the
/// job's result key.
#[derive(Clone, Copy, Debug, PartialEq, Eq, Structural)]
pub struct TradeEvent {
    pub maker_order: usize,
    pub success: bool,
    pub timestamp: i64,
}

/// Whether matched orders are deactivated when their job completes, or
/// left active for further matching.  Aborted jobs never deactivate
/// anything.
#[derive(Clone, Copy, Debug, PartialEq, Eq, Structural)]
pub enum DeactivationPolicy {
    /// Orders stay active whatever the outcome.
    LeaveActive,
    /// Orders are consumed only by a trade that executed.
    OnSuccess,
    /// Any completed match attempt consumes its orders, executed or not.
    OnCompletion,
}

/// Whether `policy` consumes the orders of a completed job whose executed
/// flag is `success`.
pub open spec fn deactivates(policy: DeactivationPolicy, success: bool) -> bool {
    match policy {
        DeactivationPolicy::LeaveActive => false,
        DeactivationPolicy::OnSuccess => success,
        DeactivationPolicy::OnCompletion => true,
    }
}

/// No two tracked jobs share a computation id.
pub open spec fn unique_ids(jobs: Seq<MatchJob>) -> bool {
    forall|i: int, j: int|
        0 <= i < j < jobs.len() ==> (#[trigger] jobs[i]).computation_id != (
        #[trigger] jobs[j]).computation_id
}

/// Some tracked job carries `computation_id`.
pub open spec fn has_job(jobs: Seq<MatchJob>, computation_id: u64) -> bool {
    exists|i: int| 0 <= i < jobs.len() && (#[trigger] jobs[i]).computation_id == computation_id
}

/// The index of the job carrying `computation_id`; meaningful under
/// `has_job`, unique under `unique_ids`.
pub open spec fn job_index(jobs: Seq<MatchJob>, computation_id: u64) -> int {
    choose|i: int| 0 <= i < jobs.len() && (#[trigger] jobs[i]).computation_id == computation_id
}

/// `j` moved to lifecycle state `s`, everything else unchanged.
pub open spec fn with_state(j: MatchJob, s: ComputationState) -> MatchJob {
    MatchJob { state: s, ..j }
}

/// Under `unique_ids`, `job_index` is the one index carrying the id.
pub proof fn lemma_job_index(jobs: Seq<MatchJob>, computation_id: u64)
    requires
        unique_ids(jobs),
        has_job(jobs, computation_id),
    ensures
        0 <= job_index(jobs, computation_id) < jobs.len(),
        jobs[job_index(jobs, computation_id)].computation_id == computation_id,
        forall|k: int|
            0 <= k < jobs.len() && (#[trigger] jobs[k]).computation_id == computation_id ==> k
                == job_index(jobs, computation_id),
{
    let i = job_index(jobs, computation_id);
    assert(0 <= i < jobs.len() && jobs[i].computation_id == computation_id);
    assert forall|k: int|
        0 <= k < jobs.len() && (#[trigger] jobs[k]).computation_id == computation_id implies k
        == i by {
        if k < i {
            assert(jobs[k].computation_id != jobs[i].computation_id);
        } else if i < k {
            assert(jobs[i].computation_id != jobs[k].computation_id);
        }
    }
}

/// Both references name records that are currently active.
pub open spec fn orders_active(orders: Seq<DarkOrder>, maker_order: usize, taker_order: usize) -> bool {
    &&& maker_order < orders.len()
    &&& taker_order < orders.len()
    &&& orders[maker_order as int].is_active
    &&& orders[taker_order as int].is_active
}

/// The four ciphertext shards of one order, concatenated.
pub open spec fn order_shard_bytes(o: DarkOrder) -> Seq<u8> {
    o.encrypted_data@[0]@ + o.encrypted_data@[1]@ + o.encrypted_data@[2]@ + o.encrypted_data@[3]@
}

/// The cluster job request, in fixed order: result key, nonce, the four
/// shards of the maker order, the four of the taker order.
pub open spec fn job_args(
    result_key: [u8; 32],
    nonce: u128,
    maker: DarkOrder,
    taker: DarkOrder,
) -> Seq<u8> {
    result_key@ + u128_le_bytes(nonce) + order_shard_bytes(maker) + order_shard_bytes(taker)
}

/// `post` extends `pre` by exactly one job in state `Executing` carrying
/// the submission's parameters.
pub open spec fn job_submitted(
    pre: Seq<MatchJob>,
    post: Seq<MatchJob>,
    computation_id: u64,
    maker_order: usize,
    taker_order: usize,
    result_key: [u8; 32],
    nonce: u128,
) -> bool {
    &&& post.len() == pre.len() + 1
    &&& post.subrange(0, pre.len() as int) == pre
    &&& post.last().computation_id == computation_id
    &&& post.last().maker_order == maker_order
    &&& post.last().taker_order == taker_order
    &&& post.last().result_key == result_key
    &&& post.last().nonce == nonce
    &&& post.last().state is Executing
}

/// The jobs after a callback for `computation_id` was delivered: an
/// unknown id or a terminal job changes nothing; otherwise the job becomes
/// `Completed` when the result verified and `Aborted` when it did not.
pub open spec fn jobs_after_callback(
    jobs: Seq<MatchJob>,
    computation_id: u64,
    verified: bool,
) -> Seq<MatchJob> {
    if !has_job(jobs, computation_id) {
        jobs
    } else {
        let i = job_index(jobs, computation_id);
        if is_terminal(jobs[i].state) {
            jobs
        } else if verified {
            jobs.update(i, with_state(jobs[i], ComputationState::Completed))
        } else {
            jobs.update(i, with_state(jobs[i], ComputationState::Aborted))
        }
    }
}

/// The order records after a callback: only a verified result for a
/// non-terminal job may consume the two referenced orders, and only as far
/// as the pool's policy says.
pub open spec fn orders_after_callback(
    orders: Seq<DarkOrder>,
    jobs: Seq<MatchJob>,
    computation_id: u64,
    verified: bool,
    payload: Seq<u8>,
    policy: DeactivationPolicy,
) -> Seq<DarkOrder> {
    if has_job(jobs, computation_id) && !is_terminal(jobs[job_index(jobs, computation_id)].state)
        && verified && deactivates(policy, executed_flag(payload)) {
        let j = jobs[job_index(jobs, computation_id)];
        let once = orders.update(j.maker_order as int, deactivated(orders[j.maker_order as int]));
        once.update(j.taker_order as int, deactivated(once[j.taker_order as int]))
    } else {
        orders
    }
}

/// The event a verified callback for job `j` emits.
pub open spec fn event_of(j: MatchJob, payload: Seq<u8>, timestamp: i64) -> TradeEvent {
    TradeEvent { maker_order: j.maker_order, success: executed_flag(payload), timestamp }
}

/// What a callback delivery returns: the emitted event when it applied, or
/// the exact reason it was rejected.
pub open spec fn callback_outcome(
    jobs: Seq<MatchJob>,
    computation_id: u64,
    verified: bool,
    payload: Seq<u8>,
    timestamp: i64,
) -> Result<TradeEvent, ErrorCode> {
    if !has_job(jobs, computation_id) {
        Err(ErrorCode::UnknownComputation)
    } else if is_terminal(jobs[job_index(jobs, computation_id)].state) {
        Err(ErrorCode::DuplicateCallback)
    } else if !verified {
        Err(ErrorCode::AbortedComputation)
    } else {
        Ok(event_of(jobs[job_index(jobs, computation_id)], payload, timestamp))
    }
}

/// The matching pool: the order records, the tracked jobs and the
/// deactivation policy chosen at initialisation.
pub struct MatchPool {
    pub store: OrderStore,
    pub jobs: Vec<MatchJob>,
    pub policy: DeactivationPolicy,
}

impl MatchPool {
    /// Well-formedness: computation ids are unique and every job's order
    /// references point into the store.
    pub open spec fn wf(self) -> bool {
        &&& unique_ids(self.jobs@)
        &&& forall|i: int|
            0 <= i < self.jobs@.len() ==> (#[trigger] self.jobs@[i]).maker_order
                < self.store.orders@.len() && self.jobs@[i].taker_order < self.store.orders@.len()
    }

    /// An empty pool with the given deactivation policy.
    pub fn init_pool_config(policy: DeactivationPolicy) -> (p: MatchPool)
        ensures
            p.wf(),
            p.store.orders@.len() == 0,
            p.jobs@.len() == 0,
            p.policy == policy,
    {
        MatchPool { store: OrderStore::new(), jobs: Vec::new(), policy }
    }

    /// Creates a new active order record; see [`OrderStore::place_order`].
    pub fn place_order(&mut self, owner: [u8; 32], shards: &Vec<[u8; 32]>) -> (r: Result<
        usize,
        ErrorCode,
    >)
        requires
            old(self).wf(),
        ensures
            final(self).wf(),
            final(self).jobs@ == old(self).jobs@,
            final(self).policy == old(self).policy,
            shards@.len() == 4 ==> r == Ok::<usize, ErrorCode>(old(self).store.orders@.len() as usize)
                && order_placed(old(self).store.orders@, final(self).store.orders@, owner, shards@),
            shards@.len() != 4 ==> r == Err::<usize, ErrorCode>(ErrorCode::InvalidShardCount)
                && final(self).store.orders@ == old(self).store.orders@,
    {
        self.store.place_order(owner, shards)
    }

    /// The index of the tracked job carrying `computation_id`, if any.
    fn find_job(&self, computation_id: u64) -> (r: Option<usize>)
        ensures
            match r {
                Some(i) => i < self.jobs@.len() && self.jobs@[i as int].computation_id
                    == computation_id,
                None => !has_job(self.jobs@, computation_id),
            },
    {
        let mut i: usize = 0;
        while i < self.jobs.len()
            invariant
                i <= self.jobs@.len(),
                forall|k: int|
                    0 <= k < i ==> (#[trigger] self.jobs@[k]).computation_id != computation_id,
            decreases self.jobs@.len() - i,
        {
            if self.jobs[i].computation_id == computation_id {
                return Some(i);
            }
            i += 1;
        }
        None
    }

    /// Submits a match between two active orders.
    ///
    /// On success the job is tracked as `Executing` and the returned bytes
    /// are the cluster job request: result key, nonce, then the maker's
    /// four ciphertext shards followed by the taker's.  The caller hands
    /// them to the cluster and does not wait; the verdict comes back later
    /// through [`MatchPool::execute_dark_match_callback`].
    ///
    /// A submission referencing a missing or inactive order is rejected
    /// before any job is created.  The caller supplies a computation id
    /// that is not already tracked; a retry after an aborted job needs a
    /// fresh one.
    ///
    /// Nothing reserves an order at submission: orders are only consumed
    /// when a job completes, so two submissions referencing the same
    /// still-active order both succeed.  This check-then-act gap is a
    /// deliberate, documented property of the design; a caller that wants
    /// one in-flight job per order must serialise submissions itself.
    pub fn execute_match(
        &mut self,
        computation_id: u64,
        maker_order: usize,
        taker_order: usize,
        result_key: [u8; 32],
        nonce: u128,
    ) -> (r: Result<Vec<u8>, ErrorCode>)
        requires
            old(self).wf(),
            !has_job(old(self).jobs@, computation_id),
        ensures
            final(self).wf(),
            final(self).store.orders@ == old(self).store.orders@,
            final(self).policy == old(self).policy,
            !orders_active(old(self).store.orders@, maker_order, taker_order) ==> r == Err::<
                Vec<u8>,
                ErrorCode,
            >(ErrorCode::InactiveOrder) && final(self).jobs@ == old(self).jobs@,
            orders_active(old(self).store.orders@, maker_order, taker_order) ==> (r matches Ok(
                payload,
            ) && payload@ == job_args(
                result_key,
                nonce,
                old(self).store.orders@[maker_order as int],
                old(self).store.orders@[taker_order as int],
            ) && job_submitted(
                old(self).jobs@,
                final(self).jobs@,
                computation_id,
                maker_order,
                taker_order,
                result_key,
                nonce,
            )),
    {
        if !self.store.is_active(maker_order) || !self.store.is_active(taker_order) {
            return Err(ErrorCode::InactiveOrder);
        }
        let maker: DarkOrder = self.store.orders[maker_order];
        let taker: DarkOrder = self.store.orders[taker_order];

        let mut payload: Vec<u8> = Vec::new();
        append_block(&mut payload, &result_key);
        append_u128_le(&mut payload, nonce);
        append_block(&mut payload, &maker.encrypted_data[0]);
        append_block(&mut payload, &maker.encrypted_data[1]);
        append_block(&mut payload, &maker.encrypted_data[2]);
        append_block(&mut payload, &maker.encrypted_data[3]);
        append_block(&mut payload, &taker.encrypted_data[0]);
        append_block(&mut payload, &taker.encrypted_data[1]);
        append_block(&mut payload, &taker.encrypted_data[2]);
        append_block(&mut payload, &taker.encrypted_data[3]);
        proof {
            assert(payload@ =~= job_args(result_key, nonce, maker, taker));
        }

        self.jobs.push(
            MatchJob {
                computation_id,
                maker_order,
                taker_order,
                result_key,
                nonce,
                state: ComputationState::Executing,
            },
        );
        proof {
            assert(self.jobs@.subrange(0, old(self).jobs@.len() as int) =~= old(self).jobs@);
            assert forall|i: int, j: int| 0 <= i < j < self.jobs@.len() implies (
            #[trigger] self.jobs@[i]).computation_id != (#[trigger] self.jobs@[j]).computation_id by {
                if j == self.jobs@.len() - 1 && self.jobs@[i].computation_id == computation_id {
                    assert(has_job(old(self).jobs@, computation_id));
                }
            }
        }
        Ok(payload)
    }

    /// The callback entry point: delivers the cluster's (already
    /// signature-checked) verdict for a submitted job.
    ///
    /// An unknown computation id, a terminal job, or a failed verification
    /// is a rejection; the failed verification also marks the job
    /// `Aborted` and changes nothing else.  A verified result completes
    /// the job, consumes the referenced orders as far as the pool's policy
    /// says, and yields the public event: an order reference, the boolean
    /// outcome read from the payload's leading little-endian flag, and the
    /// caller's timestamp.  Price and volume stay out of it.
    pub fn execute_dark_match_callback(
        &mut self,
        computation_id: u64,
        verified: bool,
        payload: &Vec<u8>,
        timestamp: i64,
    ) -> (r: Result<TradeEvent, ErrorCode>)
        requires
            old(self).wf(),
            verified ==> payload@.len() >= 8,
        ensures
            final(self).wf(),
            final(self).policy == old(self).policy,
            final(self).jobs@ == jobs_after_callback(old(self).jobs@, computation_id, verified),
            final(self).store.orders@ == orders_after_callback(
                old(self).store.orders@,
                old(self).jobs@,
                computation_id,
                verified,
                payload@,
                old(self).policy,
            ),
            r == callback_outcome(old(self).jobs@, computation_id, verified, payload@, timestamp),
    {
        let found = self.find_job(computation_id);
        match found {
            None => Err(ErrorCode::UnknownComputation),
            Some(i) => {
                proof {
                    lemma_job_index(old(self).jobs@, computation_id);
                    assert(job_index(old(self).jobs@, computation_id) == i);
                }
                let job: MatchJob = self.jobs[i];
                if job.state.terminal() {
                    Err(ErrorCode::DuplicateCallback)
                } else if !verified {
                    let mut aborted: MatchJob = job;
                    aborted.state = ComputationState::Aborted;
                    self.jobs[i] = aborted;
                    proof {
                        assert(self.jobs@ =~= jobs_after_callback(
                            old(self).jobs@,
                            computation_id,
                            verified,
                        ));
                    }
                    Err(ErrorCode::AbortedComputation)
                } else {
                    let success: bool = read_u64_le(payload, 0) == 1;
                    let mut completed: MatchJob = job;
                    completed.state = ComputationState::Completed;
                    self.jobs[i] = completed;
                    proof {
                        assert(self.jobs@ =~= jobs_after_callback(
                            old(self).jobs@,
                            computation_id,
                            verified,
                        ));
                    }
                    let consume: bool = match self.policy {
                        DeactivationPolicy::LeaveActive => false,
                        DeactivationPolicy::OnSuccess => success,
                        DeactivationPolicy::OnCompletion => true,
                    };
                    if consume {
                        self.store.deactivate(job.maker_order);
                        self.store.deactivate(job.taker_order);
                    }
                    Ok(TradeEvent { maker_order: job.maker_order, success, timestamp })
                }
            },
        }
    }
}

/// A job that reached a terminal state never leaves it: whatever callback
/// is delivered, for whatever computation id, a terminal job is untouched.
pub proof fn lemma_terminal_jobs_stay(
    jobs: Seq<MatchJob>,
    computation_id: u64,
    verified: bool,
    k: int,
)
    requires
        0 <= k < jobs.len(),
        is_terminal(jobs[k].state),
    ensures
        ({
            let jobs1 = jobs_after_callback(jobs, computation_id, verified);
            &&& jobs1.len() == jobs.len()
            &&& jobs1[k] == jobs[k]
        }),
{
    if has_job(jobs, computation_id) {
        let i = job_index(jobs, computation_id);
        if !is_terminal(jobs[i].state) {
            assert(i != k);
        }
    }
}

/// Delivering the same callback twice changes state exactly once: after
/// one delivery, delivering it again leaves the jobs and the order records
/// exactly as they were, and a delivery that applied or aborted is answered
/// the second time with a duplicate-callback rejection.
pub proof fn lemma_callback_idempotent(
    orders: Seq<DarkOrder>,
    jobs: Seq<MatchJob>,
    computation_id: u64,
    verified: bool,
    payload: Seq<u8>,
    timestamp: i64,
    policy: DeactivationPolicy,
)
    requires
        unique_ids(jobs),
    ensures
        ({
            let jobs1 = jobs_after_callback(jobs, computation_id, verified);
            let orders1 = orders_after_callback(orders, jobs, computation_id, verified, payload, policy);
            &&& jobs_after_callback(jobs1, computation_id, verified) == jobs1
            &&& orders_after_callback(orders1, jobs1, computation_id, verified, payload, policy)
                == orders1
            &&& has_job(jobs, computation_id) && !is_terminal(
                jobs[job_index(jobs, computation_id)].state,
            ) ==> callback_outcome(jobs1, computation_id, verified, payload, timestamp) == Err::<
                TradeEvent,
                ErrorCode,
            >(ErrorCode::DuplicateCallback)
        }),
{
    if has_job(jobs, computation_id) {
        lemma_job_index(jobs, computation_id);
        let i = job_index(jobs, computation_id);
        if !is_terminal(jobs[i].state) {
            let jobs1 = jobs_after_callback(jobs, computation_id, verified);
            assert(jobs1.len() == jobs.len());
            assert(jobs1[i].computation_id == computation_id);
            assert(is_terminal(jobs1[i].state));
            assert(unique_ids(jobs1)) by {
                assert forall|a: int, b: int| 0 <= a < b < jobs1.len() implies (
                #[trigger] jobs1[a]).computation_id != (#[trigger] jobs1[b]).computation_id by {
                    assert(jobs1[a].computation_id == jobs[a].computation_id);
                    assert(jobs1[b].computation_id == jobs[b].computation_id);
                }
            }
            assert(has_job(jobs1, computation_id));
            lemma_job_index(jobs1, computation_id);
            assert(job_index(jobs1, computation_id) == i);
            assert(jobs_after_callback(jobs1, computation_id, verified) == jobs1);
        }
    }
}

} // verus!
