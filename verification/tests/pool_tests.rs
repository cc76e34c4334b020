use arcdark::errors::ErrorCode;
use arcdark::orchestrator::{ComputationState, DeactivationPolicy, MatchPool};
use arcdark::store::OrderStore;

fn shards(tag: u8) -> Vec<[u8; 32]> {
    vec![[tag; 32], [tag.wrapping_add(1); 32], [tag.wrapping_add(2); 32], [tag.wrapping_add(3); 32]]
}

fn executed_payload(flag: u64) -> Vec<u8> {
    let mut payload = Vec::new();
    let mut m = flag;
    for _ in 0..8 {
        payload.push((m % 256) as u8);
        m /= 256;
    }
    payload.extend([0u8; 16]);
    payload
}

fn pool_with_two_orders(policy: DeactivationPolicy) -> MatchPool {
    let mut pool = MatchPool::init_pool_config(policy);
    let a = pool.place_order([0xaa; 32], &shards(1)).unwrap();
    let b = pool.place_order([0xbb; 32], &shards(10)).unwrap();
    assert_eq!(a, 0);
    assert_eq!(b, 1);
    pool
}

#[test]
fn place_order_rejects_wrong_shard_count() {
    let mut store = OrderStore::new();
    let mut three = shards(1);
    three.pop();
    assert_eq!(store.place_order([1; 32], &three), Err(ErrorCode::InvalidShardCount));
    let mut five = shards(1);
    five.push([9; 32]);
    assert_eq!(store.place_order([1; 32], &five), Err(ErrorCode::InvalidShardCount));
    assert_eq!(store.place_order([1; 32], &Vec::new()), Err(ErrorCode::InvalidShardCount));
    assert!(store.get_order(0).is_none());
}

#[test]
fn place_order_persists_an_active_record() {
    let mut store = OrderStore::new();
    let ix = store.place_order([7; 32], &shards(4)).unwrap();
    assert_eq!(ix, 0);
    let o = store.get_order(0).unwrap();
    assert_eq!(o.owner, [7; 32]);
    assert_eq!(o.encrypted_data, [[4; 32], [5; 32], [6; 32], [7; 32]]);
    assert!(o.is_active);
    assert!(store.get_order(1).is_none());
}

#[test]
fn deactivate_is_idempotent() {
    let mut store = OrderStore::new();
    store.place_order([7; 32], &shards(4)).unwrap();
    assert!(store.is_active(0));
    store.deactivate(0);
    assert!(!store.is_active(0));
    store.deactivate(0);
    assert!(!store.is_active(0));
    // Deactivation touches nothing but the flag.
    let o = store.get_order(0).unwrap();
    assert_eq!(o.owner, [7; 32]);
    assert_eq!(o.encrypted_data, [[4; 32], [5; 32], [6; 32], [7; 32]]);
}

#[test]
fn execute_match_builds_the_job_request_bytes() {
    let mut pool = pool_with_two_orders(DeactivationPolicy::OnSuccess);
    let key = [0x55; 32];
    let nonce: u128 = 0x0102030405060708090a0b0c0d0e0f10;
    let payload = pool.execute_match(42, 0, 1, key, nonce).unwrap();

    assert_eq!(payload.len(), 32 + 16 + 8 * 32);
    assert_eq!(&payload[0..32], &[0x55; 32]);
    let le: Vec<u8> = nonce.to_le_bytes().to_vec();
    assert_eq!(&payload[32..48], le.as_slice());
    for (k, tag) in [1u8, 2, 3, 4, 10, 11, 12, 13].iter().enumerate() {
        assert_eq!(&payload[48 + 32 * k..48 + 32 * (k + 1)], &[*tag; 32]);
    }

    assert_eq!(pool.jobs.len(), 1);
    let job = &pool.jobs[0];
    assert_eq!(job.computation_id, 42);
    assert_eq!(job.maker_order, 0);
    assert_eq!(job.taker_order, 1);
    assert_eq!(job.result_key, key);
    assert_eq!(job.nonce, nonce);
    assert_eq!(job.state, ComputationState::Executing);
}

#[test]
fn execute_match_rejects_inactive_and_missing_orders() {
    let mut pool = pool_with_two_orders(DeactivationPolicy::OnSuccess);
    pool.store.deactivate(1);
    assert_eq!(pool.execute_match(1, 0, 1, [0; 32], 0), Err(ErrorCode::InactiveOrder));
    assert_eq!(pool.execute_match(2, 0, 9, [0; 32], 0), Err(ErrorCode::InactiveOrder));
    assert_eq!(pool.jobs.len(), 0);
}

#[test]
fn callback_with_unknown_id_is_rejected() {
    let mut pool = pool_with_two_orders(DeactivationPolicy::OnSuccess);
    pool.execute_match(42, 0, 1, [0; 32], 7).unwrap();
    let r = pool.execute_dark_match_callback(43, true, &executed_payload(1), 1000);
    assert_eq!(r, Err(ErrorCode::UnknownComputation));
    assert_eq!(pool.jobs[0].state, ComputationState::Executing);
    assert!(pool.store.is_active(0));
    assert!(pool.store.is_active(1));
}

#[test]
fn verified_callback_completes_job_and_emits_event() {
    let mut pool = pool_with_two_orders(DeactivationPolicy::OnSuccess);
    pool.execute_match(42, 0, 1, [0; 32], 7).unwrap();
    let event = pool.execute_dark_match_callback(42, true, &executed_payload(1), 1000).unwrap();
    assert_eq!(event.maker_order, 0);
    assert!(event.success);
    assert_eq!(event.timestamp, 1000);
    assert_eq!(pool.jobs[0].state, ComputationState::Completed);
    // OnSuccess consumed both orders.
    assert!(!pool.store.is_active(0));
    assert!(!pool.store.is_active(1));
}

#[test]
fn duplicate_callback_is_a_rejected_noop() {
    let mut pool = pool_with_two_orders(DeactivationPolicy::OnSuccess);
    pool.execute_match(42, 0, 1, [0; 32], 7).unwrap();
    let first = pool.execute_dark_match_callback(42, true, &executed_payload(1), 1000);
    assert!(first.is_ok());
    let jobs_after_first: Vec<_> = pool.jobs.iter().map(|j| j.state).collect();
    let active_after_first = (pool.store.is_active(0), pool.store.is_active(1));

    let second = pool.execute_dark_match_callback(42, true, &executed_payload(1), 1000);
    assert_eq!(second, Err(ErrorCode::DuplicateCallback));
    let jobs_after_second: Vec<_> = pool.jobs.iter().map(|j| j.state).collect();
    assert_eq!(jobs_after_first, jobs_after_second);
    assert_eq!(active_after_first, (pool.store.is_active(0), pool.store.is_active(1)));
}

#[test]
fn unverified_callback_aborts_and_changes_nothing_else() {
    let mut pool = pool_with_two_orders(DeactivationPolicy::OnCompletion);
    pool.execute_match(42, 0, 1, [0; 32], 7).unwrap();
    let r = pool.execute_dark_match_callback(42, false, &Vec::new(), 1000);
    assert_eq!(r, Err(ErrorCode::AbortedComputation));
    assert_eq!(pool.jobs[0].state, ComputationState::Aborted);
    // Even under OnCompletion an aborted job consumes nothing.
    assert!(pool.store.is_active(0));
    assert!(pool.store.is_active(1));
    // A later delivery for the aborted job is a duplicate.
    let again = pool.execute_dark_match_callback(42, true, &executed_payload(1), 1001);
    assert_eq!(again, Err(ErrorCode::DuplicateCallback));
}

#[test]
fn failed_match_reports_success_false() {
    let mut pool = pool_with_two_orders(DeactivationPolicy::OnSuccess);
    pool.execute_match(42, 0, 1, [0; 32], 7).unwrap();
    let event = pool.execute_dark_match_callback(42, true, &executed_payload(0), 500).unwrap();
    assert!(!event.success);
    assert_eq!(pool.jobs[0].state, ComputationState::Completed);
    // OnSuccess leaves the orders of a failed match active.
    assert!(pool.store.is_active(0));
    assert!(pool.store.is_active(1));
}

#[test]
fn leave_active_policy_never_consumes_orders() {
    let mut pool = pool_with_two_orders(DeactivationPolicy::LeaveActive);
    pool.execute_match(42, 0, 1, [0; 32], 7).unwrap();
    pool.execute_dark_match_callback(42, true, &executed_payload(1), 0).unwrap();
    assert!(pool.store.is_active(0));
    assert!(pool.store.is_active(1));
}

#[test]
fn on_completion_policy_consumes_orders_of_a_failed_match() {
    let mut pool = pool_with_two_orders(DeactivationPolicy::OnCompletion);
    pool.execute_match(42, 0, 1, [0; 32], 7).unwrap();
    pool.execute_dark_match_callback(42, true, &executed_payload(0), 0).unwrap();
    assert!(!pool.store.is_active(0));
    assert!(!pool.store.is_active(1));
}

#[test]
fn consumed_orders_reject_resubmission() {
    let mut pool = pool_with_two_orders(DeactivationPolicy::OnSuccess);
    pool.execute_match(42, 0, 1, [0; 32], 7).unwrap();
    pool.execute_dark_match_callback(42, true, &executed_payload(1), 0).unwrap();
    assert_eq!(pool.execute_match(43, 0, 1, [0; 32], 8), Err(ErrorCode::InactiveOrder));
}

#[test]
fn double_submission_against_active_orders_is_not_prevented() {
    // Submission does not reserve an order: while both orders are still
    // active, a second job referencing them is accepted.
    let mut pool = pool_with_two_orders(DeactivationPolicy::OnSuccess);
    assert!(pool.execute_match(1, 0, 1, [0; 32], 7).is_ok());
    assert!(pool.execute_match(2, 0, 1, [0; 32], 8).is_ok());
    assert_eq!(pool.jobs.len(), 2);
}

#[test]
fn independent_jobs_do_not_disturb_each_other() {
    let mut pool = pool_with_two_orders(DeactivationPolicy::LeaveActive);
    let c = pool.place_order([0xcc; 32], &shards(20)).unwrap();
    let d = pool.place_order([0xdd; 32], &shards(30)).unwrap();
    pool.execute_match(1, 0, 1, [0; 32], 7).unwrap();
    pool.execute_match(2, c, d, [0; 32], 8).unwrap();
    pool.execute_dark_match_callback(2, true, &executed_payload(1), 0).unwrap();
    assert_eq!(pool.jobs[0].state, ComputationState::Executing);
    assert_eq!(pool.jobs[1].state, ComputationState::Completed);
    let r = pool.execute_dark_match_callback(1, false, &Vec::new(), 0);
    assert_eq!(r, Err(ErrorCode::AbortedComputation));
    assert_eq!(pool.jobs[0].state, ComputationState::Aborted);
    assert_eq!(pool.jobs[1].state, ComputationState::Completed);
}
