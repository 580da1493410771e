use task_manager_pro::reputation::{points_for_event, ReputationEventType};
use task_manager_pro::safety_models::{
    ms_approve, ms_reject, ms_submit, pure_dispute_split, pure_escrow_lock, pure_escrow_release,
    pure_escrow_stats_invariant, pure_fee_calculation, pure_oracle_min_out, pure_oracle_min_out_i64,
    pure_reputation_update, pure_saturating_add, pure_saturating_sub, pure_slippage_guard, pure_threshold,
    pure_validate_route, pure_vault_claim, pure_vault_deposit, MsState,
};

#[test]
fn fee_calculation_splits_the_reward() {
    assert_eq!(pure_fee_calculation(0, 500), (0, 0));
    assert_eq!(pure_fee_calculation(1000, 0), (0, 1000));
    assert_eq!(pure_fee_calculation(1000, 250), (25, 975));
    // 10% of 999 truncates to 99.
    assert_eq!(pure_fee_calculation(999, 1000), (99, 900));
    assert_eq!(pure_fee_calculation(1000, 10000), (1000, 0));
    // Truncation is toward zero for a negative reward.
    assert_eq!(pure_fee_calculation(-999, 1000), (-99, -900));
}

#[test]
fn vault_deposit_and_claim_bookkeeping() {
    assert_eq!(pure_vault_deposit(100, 10, 5), Some((105, 15)));
    assert_eq!(pure_vault_deposit(100, 10, 0), None);
    assert_eq!(pure_vault_deposit(i128::MAX, 0, 1), None);
    assert_eq!(pure_vault_deposit(0, i128::MAX, 1), None);
    assert_eq!(pure_vault_claim(100, 10, 10), Some((90, 0)));
    assert_eq!(pure_vault_claim(100, 10, 11), None);
    assert_eq!(pure_vault_claim(5, 10, 6), None);
    assert_eq!(pure_vault_claim(100, 10, -1), None);
}

#[test]
fn escrow_lock_and_release_bookkeeping() {
    assert_eq!(pure_escrow_release(100, 40), Some(60));
    assert_eq!(pure_escrow_release(100, 100), Some(0));
    assert_eq!(pure_escrow_release(100, 101), None);
    assert_eq!(pure_escrow_release(100, -1), None);
    assert_eq!(pure_escrow_lock(100, 40), Some(140));
    assert_eq!(pure_escrow_lock(100, 0), None);
    assert_eq!(pure_escrow_lock(i128::MAX, 1), None);
}

#[test]
fn reputation_update_is_floored_at_zero() {
    assert_eq!(pure_reputation_update(100, 50), 150);
    assert_eq!(pure_reputation_update(30, -50), 0);
    assert_eq!(pure_reputation_update(50, -50), 0);
    assert_eq!(points_for_event(ReputationEventType::TaskVerified), 50);
    assert_eq!(points_for_event(ReputationEventType::Penalty), -50);
}

#[test]
fn saturating_arithmetic_clamps_to_the_range() {
    assert_eq!(pure_saturating_add(1, 2), 3);
    assert_eq!(pure_saturating_add(i128::MAX, 1), i128::MAX);
    assert_eq!(pure_saturating_add(i128::MIN, -1), i128::MIN);
    assert_eq!(pure_saturating_sub(1, 2), -1);
    assert_eq!(pure_saturating_sub(i128::MIN, 1), i128::MIN);
    assert_eq!(pure_saturating_sub(i128::MAX, -1), i128::MAX);
}

#[test]
fn oracle_minimum_return() {
    // 1000 units at price 2.0 into a 1.0 stablecoin, 5% slippage: 1900.
    let one = 10_000_000i128;
    assert_eq!(pure_oracle_min_out(1000, 2 * one, one, 500), Some(1900));
    assert_eq!(pure_oracle_min_out(1000, 2 * one, one, 0), Some(2000));
    assert_eq!(pure_oracle_min_out(i128::MAX, 2, 1, 0), None);
    assert_eq!(pure_oracle_min_out_i64(1000, 20_000_000, 10_000_000, 500), Some(1900));
    assert_eq!(pure_oracle_min_out_i64(i64::MAX, 2, 1, 0), None);
    // 7 / 2 truncates to 3; 3 * 9000 / 10000 truncates to 2.
    assert_eq!(pure_oracle_min_out_i64(7, 1, 2, 1000), Some(2));
}

#[test]
fn slippage_guard_bounds_the_minimum() {
    assert_eq!(pure_slippage_guard(1000, 0), Some(1000));
    assert_eq!(pure_slippage_guard(1000, 250), Some(975));
    assert_eq!(pure_slippage_guard(1000, 10000), Some(0));
    assert_eq!(pure_slippage_guard(1000, 10001), None);
    assert_eq!(pure_slippage_guard(i128::MAX, 1), None);
}

#[test]
fn milestone_transitions() {
    assert_eq!(ms_submit(MsState::Pending), Some(MsState::Submitted));
    assert_eq!(ms_submit(MsState::Rejected), Some(MsState::Submitted));
    assert_eq!(ms_submit(MsState::Submitted), None);
    assert_eq!(ms_submit(MsState::Approved), None);
    assert_eq!(ms_approve(MsState::Submitted), Some(MsState::Approved));
    assert_eq!(ms_approve(MsState::Pending), None);
    assert_eq!(ms_reject(MsState::Submitted), Some(MsState::Rejected));
    assert_eq!(ms_reject(MsState::Approved), None);
}

#[test]
fn escrow_statistics_and_dispute_split_checks() {
    assert!(pure_escrow_stats_invariant(100, 0, 0));
    assert!(pure_escrow_stats_invariant(100, 60, 40));
    assert!(!pure_escrow_stats_invariant(100, 60, 41));
    assert!(!pure_escrow_stats_invariant(-1, 0, 0));
    assert!(pure_dispute_split(1000, 400, 600));
    assert!(!pure_dispute_split(1000, 400, 500));
    assert!(!pure_dispute_split(1000, -1, 1001));
}

#[test]
fn vote_share_and_route_shape() {
    assert_eq!(pure_threshold(0, 0), None);
    assert_eq!(pure_threshold(2, 1), Some(66));
    assert_eq!(pure_threshold(5, 0), Some(100));
    assert_eq!(pure_threshold(0, 5), Some(0));
    assert!(pure_validate_route(1, 2, 3));
    assert!(pure_validate_route(3, 4, 3));
    assert!(!pure_validate_route(0, 1, 3));
    assert!(!pure_validate_route(4, 5, 3));
    assert!(!pure_validate_route(2, 2, 3));
}
