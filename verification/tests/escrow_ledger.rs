use task_manager_pro::escrow::{EscrowLedger, MilestoneStatus};
use task_manager_pro::storage::{calculate_ttl, empty_statistics, get_storage_metrics, MAX_PERSISTENT_TTL, TEMP_STORAGE_TTL};
use task_manager_pro::twap_oracle::{filter_outliers, PriceObservation, TwapOracle};
use task_manager_pro::types::ContractError;
use task_manager_pro::zkp_attestation::{validate_proof_structure, verify_groth16_pairing, Groth16Proof, VerificationKey};

fn obs(timestamp: u64, price: i128) -> PriceObservation {
    PriceObservation { timestamp, cumulative_price: 0, price, ledger_sequence: 1 }
}

#[test]
fn escrow_locks_and_releases_with_statistics() {
    let mut e = EscrowLedger::new();
    assert_eq!(e.check_lock(1, 500), Ok(()));
    e.lock_escrow(1, 500).unwrap();
    e.lock_escrow(2, 300).unwrap();
    assert_eq!(e.get_task_escrow(1), 500);
    assert_eq!(e.check_release(1, 501), Err(ContractError::InsufficientEscrow));
    assert_eq!(e.release_escrow(1, 501), Err(ContractError::InsufficientEscrow));
    e.release_escrow(1, 200).unwrap();
    assert_eq!(e.get_task_escrow(1), 300);
    let s = e.get_escrow_stats();
    assert_eq!(s.total_locked, 800);
    assert_eq!(s.total_released, 200);
    assert_eq!(s.active_escrows, 2);
    assert_eq!(s.completed_escrows, 0);
    e.release_escrow(1, 300).unwrap();
    assert_eq!(e.get_escrow_stats().completed_escrows, 1);
    assert_eq!(e.get_task_escrow(3), 0);
    // Statistics computed without storing them.
    let next = e.compute_stats(10, 0, 0, 1, 0).unwrap();
    assert_eq!(next.total_locked, 810);
    assert_eq!(e.get_escrow_stats().total_locked, 800);
    assert_eq!(e.compute_stats(i128::MAX, 0, 0, 0, 0), None);
    assert_eq!(e.update_stats(i128::MAX, 0, 0, 0, 0), Err(ContractError::ArithmeticOverflow));
    assert_eq!(e.get_escrow_stats().total_locked, 800);
}

#[test]
fn milestones_move_through_submission_and_review() {
    let mut e = EscrowLedger::new();
    let m1 = e.create_milestone(7, "design".to_string(), 100, None).unwrap();
    let m2 = e.create_milestone(7, "build".to_string(), 200, Some(99)).unwrap();
    assert_eq!((m1, m2), (1, 2));
    assert_eq!(e.get_milestones_for_task(7).len(), 2);
    assert_eq!(e.get_milestones_for_task(8).len(), 0);
    assert_eq!(e.check_approve(7, 1), Err(ContractError::MilestoneNotSubmitted));
    assert_eq!(e.check_approve(7, 3), Err(ContractError::MilestoneNotFound));
    e.submit_milestone(7, 1, "https://x".to_string()).unwrap();
    assert_eq!(e.get_milestone(7, 1).unwrap().status, MilestoneStatus::Submitted);
    e.reject_milestone(7, 1, "redo".to_string()).unwrap();
    assert_eq!(e.get_milestone(7, 1).unwrap().status, MilestoneStatus::Rejected);
    e.submit_milestone(7, 1, "https://y".to_string()).unwrap();
    assert_eq!(e.approve_milestone(7, 1, None), Ok(100));
    let m = e.get_milestone(7, 1).unwrap();
    assert_eq!(m.status, MilestoneStatus::Approved);
    assert_eq!(m.submission_url.as_deref(), Some("https://y"));
    assert_eq!(e.get_escrow_stats().total_released, 100);
    assert!(e.submit_milestone(7, 1, "z".to_string()).is_err());
    assert!(e.get_milestone(7, 9).is_none());
}

#[test]
fn storage_helpers() {
    assert_eq!(calculate_ttl(true), MAX_PERSISTENT_TTL);
    assert_eq!(calculate_ttl(false), TEMP_STORAGE_TTL);
    let m = get_storage_metrics(77);
    assert_eq!(m.last_ttl_extension, 77);
    assert_eq!(m.temp_reads + m.temp_writes + m.persistent_reads + m.persistent_writes, 0);
    let s = empty_statistics();
    assert_eq!(s.total_tasks_created, 0);
    assert_eq!(s.total_value_locked, 0);
}

#[test]
fn outliers_are_dropped_around_the_median() {
    let window = vec![obs(1, 100), obs(2, 102), obs(3, 98), obs(4, 300)];
    let (kept, _avg) = filter_outliers(&window, 500).unwrap();
    assert_eq!(kept.len(), 3);
    assert!(kept.iter().all(|o| o.price != 300));
    // A single observation is kept as is.
    let (one, avg) = filter_outliers(&vec![obs(1, 5)], 0).unwrap();
    assert_eq!(one.len(), 1);
    assert_eq!(avg, 0);
}

#[test]
fn fallback_price_is_reported_as_a_single_observation() {
    let mut o = TwapOracle::new();
    assert_eq!(o.calculate_twap_fallback(5).err(), Some(ContractError::FallbackPriceMissing));
    o.set_fallback_price(5, 1_234, 900, 12);
    let r = o.calculate_twap_fallback(5).unwrap();
    assert_eq!(r.price, 1_234);
    assert_eq!(r.oldest_timestamp, 900);
    assert_eq!(r.newest_timestamp, 900);
    assert_eq!(r.observation_count, 1);
    assert!(r.used_fallback);
}

#[test]
fn proof_structure_and_pairing_arity() {
    let vk = VerificationKey {
        circuit_id: 1,
        curve: 0,
        alpha_beta: vec![1; 32],
        gamma: vec![1; 192],
        delta: vec![1; 192],
        ic: vec![vec![1; 96], vec![2; 96], vec![3; 96]],
        registered_at: 0,
        registered_by: 1,
    };
    let good = Groth16Proof { a: vec![1; 96], b: vec![2; 192], c: vec![3; 96] };
    assert!(validate_proof_structure(&vk, &good));
    let short = Groth16Proof { a: vec![1; 95], b: vec![2; 192], c: vec![3; 96] };
    assert!(!validate_proof_structure(&vk, &short));
    let zero = Groth16Proof { a: vec![0; 96], b: vec![2; 192], c: vec![3; 96] };
    assert!(!validate_proof_structure(&vk, &zero));
    assert!(verify_groth16_pairing(&vk, &vec![[1u8; 32], [2u8; 32]]));
    assert!(!verify_groth16_pairing(&vk, &vec![[1u8; 32]]));
}
