use task_manager_pro::twap_oracle::{calculate_median, sort_prices, TwapOracle};
use task_manager_pro::types::ContractError;
use task_manager_pro::zkp_attestation::{
    compute_attestation_commitment, AttestationError, Groth16Proof, IdentityAttestation, ZkAttestationRegistry,
};
use task_manager_pro::TaskManagerContract;

const CONTRACT: u64 = 100;
const ADMIN: u64 = 1;
const TOKEN: u64 = 2;
const FEE_RECIPIENT: u64 = 3;

const PRIMARY_POOL: u64 = 501;
const FALLBACK_ORACLE: u64 = 502;

fn setup_initialized_contract(fee_bps: u32) -> TaskManagerContract {
    let mut c = TaskManagerContract::new(CONTRACT);
    c.initialize(ADMIN, fee_bps, TOKEN, FEE_RECIPIENT).unwrap();
    c
}

// ── TWAP oracle ─────────────────────────────────────────────────────────────

#[test]
fn test_twap_config_initialization() {
    let mut o = TwapOracle::new();
    o.initialize_twap_config(PRIMARY_POOL, Some(FALLBACK_ORACLE), 3, 500, 3600, 10_000_000);
    let config = o.get_twap_config();
    assert_eq!(config.primary_pool, PRIMARY_POOL);
    assert_eq!(config.secondary_oracle, Some(FALLBACK_ORACLE));
    assert_eq!(config.min_observation_count, 3);
    assert_eq!(config.max_deviation_bps, 500);
    assert_eq!(config.observation_window_secs, 3600);
    assert_eq!(config.min_liquidity_threshold, 10_000_000);
}

#[test]
fn test_record_price_observations() {
    let mut c = setup_initialized_contract(100);
    let usdc = 30;
    let eurt = 31;
    let worker = 40;
    c.add_supported_token(ADMIN, usdc).unwrap();
    c.add_supported_token(ADMIN, eurt).unwrap();
    c.deposit_to_vault(worker, usdc, 300).unwrap();
    c.deposit_to_vault(worker, eurt, 200).unwrap();
    let payout = c.claim_from_vault(worker, usdc, 300).unwrap();
    assert_eq!(payout.to, worker);
    assert_eq!(payout.amount, 300);
    assert_eq!(c.get_depositor_vault_balance(worker, usdc), 0);
    assert_eq!(c.get_depositor_vault_balance(worker, eurt), 200);
    assert_eq!(c.get_token_vault_balance(usdc), 0);
    assert_eq!(c.get_token_vault_balance(eurt), 200);

    let pair = 7;
    let mut o = TwapOracle::new();
    o.initialize_twap_config(PRIMARY_POOL, None, 3, 500, 3600, 10_000_000);
    o.record_price_observation(pair, 1_000_000_000, 1_100_000_000, 1_000, 100).unwrap();
    o.record_price_observation(pair, 2_100_000_000, 1_100_000_000, 2_000, 101).unwrap();
    let last = o.get_last_twap(pair).expect("an observation was recorded");
    assert_eq!(last.timestamp, 2_000);
    assert_eq!(last.price, 1_100_000_000);
}

#[test]
fn test_multi_period_twap_accumulation() {
    let mut c = setup_initialized_contract(100);
    let orgusd = 33;
    let result = c.deposit_to_vault(50, orgusd, 100);
    assert!(result.is_err(), "depositing an unsupported token must be rejected");
    assert_eq!(result.err(), Some(ContractError::TokenNotSupported));

    let now = 1_005_000;
    let pair = 8;
    let mut o = TwapOracle::new();
    o.initialize_twap_config(PRIMARY_POOL, None, 2, 500, 36000, 10_000_000);
    o.update_pool_liquidity(pair, 50_000_000);
    let base_time = 1_000_000u64;
    o.record_price_observation(pair, 1_000_000_000_000, 1_000_000_000, base_time, 100).unwrap();
    o.record_price_observation(pair, 2_050_000_000_000, 1_050_000_000, base_time + 1000, 101).unwrap();
    o.record_price_observation(pair, 3_070_000_000_000, 1_020_000_000, base_time + 2000, 102).unwrap();

    let twap = o.calculate_twap(pair, now).unwrap();
    assert_eq!(twap.observation_count, 3);
    assert!(!twap.used_fallback);
    assert_eq!(twap.oldest_timestamp, base_time);
    assert_eq!(twap.newest_timestamp, base_time + 2000);
    assert!(twap.price > 900_000_000 && twap.price < 1_200_000_000);
    // (3_070_000_000_000 - 1_000_000_000_000) / 2000
    assert_eq!(twap.price, 1_035_000_000);
}

#[test]
fn test_outlier_price_filter() {
    let mut c = setup_initialized_contract(100);
    let usdc = 30;
    let depositor = 41;
    c.add_supported_token(ADMIN, usdc).unwrap();
    c.deposit_to_vault(depositor, usdc, 50).unwrap();
    let result = c.claim_from_vault(depositor, usdc, 51);
    assert!(result.is_err(), "claiming more than the deposited balance must be rejected");
    assert_eq!(result.err(), Some(ContractError::InsufficientBalance));

    let now = 1_005_000;
    let pair = 9;
    let mut o = TwapOracle::new();
    o.initialize_twap_config(PRIMARY_POOL, None, 3, 500, 36000, 10_000_000);
    o.update_pool_liquidity(pair, 50_000_000);
    let base_time = 1_000_000u64;
    o.record_price_observation(pair, 1_000_000_000, 1_000_000_000, base_time, 100).unwrap();
    o.record_price_observation(pair, 2_010_000_000, 1_010_000_000, base_time + 1000, 101).unwrap();
    o.record_price_observation(pair, 3_210_000_000, 1_200_000_000, base_time + 2000, 102).unwrap();
    o.record_price_observation(pair, 4_220_000_000, 1_020_000_000, base_time + 3000, 103).unwrap();

    let twap = o.calculate_twap(pair, now).unwrap();
    assert_eq!(twap.observation_count, 3);
    assert!(!twap.used_fallback);
    assert!(twap.avg_deviation_bps < 200);
}

#[test]
fn test_fallback_oracle_low_liquidity() {
    let mut c = setup_initialized_contract(100);
    let usdc = 30;
    c.add_supported_token(ADMIN, usdc).unwrap();
    assert!(c.is_token_supported(usdc));
    c.remove_supported_token(ADMIN, usdc).unwrap();
    assert!(!c.is_token_supported(usdc));
    let result = c.deposit_to_vault(42, usdc, 10);
    assert!(result.is_err(), "deposits must be rejected after a token is removed");

    let now = 1_005_000;
    let pair = 10;
    let mut o = TwapOracle::new();
    o.initialize_twap_config(PRIMARY_POOL, Some(FALLBACK_ORACLE), 2, 500, 3600, 1_000_000_000);
    o.update_pool_liquidity(pair, 100_000_000);
    let base_time = 1_000_000u64;
    o.record_price_observation(pair, 1_000_000_000, 980_000_000, base_time, 100).unwrap();
    o.set_fallback_price(pair, 975_000_000, base_time, 0);

    let twap = o.calculate_twap(pair, now).unwrap();
    assert!(twap.used_fallback);
    assert_eq!(twap.price, 975_000_000);
    assert_eq!(twap.observation_count, 1);
}

#[test]
fn test_fallback_on_insufficient_observations() {
    let mut c = setup_initialized_contract(100);
    let depositor = 43;
    c.add_supported_token(ADMIN, TOKEN).unwrap();
    let pull = c.deposit_to_vault(depositor, TOKEN, 5000).unwrap();
    assert_eq!(pull.from, depositor);
    assert_eq!(pull.to, CONTRACT);

    let now = 1_005_000;
    let pair = 11;
    let mut o = TwapOracle::new();
    o.initialize_twap_config(PRIMARY_POOL, Some(FALLBACK_ORACLE), 3, 500, 3600, 10_000_000);
    o.update_pool_liquidity(pair, 50_000_000);
    let base_time = 1_000_000u64;
    o.record_price_observation(pair, 1_000_000_000, 1_000_000_000, base_time, 100).unwrap();
    o.set_fallback_price(pair, 950_000_000, base_time, 0);

    let twap = o.calculate_twap(pair, now).unwrap();
    assert!(twap.used_fallback);
    assert_eq!(twap.price, 950_000_000);
}

#[test]
fn test_pool_liquidity_checks() {
    let pair = 12;
    let mut o = TwapOracle::new();
    o.initialize_twap_config(PRIMARY_POOL, None, 2, 500, 3600, 20_000_000);
    assert!(!o.is_pool_liquid_enough(pair));
    o.update_pool_liquidity(pair, 25_000_000);
    assert!(o.is_pool_liquid_enough(pair));
    assert_eq!(o.get_pool_liquidity(pair), 25_000_000);
    o.update_pool_liquidity(pair, 15_000_000);
    assert!(!o.is_pool_liquid_enough(pair));
}

#[test]
fn test_prune_old_observations() {
    let now = 100_000;
    let pair = 13;
    let mut o = TwapOracle::new();
    o.initialize_twap_config(PRIMARY_POOL, None, 2, 500, 3600, 10_000_000);
    let base_time = 100_000u64;
    o.record_price_observation(pair, 1_000_000_000, 1_000_000_000, base_time - 10_000, 100).unwrap();
    o.record_price_observation(pair, 2_010_000_000, 1_010_000_000, base_time - 5_000, 101).unwrap();
    o.record_price_observation(pair, 3_020_000_000, 1_020_000_000, base_time, 102).unwrap();
    let pruned = o.prune_old_observations(pair, 6_000, now).unwrap();
    assert_eq!(pruned, 1);
}

#[test]
fn test_twap_observation_window_filtering() {
    let now = 100_000;
    let pair = 14;
    let mut o = TwapOracle::new();
    o.initialize_twap_config(PRIMARY_POOL, None, 2, 500, 1000, 10_000_000);
    o.update_pool_liquidity(pair, 50_000_000);
    let base_time = 100_000u64;
    o.record_price_observation(pair, 1_000_000_000, 1_000_000_000, base_time - 2000, 100).unwrap();
    o.record_price_observation(pair, 2_010_000_000, 1_010_000_000, base_time - 500, 101).unwrap();
    o.record_price_observation(pair, 3_020_000_000, 1_020_000_000, base_time, 102).unwrap();
    let twap = o.calculate_twap(pair, now).unwrap();
    assert_eq!(twap.observation_count, 2);
    assert_eq!(twap.oldest_timestamp, base_time - 500);
}

#[test]
fn test_twap_edge_case_prices() {
    let now = 1_005_000;
    let pair = 15;
    let mut o = TwapOracle::new();
    o.initialize_twap_config(PRIMARY_POOL, None, 2, 1000, 36000, 10_000_000);
    o.update_pool_liquidity(pair, 50_000_000);
    let base_time = 1_000_000u64;
    o.record_price_observation(pair, 100, 100, base_time, 100).unwrap();
    o.record_price_observation(pair, 200, 100, base_time + 1000, 101).unwrap();
    let twap = o.calculate_twap(pair, now).unwrap();
    assert!(twap.price >= 0);
    assert_eq!(twap.observation_count, 2);
}

#[test]
fn twap_without_configuration_is_refused() {
    let o = TwapOracle::new();
    assert_eq!(o.calculate_twap(1, 10).err(), Some(ContractError::TwapNotConfigured));
}

#[test]
fn twap_without_fallback_refuses_thin_data() {
    let mut o = TwapOracle::new();
    o.initialize_twap_config(PRIMARY_POOL, None, 3, 500, 3600, 0);
    o.record_price_observation(1, 10, 10, 5, 1).unwrap();
    assert_eq!(o.calculate_twap(1, 10).err(), Some(ContractError::InsufficientObservations));
    let mut with_fallback = TwapOracle::new();
    with_fallback.initialize_twap_config(PRIMARY_POOL, Some(FALLBACK_ORACLE), 3, 500, 3600, 0);
    assert_eq!(with_fallback.calculate_twap(1, 10).err(), Some(ContractError::FallbackPriceMissing));
}

#[test]
fn median_of_odd_and_even_counts() {
    assert_eq!(calculate_median(&vec![5, 1, 3]), Some(3));
    assert_eq!(calculate_median(&vec![4, 1, 3, 2]), Some(2));
    assert_eq!(calculate_median(&vec![-3, -1]), Some(-2));
    assert_eq!(calculate_median(&vec![i128::MAX, i128::MAX]), None);
    assert_eq!(sort_prices(&vec![3, -1, 2, -1]), vec![-1, -1, 2, 3]);
}

// ── Zero-knowledge attestations ─────────────────────────────────────────────

const KYC_TIER_1: u64 = 1;
const BLS12_381: u64 = 381;

fn zk_proof() -> Groth16Proof {
    Groth16Proof { a: vec![1u8; 96], b: vec![2u8; 192], c: vec![3u8; 96] }
}

fn zk_ic(n: u32) -> Vec<Vec<u8>> {
    (0..n + 1).map(|i| vec![(i as u8) + 1; 96]).collect()
}

fn zk_signals(n: u32) -> Vec<[u8; 32]> {
    (0..n).map(|i| [(i as u8) + 10; 32]).collect()
}

fn zk_setup() -> (ZkAttestationRegistry, u64) {
    let mut reg = ZkAttestationRegistry::new();
    reg.initialize(ADMIN).unwrap();
    reg.register_verification_key(ADMIN, KYC_TIER_1, BLS12_381, vec![9u8; 32], vec![8u8; 192], vec![7u8; 192], zk_ic(2), 0)
        .unwrap();
    (reg, KYC_TIER_1)
}

fn zk_attestation(circuit_id: u64, subject: u64, nullifier: [u8; 32]) -> IdentityAttestation {
    let signals = zk_signals(2);
    let commitment = compute_attestation_commitment(&nullifier, &signals);
    IdentityAttestation {
        circuit_id,
        subject,
        proof: zk_proof(),
        public_signals: signals,
        nullifier,
        attestation_commitment: commitment,
    }
}

#[test]
fn test_zkp_valid_attestation() {
    let (mut reg, circuit_id) = zk_setup();
    let subject = 60;
    let nullifier = [42u8; 32];
    assert!(!reg.is_nullifier_used(&nullifier));
    let attestation = zk_attestation(circuit_id, subject, nullifier);
    let receipt = reg.verify_attestation(&attestation, 77).unwrap();
    assert_eq!(receipt.subject, subject);
    assert_eq!(receipt.circuit_id, circuit_id);
    assert_eq!(receipt.verified_at, 77);
    assert!(reg.is_nullifier_used(&nullifier));
    assert_eq!(reg.attestation_count(), 1);
    assert!(reg.get_attestation(&nullifier).is_some());
}

#[test]
fn test_zkp_rejects_replayed_nullifier() {
    let (mut reg, circuit_id) = zk_setup();
    let nullifier = [7u8; 32];
    let first = zk_attestation(circuit_id, 61, nullifier);
    assert!(reg.verify_attestation(&first, 1).is_ok());
    let replay = zk_attestation(circuit_id, 62, nullifier);
    assert_eq!(reg.verify_attestation(&replay, 2).err(), Some(AttestationError::NullifierAlreadyUsed));
    assert_eq!(reg.attestation_count(), 1);
}

#[test]
fn test_zkp_rejects_unregistered_circuit() {
    let (mut reg, _circuit_id) = zk_setup();
    let unknown = 99;
    let attestation = zk_attestation(unknown, 63, [1u8; 32]);
    assert_eq!(reg.verify_attestation(&attestation, 1).err(), Some(AttestationError::CircuitNotRegistered));
}

#[test]
fn test_zkp_rejects_malformed_proof() {
    let (mut reg, circuit_id) = zk_setup();
    let mut attestation = zk_attestation(circuit_id, 64, [5u8; 32]);
    attestation.proof.a = vec![0u8; 96];
    assert_eq!(reg.verify_attestation(&attestation, 1).err(), Some(AttestationError::MalformedProof));

    let mut bad_len = zk_attestation(circuit_id, 65, [6u8; 32]);
    bad_len.proof.b = vec![2u8; 64];
    assert_eq!(reg.verify_attestation(&bad_len, 1).err(), Some(AttestationError::MalformedProof));
}

#[test]
fn test_zkp_rejects_public_signal_mismatch() {
    let (mut reg, circuit_id) = zk_setup();
    let nullifier = [9u8; 32];
    let signals = zk_signals(3);
    let commitment = compute_attestation_commitment(&nullifier, &signals);
    let attestation = IdentityAttestation {
        circuit_id,
        subject: 66,
        proof: zk_proof(),
        public_signals: signals,
        nullifier,
        attestation_commitment: commitment,
    };
    assert_eq!(reg.verify_attestation(&attestation, 1).err(), Some(AttestationError::PublicSignalMismatch));
}

#[test]
fn test_zkp_rejects_commitment_mismatch() {
    let (mut reg, circuit_id) = zk_setup();
    let mut attestation = zk_attestation(circuit_id, 67, [3u8; 32]);
    attestation.attestation_commitment = [0xAAu8; 32];
    assert_eq!(reg.verify_attestation(&attestation, 1).err(), Some(AttestationError::CommitmentMismatch));
}

#[test]
fn test_zkp_nullifier_binding_blocks_proof_lifting() {
    let (mut reg, circuit_id) = zk_setup();
    let mut attestation = zk_attestation(circuit_id, 68, [0x11u8; 32]);
    attestation.nullifier = [0x22u8; 32];
    assert_eq!(reg.verify_attestation(&attestation, 1).err(), Some(AttestationError::CommitmentMismatch));
}

#[test]
#[should_panic(expected = "only admin")]
fn test_zkp_register_vk_requires_admin() {
    let (mut reg, _circuit_id) = zk_setup();
    let impostor = 69;
    reg.register_verification_key(impostor, 2, BLS12_381, vec![9u8; 32], vec![8u8; 192], vec![7u8; 192], zk_ic(2), 0)
        .expect("only admin may register verification keys");
}

#[test]
fn test_zkp_commitment_is_deterministic() {
    let nullifier = [4u8; 32];
    let signals = zk_signals(2);
    let first = compute_attestation_commitment(&nullifier, &signals);
    let second = compute_attestation_commitment(&nullifier, &signals);
    assert_eq!(first, second);
}

#[test]
fn commitment_is_the_sha256_of_nullifier_and_signals() {
    // SHA-256 of 32 zero bytes.
    let expected: [u8; 32] = [
        0x66, 0x68, 0x7a, 0xad, 0xf8, 0x62, 0xbd, 0x77, 0x6c, 0x8f, 0xc1, 0x8b, 0x8e, 0x9f, 0x8e, 0x20,
        0x08, 0x97, 0x14, 0x85, 0x6e, 0xe2, 0x33, 0xb3, 0x90, 0x2a, 0x59, 0x1d, 0x0d, 0x5f, 0x29, 0x25,
    ];
    assert_eq!(compute_attestation_commitment(&[0u8; 32], &Vec::new()), expected);
    assert_ne!(compute_attestation_commitment(&[0u8; 32], &zk_signals(1)), expected);
}

#[test]
fn registry_is_initialized_once() {
    let mut reg = ZkAttestationRegistry::new();
    assert_eq!(
        reg.register_verification_key(ADMIN, 1, 1, vec![], vec![], vec![], zk_ic(1), 0).err(),
        Some(ContractError::NotInitialized)
    );
    reg.initialize(ADMIN).unwrap();
    assert_eq!(reg.initialize(2).err(), Some(ContractError::AlreadyInitialized));
    assert_eq!(reg.get_admin(), ADMIN);
    assert_eq!(
        reg.register_verification_key(ADMIN, 1, 1, vec![], vec![], vec![], Vec::new(), 0).err(),
        Some(ContractError::InvalidVerificationKey)
    );
}

#[test]
fn twap_stays_within_window_count_and_deviation_bounds() {
    let now = 100_000u64;
    let pair = 16;
    let mut o = TwapOracle::new();
    o.initialize_twap_config(PRIMARY_POOL, None, 2, 500, 1000, 10_000_000);
    o.record_price_observation(pair, 1_000, 1_000_000_000, now - 2000, 1).unwrap();
    o.record_price_observation(pair, 2_000, 1_000_000_000, now - 900, 2).unwrap();
    o.record_price_observation(pair, 3_000, 1_040_000_000, now - 400, 3).unwrap();
    o.record_price_observation(pair, 4_000, 1_000_000_000, now, 4).unwrap();
    let t = o.calculate_twap(pair, now).unwrap();
    assert!(!t.used_fallback);
    assert!(t.oldest_timestamp >= now - 1000 && t.newest_timestamp <= now);
    assert!(t.observation_count >= 1 && t.observation_count <= 4);
    assert_eq!(t.observation_count, 3);
    assert!(t.avg_deviation_bps <= 500);
}
