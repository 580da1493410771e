use task_manager_pro::access_control::Role;
use task_manager_pro::governance::{ProposalStatus, VoteType};
use task_manager_pro::merkle::verify_merkle_proof;
use task_manager_pro::pausable::PauseAction;
use task_manager_pro::reputation::ReputationEventType;
use task_manager_pro::types::ContractError;
use task_manager_pro::TaskManagerContract;

const CONTRACT: u64 = 100;
const ADMIN: u64 = 1;
const TOKEN: u64 = 2;
const FEE_RECIPIENT: u64 = 3;
const NOW: u64 = 1_000;
const WEEK: u64 = 604_800;

fn setup() -> TaskManagerContract {
    let mut c = TaskManagerContract::new(CONTRACT);
    c.initialize(ADMIN, 100, TOKEN, FEE_RECIPIENT).unwrap();
    c
}

fn hex32(s: &str) -> [u8; 32] {
    let mut out = [0u8; 32];
    for i in 0..32 {
        out[i] = u8::from_str_radix(&s[2 * i..2 * i + 2], 16).unwrap();
    }
    out
}

#[test]
fn proposal_passes_with_reputation_weighted_votes() {
    let mut c = setup();
    let id = c.create_proposal(10, "raise fee".to_string(), "to 2%".to_string(), NOW).unwrap();
    assert_eq!(id, 1);
    let p = c.get_proposal(id).unwrap();
    assert_eq!(p.status, ProposalStatus::Active);
    assert_eq!(p.voting_ends_at, NOW + WEEK);
    assert_eq!(p.quorum, 10);
    assert_eq!(p.threshold, 51);
    c.cast_vote(11, id, VoteType::For, NOW + 1).unwrap();
    c.cast_vote(12, id, VoteType::Against, NOW + 2).unwrap();
    c.cast_vote(13, id, VoteType::For, NOW + 3).unwrap();
    // Each voter weighs in with the starting reputation of 100.
    let p = c.get_proposal(id).unwrap();
    assert_eq!(p.votes_for, 200);
    assert_eq!(p.votes_against, 100);
    assert_eq!(c.cast_vote(11, id, VoteType::Against, NOW + 4), Err(ContractError::AlreadyVoted));
    assert_eq!(c.execute_proposal(10, id, NOW + WEEK), Err(ContractError::VotingStillOpen));
    assert_eq!(c.execute_proposal(10, id, NOW + WEEK + 1), Ok(true));
    assert_eq!(c.get_proposal(id).unwrap().status, ProposalStatus::Executed);
    assert_eq!(c.cast_vote(14, id, VoteType::For, NOW + 5), Err(ContractError::ProposalNotActive));
    assert_eq!(c.execute_proposal(10, id, NOW + WEEK + 2), Err(ContractError::ProposalNotActive));
}

#[test]
fn proposal_without_majority_is_rejected() {
    let mut c = setup();
    let id = c.create_proposal(10, "t".to_string(), "d".to_string(), NOW).unwrap();
    c.cast_vote(11, id, VoteType::For, NOW).unwrap();
    c.cast_vote(12, id, VoteType::Against, NOW).unwrap();
    // 50% in favour is below the 51% threshold.
    assert_eq!(c.execute_proposal(10, id, NOW + WEEK + 1), Ok(false));
    assert_eq!(c.get_proposal(id).unwrap().status, ProposalStatus::Rejected);
    assert!(c.get_active_proposals().is_empty());
}

#[test]
fn proposal_without_votes_misses_quorum() {
    let mut c = setup();
    let a = c.create_proposal(10, "a".to_string(), "d".to_string(), NOW).unwrap();
    let b = c.create_proposal(10, "b".to_string(), "d".to_string(), NOW).unwrap();
    assert_eq!(c.get_active_proposals().len(), 2);
    assert_eq!(c.execute_proposal(10, a, NOW + WEEK + 1), Ok(false));
    let active = c.get_active_proposals();
    assert_eq!(active.len(), 1);
    assert_eq!(active[0].id, b);
    assert!(c.get_proposal(3).is_none());
    assert_eq!(c.cast_vote(11, 3, VoteType::For, NOW), Err(ContractError::ProposalNotFound));
}

#[test]
fn tiers_follow_the_default_table() {
    let mut c = setup();
    // A new user holds the starting 100 points.
    assert_eq!(c.get_user_reputation(50), 100);
    assert_eq!(c.get_user_tier(50), "Contributor");
    assert!(c.get_leaderboard().is_empty());
}

#[test]
fn completing_work_raises_reputation_and_fills_the_leaderboard() {
    let mut c = setup();
    let (id, _) = c.create_task(10, "t".to_string(), "d".to_string(), 1_000, Vec::new(), NOW).unwrap();
    c.assign_task(11, id, NOW).unwrap();
    c.submit_work(11, id, "u".to_string(), NOW).unwrap();
    c.complete_task(10, id, NOW).unwrap();
    let points = c.get_user_reputation(11);
    assert!(points > 100);
    let board = c.get_leaderboard();
    assert_eq!(board, vec![(11, points)]);
    let tier = c.get_user_tier(11);
    assert!(tier == "Contributor" || tier == "Expert");
}

#[test]
fn roles_are_granted_and_revoked_by_the_admin_only() {
    let mut c = setup();
    assert_eq!(c.grant_role(9, 20, Role::Moderator, NOW), Err(ContractError::NotAdmin));
    c.grant_role(ADMIN, 20, Role::Moderator, NOW).unwrap();
    assert!(c.has_role(20, Role::Moderator));
    assert!(!c.has_role(20, Role::Verifier));
    // Granting another role replaces the first.
    c.grant_role(ADMIN, 20, Role::Verifier, NOW).unwrap();
    assert!(!c.has_role(20, Role::Moderator));
    assert!(c.has_role(20, Role::Verifier));
    assert_eq!(c.revoke_role(20, 20), Err(ContractError::NotAdmin));
    c.revoke_role(ADMIN, 20).unwrap();
    assert!(!c.has_role(20, Role::Verifier));
    let mut fresh = TaskManagerContract::new(CONTRACT);
    assert_eq!(fresh.grant_role(ADMIN, 20, Role::Admin, NOW), Err(ContractError::NotInitialized));
}

#[test]
fn global_pause_blocks_everything_until_lifted() {
    let mut c = setup();
    assert_eq!(c.pause_all(7), Err(ContractError::NotAdmin));
    c.pause_all(ADMIN).unwrap();
    assert_eq!(
        c.create_task(10, "t".to_string(), "d".to_string(), 1, Vec::new(), NOW).err(),
        Some(ContractError::ActionPaused)
    );
    assert!(c.pauses.is_paused(PauseAction::Withdraw, None));
    assert_eq!(c.unpause_all(7), Err(ContractError::NotAdmin));
    c.unpause_all(ADMIN).unwrap();
    assert!(c.create_task(10, "t".to_string(), "d".to_string(), 1, Vec::new(), NOW).is_ok());
}

#[test]
fn approved_stablecoins_are_managed_by_the_admin() {
    let mut c = setup();
    assert_eq!(c.add_approved_stablecoin(9, 30), Err(ContractError::NotAdmin));
    c.add_approved_stablecoin(ADMIN, 30).unwrap();
    c.add_approved_stablecoin(ADMIN, 31).unwrap();
    c.add_approved_stablecoin(ADMIN, 30).unwrap();
    assert_eq!(c.get_approved_stablecoins(), &vec![30, 31]);
    c.remove_approved_stablecoin(ADMIN, 30).unwrap();
    assert_eq!(c.get_approved_stablecoins(), &vec![31]);
    assert_eq!(c.remove_approved_stablecoin(9, 31), Err(ContractError::NotAdmin));
}

#[test]
fn supported_tokens_are_managed_by_the_admin() {
    let mut c = setup();
    assert_eq!(c.add_supported_token(9, 40), Err(ContractError::NotAdmin));
    c.add_supported_token(ADMIN, 40).unwrap();
    c.add_supported_token(ADMIN, 41).unwrap();
    assert_eq!(c.get_supported_tokens(), &vec![40, 41]);
    c.remove_supported_token(ADMIN, 40).unwrap();
    assert_eq!(c.get_supported_tokens(), &vec![41]);
    assert!(!c.is_token_supported(40));
}

#[test]
fn payroll_claim_with_a_single_leaf_tree() {
    let mut c = setup();
    c.add_supported_token(ADMIN, 40).unwrap();
    c.deposit_to_vault(60, 40, 1_000).unwrap();
    // SHA-256("abc") is the whole tree.
    let root = hex32("ba7816bf8f01cfea414140de5dae2223b00361a396177a9cb410ff61f20015ad");
    assert_eq!(c.set_payroll_root(9, 1, root), Err(ContractError::NotAdmin));
    c.set_payroll_root(ADMIN, 1, root).unwrap();
    let no_proof: Vec<[u8; 32]> = Vec::new();
    assert_eq!(
        c.claim_payroll(70, 40, 1, 300, b"abd", &no_proof).err(),
        Some(ContractError::InvalidMerkleProof)
    );
    assert_eq!(c.claim_payroll(70, 40, 2, 300, b"abc", &no_proof).err(), Some(ContractError::PayrollRootNotFound));
    assert_eq!(c.claim_payroll(70, 40, 1, 0, b"abc", &no_proof).err(), Some(ContractError::InvalidAmount));
    assert_eq!(c.claim_payroll(70, 40, 1, 5_000, b"abc", &no_proof).err(), Some(ContractError::InsufficientBalance));
    let payment = c.claim_payroll(70, 40, 1, 300, b"abc", &no_proof).unwrap();
    assert_eq!(payment.from, CONTRACT);
    assert_eq!(payment.to, 70);
    assert_eq!(payment.amount, 300);
    assert_eq!(c.get_token_vault_balance(40), 700);
    assert_eq!(
        c.claim_payroll(70, 40, 1, 300, b"abc", &no_proof).err(),
        Some(ContractError::PayrollAlreadyClaimed)
    );
}

#[test]
fn proposer_cancels_an_active_proposal() {
    let mut c = setup();
    let id = c.create_proposal(10, "t".to_string(), "d".to_string(), NOW).unwrap();
    c.cast_vote(11, id, VoteType::Abstain, NOW).unwrap();
    let vote = c.governance.get_vote(id, 11).unwrap();
    assert_eq!(vote.weight, 100);
    assert_eq!(vote.vote_type, VoteType::Abstain);
    assert!(c.governance.get_vote(id, 12).is_none());
    assert_eq!(c.governance.cancel_proposal(11, id), Err(ContractError::NotAuthorized));
    c.governance.cancel_proposal(10, id).unwrap();
    assert_eq!(c.get_proposal(id).unwrap().status, ProposalStatus::Cancelled);
    assert_eq!(c.governance.cancel_proposal(10, id), Err(ContractError::ProposalNotActive));
    assert_eq!(c.governance.cancel_proposal(10, 9), Err(ContractError::ProposalNotFound));
}

#[test]
fn profile_fields_are_updated_in_place() {
    let mut c = setup();
    assert_eq!(c.profiles.update_username(30, "x".to_string(), NOW), Err(ContractError::ProfileNotFound));
    c.create_profile(30, "alice".to_string(), "bio".to_string(), NOW).unwrap();
    assert_eq!(c.create_profile(30, "again".to_string(), "bio".to_string(), NOW), Err(ContractError::ProfileExists));
    c.profiles.update_username(30, "alice2".to_string(), NOW + 1).unwrap();
    c.profiles.update_avatar(30, "https://a/b.png".to_string(), NOW + 2).unwrap();
    c.profiles.record_earnings(30, 500, NOW + 3);
    c.profiles.record_earnings(31, 500, NOW + 3);
    let admin = c.get_admin();
    assert_eq!(c.profiles.slash_reputation(30, admin, 30, 40, NOW + 4), Err(ContractError::NotAdmin));
    c.profiles.slash_reputation(ADMIN, admin, 30, 40, NOW + 4).unwrap();
    let p = c.get_profile(30).unwrap();
    assert_eq!(p.username, "alice2");
    assert_eq!(p.avatar_url.as_deref(), Some("https://a/b.png"));
    assert_eq!(p.total_earnings, 500);
    assert_eq!(p.reputation, 60);
    assert_eq!(p.last_updated, NOW + 4);
    assert!(c.get_profile(31).is_none());
    // Slashing stops at zero.
    c.profiles.slash_reputation(ADMIN, admin, 30, 1_000, NOW + 5).unwrap();
    assert_eq!(c.get_profile(30).unwrap().reputation, 0);
    // The contribution reward saturates at the top of the range.
    c.reward_contribution(ADMIN, 30, u32::MAX, NOW + 6).unwrap();
    assert_eq!(c.get_profile(30).unwrap().reputation, u32::MAX);
    assert_eq!(c.get_profile(30).unwrap().completed_tasks, 1);
}

#[test]
fn sorted_pair_merkle_proofs() {
    let a = hex32("ba7816bf8f01cfea414140de5dae2223b00361a396177a9cb410ff61f20015ad");
    let b = hex32("e3b0c44298fc1c149afbf4c8996fb92427ae41e4649b934ca495991b7852b855");
    let env = soroban_sdk::Env::default();
    let mut pair = Vec::new();
    pair.extend_from_slice(&a);
    pair.extend_from_slice(&b);
    let root: [u8; 32] = env.crypto().sha256(&soroban_sdk::Bytes::from_slice(&env, &pair)).to_array();
    assert!(verify_merkle_proof(&root, &a, &vec![b]));
    // The pair is ordered before hashing, so either leaf proves with the other.
    assert!(verify_merkle_proof(&root, &b, &vec![a]));
    assert!(!verify_merkle_proof(&root, &a, &vec![a]));
    assert!(!verify_merkle_proof(&root, &a, &Vec::new()));
    assert!(verify_merkle_proof(&a, &a, &Vec::new()));
}

#[test]
fn proposer_below_minimum_reputation_is_refused() {
    let mut c = setup();
    c.reputation
        .award_reputation(20, -50, ReputationEventType::Penalty, None, "penalty".to_string(), NOW)
        .unwrap();
    assert_eq!(c.get_user_reputation(20), 50);
    assert_eq!(
        c.create_proposal(20, "t".to_string(), "d".to_string(), NOW),
        Err(ContractError::InsufficientReputation)
    );
    assert!(c.get_proposal(1).is_none());
    // Exactly the minimum (100, the starting score) is enough.
    assert_eq!(c.create_proposal(21, "t".to_string(), "d".to_string(), NOW), Ok(1));
}
