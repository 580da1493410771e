use std::collections::HashMap;

use task_manager_pro::pausable::PauseAction;
use task_manager_pro::types::{ContractError, Transfer};
use task_manager_pro::TaskManagerContract;

const CONTRACT: u64 = 100;
const ADMIN: u64 = 1;
const TOKEN: u64 = 2;
const FEE_RECIPIENT: u64 = 3;
const NOW: u64 = 1_000;

/// Token balances the tests keep on the contract's behalf.
struct Ledger {
    balances: HashMap<(u64, u64), i128>,
}

impl Ledger {
    fn new() -> Self {
        Ledger { balances: HashMap::new() }
    }

    fn mint(&mut self, token: u64, who: u64, amount: i128) {
        *self.balances.entry((token, who)).or_insert(0) += amount;
    }

    fn balance(&self, token: u64, who: u64) -> i128 {
        *self.balances.get(&(token, who)).unwrap_or(&0)
    }

    fn apply(&mut self, transfers: &[Transfer]) {
        for t in transfers {
            assert!(self.balance(t.token, t.from) >= t.amount, "insufficient balance");
            *self.balances.entry((t.token, t.from)).or_insert(0) -= t.amount;
            *self.balances.entry((t.token, t.to)).or_insert(0) += t.amount;
        }
    }
}

fn setup_initialized_contract(fee_bps: u32) -> TaskManagerContract {
    let mut c = TaskManagerContract::new(CONTRACT);
    c.initialize(ADMIN, fee_bps, TOKEN, FEE_RECIPIENT).unwrap();
    c
}

fn create(c: &mut TaskManagerContract, ledger: &mut Ledger, creator: u64, title: &str, reward: i128, tags: Vec<String>) -> u32 {
    let (id, transfers) = c
        .create_task(creator, title.to_string(), "description".to_string(), reward, tags, NOW)
        .unwrap();
    ledger.apply(&transfers);
    id
}

#[test]
fn test_initialization() {
    let mut c = setup_initialized_contract(100);
    let res = c.initialize(ADMIN, 100, TOKEN, FEE_RECIPIENT);
    assert!(res.is_err(), "re-initialization should be rejected");
    assert_eq!(res, Err(ContractError::AlreadyInitialized));
}

#[test]
fn test_create_and_complete_task_flow() {
    let mut c = setup_initialized_contract(250);
    let mut ledger = Ledger::new();
    let creator = 10;
    let assignee = 11;
    ledger.mint(TOKEN, creator, 1000);
    assert_eq!(ledger.balance(TOKEN, creator), 1000);

    let task_id = create(&mut c, &mut ledger, creator, "Test Task", 1000, vec!["rust".to_string()]);
    assert_eq!(task_id, 1);
    assert_eq!(ledger.balance(TOKEN, creator), 0);
    assert_eq!(ledger.balance(TOKEN, CONTRACT), 1000);

    c.assign_task(assignee, task_id, NOW).unwrap();
    c.submit_work(assignee, task_id, "https://github.com/LatterFixxx/LatterFix-Smart-contract".to_string(), NOW).unwrap();
    let settlement = c.complete_task(creator, task_id, NOW).unwrap();
    ledger.apply(&settlement.transfers);

    assert_eq!(settlement.fee, 25);
    assert_eq!(settlement.payout, 975);
    assert_eq!(ledger.balance(TOKEN, FEE_RECIPIENT), 25);
    assert_eq!(ledger.balance(TOKEN, assignee), 975);
    assert_eq!(ledger.balance(TOKEN, CONTRACT), 0);
}

#[test]
fn test_cancel_task_refund() {
    let mut c = setup_initialized_contract(100);
    let mut ledger = Ledger::new();
    let creator = 10;
    ledger.mint(TOKEN, creator, 500);
    let task_id = create(&mut c, &mut ledger, creator, "Cancel Task", 500, Vec::new());
    assert_eq!(ledger.balance(TOKEN, creator), 0);
    assert_eq!(ledger.balance(TOKEN, CONTRACT), 500);

    let transfers = c.cancel_task(creator, task_id, NOW).unwrap();
    ledger.apply(&transfers);
    assert_eq!(ledger.balance(TOKEN, creator), 500, "creator must be fully refunded");
    assert_eq!(ledger.balance(TOKEN, CONTRACT), 0);
}

#[test]
fn test_dispute_and_resolution() {
    let mut c = setup_initialized_contract(100);
    let mut ledger = Ledger::new();
    let creator = 10;
    let assignee = 11;
    ledger.mint(TOKEN, creator, 1000);
    let task_id = create(&mut c, &mut ledger, creator, "Dispute Task", 1000, Vec::new());
    c.assign_task(assignee, task_id, NOW).unwrap();
    c.dispute_task(creator, task_id, NOW).unwrap();
    let transfers = c.resolve_dispute(ADMIN, task_id, 500, 500, NOW).unwrap();
    ledger.apply(&transfers);

    assert_eq!(ledger.balance(TOKEN, creator), 500, "creator gets 50%");
    assert_eq!(ledger.balance(TOKEN, assignee), 500, "assignee gets 50%");
    assert_eq!(ledger.balance(TOKEN, CONTRACT), 0);
}

#[test]
fn test_user_profile_lifecycle() {
    let mut c = setup_initialized_contract(100);
    let user = 20;
    c.create_profile(user, "john_doe".to_string(), "Rust developer".to_string(), NOW).unwrap();

    let profile = c.get_profile(user).expect("profile must exist after creation");
    assert_eq!(profile.address, user);
    assert_eq!(profile.username, "john_doe");
    assert_eq!(profile.reputation, 100, "starting reputation is 100");
    assert_eq!(profile.completed_tasks, 0);
    assert_eq!(profile.bio, "Rust developer");

    c.update_bio(user, "Soroban developer".to_string(), NOW).unwrap();
    assert_eq!(c.get_profile(user).unwrap().bio, "Soroban developer");

    c.reward_contribution(ADMIN, user, 25, NOW).unwrap();
    let updated = c.get_profile(user).unwrap();
    assert_eq!(updated.reputation, 125, "reputation must increase by 25");
    assert_eq!(updated.completed_tasks, 1);
}

#[test]
fn test_dispute_full_assignee_payout() {
    let mut c = setup_initialized_contract(0);
    let mut ledger = Ledger::new();
    let creator = 10;
    let assignee = 11;
    ledger.mint(TOKEN, creator, 800);
    let task_id = create(&mut c, &mut ledger, creator, "Full Assignee Payout", 800, Vec::new());
    c.assign_task(assignee, task_id, NOW).unwrap();
    c.dispute_task(creator, task_id, NOW).unwrap();
    let transfers = c.resolve_dispute(ADMIN, task_id, 0, 800, NOW).unwrap();
    ledger.apply(&transfers);

    assert_eq!(ledger.balance(TOKEN, assignee), 800, "assignee gets full payout");
    assert_eq!(ledger.balance(TOKEN, creator), 0);
    assert_eq!(ledger.balance(TOKEN, CONTRACT), 0);
}

#[test]
fn test_multiple_concurrent_tasks() {
    let mut c = setup_initialized_contract(100);
    let mut ledger = Ledger::new();
    let creator = 10;
    let a1 = 11;
    let a2 = 12;
    ledger.mint(TOKEN, creator, 3000);

    let t1 = create(&mut c, &mut ledger, creator, "Task Alpha", 1000, vec!["frontend".to_string()]);
    let t2 = create(&mut c, &mut ledger, creator, "Task Beta", 2000, vec!["frontend".to_string()]);
    assert_eq!(ledger.balance(TOKEN, CONTRACT), 3000, "both task rewards locked");
    assert_eq!(ledger.balance(TOKEN, creator), 0);

    c.assign_task(a1, t1, NOW).unwrap();
    c.submit_work(a1, t1, "https://github.com/pr/1".to_string(), NOW).unwrap();
    let s1 = c.complete_task(creator, t1, NOW).unwrap();
    ledger.apply(&s1.transfers);

    c.assign_task(a2, t2, NOW).unwrap();
    c.submit_work(a2, t2, "https://github.com/pr/2".to_string(), NOW).unwrap();
    let s2 = c.complete_task(creator, t2, NOW).unwrap();
    ledger.apply(&s2.transfers);

    assert_eq!(ledger.balance(TOKEN, FEE_RECIPIENT), 30, "combined fees correct");
    assert_eq!(ledger.balance(TOKEN, a1), 990);
    assert_eq!(ledger.balance(TOKEN, a2), 1980);
    assert_eq!(ledger.balance(TOKEN, CONTRACT), 0);
}

#[test]
fn test_cannot_double_assign() {
    let mut c = setup_initialized_contract(100);
    let mut ledger = Ledger::new();
    let creator = 10;
    ledger.mint(TOKEN, creator, 500);
    let task_id = create(&mut c, &mut ledger, creator, "Single Assign Task", 500, Vec::new());
    c.assign_task(11, task_id, NOW).unwrap();
    let result = c.assign_task(12, task_id, NOW);
    assert!(result.is_err(), "double-assigning a task should be rejected");
    assert_eq!(result, Err(ContractError::TaskNotOpen));
}

// ── Own scenarios ───────────────────────────────────────────────────────────

#[test]
fn fee_above_ten_percent_is_refused() {
    let mut c = TaskManagerContract::new(CONTRACT);
    assert_eq!(c.initialize(ADMIN, 1001, TOKEN, FEE_RECIPIENT), Err(ContractError::FeeTooHigh));
    assert!(c.initialize(ADMIN, 1000, TOKEN, FEE_RECIPIENT).is_ok());
}

#[test]
fn task_operations_before_initialization_are_refused() {
    let mut c = TaskManagerContract::new(CONTRACT);
    let r = c.create_task(10, "t".to_string(), "d".to_string(), 100, Vec::new(), NOW);
    assert_eq!(r.err(), Some(ContractError::NotInitialized));
}

#[test]
fn zero_reward_is_refused() {
    let mut c = setup_initialized_contract(100);
    let r = c.create_task(10, "t".to_string(), "d".to_string(), 0, Vec::new(), NOW);
    assert_eq!(r.err(), Some(ContractError::InvalidAmount));
    assert_eq!(c.task_count(), 0);
}

#[test]
fn unknown_task_is_reported() {
    let mut c = setup_initialized_contract(100);
    assert!(c.get_task(7).is_none());
    assert_eq!(c.assign_task(11, 7, NOW), Err(ContractError::TaskNotFound));
}

#[test]
fn unequal_dispute_split_is_refused() {
    let mut c = setup_initialized_contract(0);
    let mut ledger = Ledger::new();
    ledger.mint(TOKEN, 10, 800);
    let id = create(&mut c, &mut ledger, 10, "Split", 800, Vec::new());
    c.assign_task(11, id, NOW).unwrap();
    c.dispute_task(10, id, NOW).unwrap();
    assert_eq!(c.resolve_dispute(ADMIN, id, 100, 100, NOW).err(), Some(ContractError::InvalidSplit));
    assert_eq!(c.resolve_dispute(99, id, 400, 400, NOW).err(), Some(ContractError::NotAdmin));
}

#[test]
fn completing_pays_fee_and_reputation() {
    let mut c = setup_initialized_contract(1000);
    let mut ledger = Ledger::new();
    ledger.mint(TOKEN, 10, 999);
    let id = create(&mut c, &mut ledger, 10, "Rounding", 999, Vec::new());
    c.assign_task(11, id, NOW).unwrap();
    c.submit_work(11, id, "url".to_string(), NOW).unwrap();
    let before = c.get_user_reputation(11);
    let s = c.complete_task(10, id, NOW).unwrap();
    // 10% of 999 truncates to 99.
    assert_eq!(s.fee, 99);
    assert_eq!(s.payout, 900);
    assert!(c.get_user_reputation(11) > before);
    assert_eq!(c.get_statistics().total_platform_fees, 99);
}

#[test]
fn paused_creation_is_refused_until_unpaused() {
    let mut c = setup_initialized_contract(100);
    let admin = c.get_admin();
    c.pause(ADMIN, PauseAction::CreateTask).unwrap();
    let r = c.create_task(10, "t".to_string(), "d".to_string(), 100, Vec::new(), NOW);
    assert_eq!(r.err(), Some(ContractError::ActionPaused));
    c.unpause(ADMIN, PauseAction::CreateTask).unwrap();
    assert!(c.create_task(10, "t".to_string(), "d".to_string(), 100, Vec::new(), NOW).is_ok());
    assert_eq!(c.pause_all(5), Err(ContractError::NotAdmin));
    c.pauses.pause_for_user(ADMIN, admin, 10, PauseAction::CreateTask).unwrap();
    assert!(c.pauses.is_paused(PauseAction::CreateTask, Some(10)));
    assert!(!c.pauses.is_paused(PauseAction::CreateTask, Some(11)));
}

#[test]
fn milestones_pay_out_one_by_one() {
    let mut c = setup_initialized_contract(0);
    let mut ledger = Ledger::new();
    ledger.mint(TOKEN, 10, 1000);
    let (id, transfers) = c
        .create_task_with_milestones(10, "M".to_string(), "d".to_string(),
            vec![("one".to_string(), 400), ("two".to_string(), 600)], Vec::new(), NOW)
        .unwrap();
    ledger.apply(&transfers);
    assert_eq!(c.get_task(id).unwrap().reward, 1000);
    assert_eq!(c.get_milestones(id).len(), 2);
    c.assign_task(11, id, NOW).unwrap();
    c.submit_milestone(11, id, 1, "url".to_string()).unwrap();
    assert_eq!(c.reject_milestone(10, id, 2, "no".to_string()), Err(ContractError::MilestoneNotSubmitted));
    let (amount, pay) = c.approve_milestone(10, id, 1, None, NOW).unwrap();
    ledger.apply(&pay);
    assert_eq!(amount, 400);
    assert_eq!(ledger.balance(TOKEN, 11), 400);
    assert_eq!(
        c.create_task_with_milestones(10, "M".to_string(), "d".to_string(), vec![("z".to_string(), 0)], Vec::new(), NOW).err(),
        Some(ContractError::InvalidAmount)
    );
}

#[test]
fn settled_tasks_accept_no_further_settlement() {
    let mut c = setup_initialized_contract(100);
    let mut ledger = Ledger::new();
    ledger.mint(TOKEN, 10, 2000);
    // A cancelled task.
    let cancelled = create(&mut c, &mut ledger, 10, "a", 1000, Vec::new());
    ledger.apply(&c.cancel_task(10, cancelled, NOW).unwrap());
    assert_eq!(c.complete_task(10, cancelled, NOW).err(), Some(ContractError::TaskNotCompleted));
    assert_eq!(c.cancel_task(10, cancelled, NOW).err(), Some(ContractError::TaskNotOpen));
    assert_eq!(c.dispute_task(10, cancelled, NOW).err(), Some(ContractError::TaskNotDisputable));
    // A resolved task.
    let resolved = create(&mut c, &mut ledger, 10, "b", 1000, Vec::new());
    c.assign_task(11, resolved, NOW).unwrap();
    c.dispute_task(11, resolved, NOW).unwrap();
    // A disputed task can be neither completed nor disputed again.
    assert_eq!(c.complete_task(10, resolved, NOW).err(), Some(ContractError::TaskNotCompleted));
    assert_eq!(c.dispute_task(10, resolved, NOW).err(), Some(ContractError::TaskNotDisputable));
    ledger.apply(&c.resolve_dispute(ADMIN, resolved, 400, 600, NOW).unwrap());
    assert_eq!(c.complete_task(10, resolved, NOW).err(), Some(ContractError::TaskNotCompleted));
    assert_eq!(c.cancel_task(10, resolved, NOW).err(), Some(ContractError::TaskNotOpen));
    assert_eq!(c.dispute_task(11, resolved, NOW).err(), Some(ContractError::TaskNotDisputable));
    assert_eq!(ledger.balance(TOKEN, 11), 600);
}

#[test]
fn paused_settlement_actions_are_refused() {
    let mut c = setup_initialized_contract(100);
    let mut ledger = Ledger::new();
    ledger.mint(TOKEN, 10, 1000);
    let id = create(&mut c, &mut ledger, 10, "a", 1000, Vec::new());
    c.pause(ADMIN, PauseAction::CancelTask).unwrap();
    c.pause(ADMIN, PauseAction::DisputeTask).unwrap();
    c.pause(ADMIN, PauseAction::CompleteTask).unwrap();
    assert_eq!(c.cancel_task(10, id, NOW).err(), Some(ContractError::ActionPaused));
    c.assign_task(11, id, NOW).unwrap();
    assert_eq!(c.dispute_task(10, id, NOW).err(), Some(ContractError::ActionPaused));
    c.submit_work(11, id, "u".to_string(), NOW).unwrap();
    assert_eq!(c.complete_task(10, id, NOW).err(), Some(ContractError::ActionPaused));
    c.unpause(ADMIN, PauseAction::CompleteTask).unwrap();
    assert!(c.complete_task(10, id, NOW).is_ok());
}

#[test]
fn split_resolution_pays_truncated_shares_within_the_reward() {
    let mut c = setup_initialized_contract(100);
    let mut ledger = Ledger::new();
    ledger.mint(TOKEN, 10, 999);
    let id = create(&mut c, &mut ledger, 10, "split", 999, Vec::new());
    c.assign_task(11, id, NOW).unwrap();
    // Not disputed yet.
    assert_eq!(
        c.resolve_dispute_split(id, &vec![10, 11, 12], &vec![3333, 3333, 3334], NOW).err(),
        Some(ContractError::TaskNotDisputed)
    );
    c.dispute_task(10, id, NOW).unwrap();
    assert_eq!(
        c.resolve_dispute_split(id, &vec![10, 11], &vec![5000, 4000], NOW).err(),
        Some(ContractError::InvalidSplit)
    );
    let transfers = c.resolve_dispute_split(id, &vec![10, 11, 12], &vec![3333, 3333, 3334], NOW).unwrap();
    let amounts: Vec<i128> = transfers.iter().map(|t| t.amount).collect();
    // 999 * 3333 / 10000 = 332 (truncated); 999 * 3334 / 10000 = 333.
    assert_eq!(amounts, vec![332, 332, 333]);
    assert!(amounts.iter().sum::<i128>() <= 999);
    ledger.apply(&transfers);
    assert_eq!(ledger.balance(TOKEN, 12), 333);
    assert_eq!(ledger.balance(TOKEN, CONTRACT), 2);
    assert_eq!(c.dispute_task(10, id, NOW).err(), Some(ContractError::TaskNotDisputable));
}

#[test]
fn escrow_holds_the_reward_of_every_unsettled_task() {
    let mut c = setup_initialized_contract(100);
    let mut ledger = Ledger::new();
    ledger.mint(TOKEN, 10, 3_000);
    let a = create(&mut c, &mut ledger, 10, "a", 1_000, Vec::new());
    let b = create(&mut c, &mut ledger, 10, "b", 700, Vec::new());
    assert_eq!(c.escrow.get_task_escrow(a), 1_000);
    assert_eq!(c.escrow.get_task_escrow(b), 700);
    assert_eq!(c.escrow.get_task_escrow(3), 0);
    c.assign_task(11, a, NOW).unwrap();
    c.dispute_task(11, a, NOW).unwrap();
    assert_eq!(c.escrow.get_task_escrow(a), 1_000);
    ledger.apply(&c.resolve_dispute(ADMIN, a, 100, 900, NOW).unwrap());
    assert_eq!(c.escrow.get_task_escrow(a), 0);
    ledger.apply(&c.cancel_task(10, b, NOW).unwrap());
    assert_eq!(c.escrow.get_task_escrow(b), 0);
    // Everything locked has been paid out again.
    assert_eq!(ledger.balance(TOKEN, CONTRACT), 0);
}

#[test]
fn dispute_split_with_a_negative_part_is_refused() {
    let mut c = setup_initialized_contract(100);
    let mut ledger = Ledger::new();
    ledger.mint(TOKEN, 10, 1000);
    let id = create(&mut c, &mut ledger, 10, "neg", 1000, Vec::new());
    c.assign_task(11, id, NOW).unwrap();
    c.dispute_task(10, id, NOW).unwrap();
    assert_eq!(c.resolve_dispute(ADMIN, id, -100, 1100, NOW).err(), Some(ContractError::InvalidSplit));
    assert_eq!(c.resolve_dispute(ADMIN, id, 1100, -100, NOW).err(), Some(ContractError::InvalidSplit));
    // Nothing moved and the task is still disputed.
    assert_eq!(c.escrow.get_task_escrow(id), 1000);
    assert!(c.dispute_task(10, id, NOW).is_err());
    assert!(c.resolve_dispute(ADMIN, id, 0, 1000, NOW).is_ok());
}

#[test]
fn settlement_updates_escrow_statistics_and_reputation_records() {
    let mut c = setup_initialized_contract(100);
    let mut ledger = Ledger::new();
    ledger.mint(TOKEN, 10, 1500);
    let a = create(&mut c, &mut ledger, 10, "a", 1000, Vec::new());
    let b = create(&mut c, &mut ledger, 10, "b", 500, Vec::new());
    let s = c.get_escrow_stats();
    assert_eq!((s.total_locked, s.active_escrows, s.completed_escrows), (1500, 2, 0));
    c.assign_task(11, a, NOW).unwrap();
    c.submit_work(11, a, "u".to_string(), NOW).unwrap();
    c.complete_task(10, a, NOW).unwrap();
    c.cancel_task(10, b, NOW).unwrap();
    let s = c.get_escrow_stats();
    assert_eq!((s.total_released, s.completed_escrows), (1500, 2));
    assert_eq!(c.reputation.get_event_count(11), 1);
    assert_eq!(c.get_leaderboard(), vec![(11, 150)]);
}

#[test]
fn initialize_sets_only_the_configuration() {
    let mut c = TaskManagerContract::new(CONTRACT);
    assert_eq!(c.initialize(ADMIN, 250, TOKEN, FEE_RECIPIENT), Ok(()));
    let stats = c.get_statistics();
    assert_eq!(stats.total_tasks_created, 0);
    assert_eq!(stats.total_value_locked, 0);
    let escrow = c.get_escrow_stats();
    assert_eq!(escrow.total_locked, 0);
    assert_eq!(escrow.active_escrows, 0);
    assert_eq!(c.task_count(), 0);
    assert!(c.get_leaderboard().is_empty());
    assert!(c.vault.supported.is_empty());
    assert!(c.multisig.proposals.is_empty());
    assert!(c.vesting.vaults.is_empty());
    assert!(!c.pauses.is_paused(PauseAction::CreateTask, Some(ADMIN)));
    let tiers = c.reputation.tiers.as_ref().unwrap();
    let names: Vec<&str> = tiers.iter().map(|t| t.name.as_str()).collect();
    assert_eq!(names, vec!["Newcomer", "Contributor", "Expert", "Master", "Legend"]);
    assert!(tiers.iter().all(|t| t.badge_url.is_none()));
    assert_eq!(c.initialize(ADMIN, 250, TOKEN, FEE_RECIPIENT), Err(ContractError::AlreadyInitialized));
}
