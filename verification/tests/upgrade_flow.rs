use task_manager_pro::access_control::Role;
use task_manager_pro::types::ContractError;
use task_manager_pro::upgrade::{UpgradeStatus, DEFAULT_TIMELOCK_SECONDS, MIN_TIMELOCK_SECONDS};
use task_manager_pro::TaskManagerContract;

const CONTRACT: u64 = 100;
const ADMIN: u64 = 1;
const TOKEN: u64 = 2;
const FEE_RECIPIENT: u64 = 3;
const START: u64 = 10_000;

struct Ctx {
    c: TaskManagerContract,
    now: u64,
}

impl Ctx {
    fn propose(&mut self, caller: u64, hash: [u8; 32]) -> Result<task_manager_pro::upgrade::UpgradeProposal, ContractError> {
        self.c.propose_upgrade(caller, hash, self.now)
    }

    fn execute(&mut self, caller: u64) -> Result<[u8; 32], ContractError> {
        self.c.execute_upgrade(caller, self.now)
    }

    fn veto(&mut self, caller: u64) -> Result<task_manager_pro::upgrade::UpgradeProposal, ContractError> {
        self.c.veto_upgrade(caller)
    }

    fn set_timelock(&mut self, caller: u64, seconds: u64) -> Result<u64, ContractError> {
        self.c.set_upgrade_timelock(caller, seconds)
    }
}

fn setup() -> Ctx {
    let mut c = TaskManagerContract::new(CONTRACT);
    c.initialize(ADMIN, 100, TOKEN, FEE_RECIPIENT).unwrap();
    Ctx { c, now: START }
}

fn placeholder_wasm_hash() -> [u8; 32] {
    [7u8; 32]
}

fn uploaded_wasm_hash() -> [u8; 32] {
    [0xE3u8; 32]
}

#[test]
fn test_propose_upgrade_sets_pending_state_with_timelock() {
    let mut ctx = setup();
    let hash = placeholder_wasm_hash();
    let proposal = ctx.propose(ADMIN, hash).unwrap();
    assert_eq!(proposal.status, UpgradeStatus::Pending);
    assert_eq!(proposal.wasm_hash, hash);
    assert_eq!(proposal.proposed_by, ADMIN);
    assert_eq!(proposal.ready_at, proposal.proposed_at + DEFAULT_TIMELOCK_SECONDS);
    let pending = ctx.c.get_pending_upgrade().unwrap();
    assert_eq!(pending.wasm_hash, proposal.wasm_hash);
    assert_eq!(pending.ready_at, proposal.ready_at);
    assert_eq!(pending.status, proposal.status);
}

#[test]
fn test_propose_upgrade_rejects_non_admin() {
    let mut ctx = setup();
    let res = ctx.propose(55, placeholder_wasm_hash());
    assert!(res.is_err(), "non-admin propose should be rejected");
    assert_eq!(res.err(), Some(ContractError::NotAdmin));
}

#[test]
fn test_propose_upgrade_rejects_second_pending_proposal() {
    let mut ctx = setup();
    ctx.propose(ADMIN, placeholder_wasm_hash()).unwrap();
    let res = ctx.propose(ADMIN, [9u8; 32]);
    assert!(res.is_err(), "a second pending proposal should be rejected while one is already pending");
    assert_eq!(res.err(), Some(ContractError::UpgradePending));
}

#[test]
fn test_execute_upgrade_rejects_before_timelock_elapses() {
    let mut ctx = setup();
    ctx.propose(ADMIN, placeholder_wasm_hash()).unwrap();
    let res = ctx.execute(ADMIN);
    assert!(res.is_err(), "premature execution should be rejected");
    ctx.now += DEFAULT_TIMELOCK_SECONDS - 1;
    let res = ctx.execute(ADMIN);
    assert!(res.is_err(), "execution one second before ready_at should still be rejected");
    assert_eq!(res.err(), Some(ContractError::TimelockNotElapsed));
}

#[test]
fn test_execute_upgrade_succeeds_after_timelock_elapses() {
    let mut ctx = setup();
    let hash = uploaded_wasm_hash();
    let proposal = ctx.propose(ADMIN, hash).unwrap();
    ctx.now = proposal.ready_at;
    let applied = ctx.execute(ADMIN).unwrap();
    assert_eq!(applied, hash);
    let pending = ctx.c.get_pending_upgrade().unwrap();
    assert_eq!(pending.status, UpgradeStatus::Executed);
    assert!(pending.executed_at.is_some());
    let history = ctx.c.get_upgrade_history();
    assert_eq!(history.len(), 1);
    assert_eq!(history[0].wasm_hash, hash);
    assert_eq!(history[0].applied_by, ADMIN);
}

#[test]
fn test_execute_upgrade_rejects_non_admin() {
    let mut ctx = setup();
    let proposal = ctx.propose(ADMIN, uploaded_wasm_hash()).unwrap();
    ctx.now = proposal.ready_at;
    let res = ctx.execute(55);
    assert!(res.is_err(), "non-admin execute should be rejected");
}

#[test]
fn test_execute_upgrade_rejects_when_already_executed() {
    let mut ctx = setup();
    let proposal = ctx.propose(ADMIN, uploaded_wasm_hash()).unwrap();
    ctx.now = proposal.ready_at;
    ctx.execute(ADMIN).unwrap();
    let res = ctx.execute(ADMIN);
    assert!(res.is_err(), "double execution should be rejected");
    assert_eq!(res.err(), Some(ContractError::UpgradeAlreadyExecuted));
}

#[test]
fn test_veto_upgrade_by_guardian_blocks_execution() {
    let mut ctx = setup();
    let guardian = 66;
    ctx.c.grant_role(ADMIN, guardian, Role::Guardian, ctx.now).unwrap();
    let proposal = ctx.propose(ADMIN, placeholder_wasm_hash()).unwrap();
    let vetoed = ctx.veto(guardian).unwrap();
    assert_eq!(vetoed.status, UpgradeStatus::Vetoed);
    assert_eq!(vetoed.vetoed_by, Some(guardian));
    ctx.now = proposal.ready_at;
    let res = ctx.execute(ADMIN);
    assert!(res.is_err(), "execution after veto should be rejected");
    assert_eq!(res.err(), Some(ContractError::UpgradeVetoed));
}

#[test]
fn test_veto_upgrade_allows_admin_self_correction() {
    let mut ctx = setup();
    ctx.propose(ADMIN, placeholder_wasm_hash()).unwrap();
    let vetoed = ctx.veto(ADMIN).unwrap();
    assert_eq!(vetoed.status, UpgradeStatus::Vetoed);
    assert_eq!(vetoed.vetoed_by, Some(ADMIN));
}

#[test]
fn test_veto_upgrade_rejects_unauthorized_caller() {
    let mut ctx = setup();
    ctx.propose(ADMIN, placeholder_wasm_hash()).unwrap();
    let res = ctx.veto(55);
    assert!(res.is_err(), "veto by a non-guardian, non-admin caller should be rejected");
    assert_eq!(res.err(), Some(ContractError::NotGuardian));
}

#[test]
fn test_veto_upgrade_rejects_when_no_pending_proposal() {
    let mut ctx = setup();
    let res = ctx.veto(ADMIN);
    assert!(res.is_err(), "veto without a pending proposal should be rejected");
    assert_eq!(res.err(), Some(ContractError::NoPendingUpgrade));
}

#[test]
fn test_set_upgrade_timelock_changes_future_proposals() {
    let mut ctx = setup();
    let new_timelock: u64 = 7 * 24 * 3600;
    ctx.set_timelock(ADMIN, new_timelock).unwrap();
    assert_eq!(ctx.c.get_upgrade_timelock(), new_timelock);
    let proposal = ctx.propose(ADMIN, placeholder_wasm_hash()).unwrap();
    assert_eq!(proposal.ready_at, proposal.proposed_at + new_timelock);
}

#[test]
fn test_set_upgrade_timelock_rejects_below_safety_floor() {
    let mut ctx = setup();
    let res = ctx.set_timelock(ADMIN, MIN_TIMELOCK_SECONDS - 1);
    assert!(res.is_err(), "timelock below the safety floor should be rejected");
    assert_eq!(res, Err(ContractError::TimelockTooShort));
}

#[test]
fn test_set_upgrade_timelock_rejects_non_admin() {
    let mut ctx = setup();
    let res = ctx.set_timelock(55, 7 * 24 * 3600);
    assert!(res.is_err(), "non-admin timelock change should be rejected");
}

// ── Own scenarios ───────────────────────────────────────────────────────────

#[test]
fn history_keeps_the_latest_fifty_upgrades() {
    let mut ctx = setup();
    for i in 0..55u8 {
        let proposal = ctx.propose(ADMIN, [i; 32]).unwrap();
        ctx.now = proposal.ready_at;
        ctx.execute(ADMIN).unwrap();
    }
    let history = ctx.c.get_upgrade_history();
    assert_eq!(history.len(), 50);
    assert_eq!(history[0].wasm_hash, [5u8; 32]);
    assert_eq!(history[49].wasm_hash, [54u8; 32]);
}

#[test]
fn revoked_guardian_cannot_veto() {
    let mut ctx = setup();
    let guardian = 67;
    ctx.c.grant_role(ADMIN, guardian, Role::Guardian, ctx.now).unwrap();
    assert!(ctx.c.has_role(guardian, Role::Guardian));
    assert_eq!(ctx.c.access.get_role_members(Role::Guardian), &vec![guardian]);
    ctx.c.revoke_role(ADMIN, guardian).unwrap();
    assert!(!ctx.c.has_role(guardian, Role::Guardian));
    assert!(ctx.c.access.get_role_members(Role::Guardian).is_empty());
    assert_eq!(ctx.c.access.require_role(guardian, Role::Guardian), Err(ContractError::RoleNotFound));
    ctx.propose(ADMIN, placeholder_wasm_hash()).unwrap();
    assert_eq!(ctx.veto(guardian).err(), Some(ContractError::NotGuardian));
    assert_eq!(ctx.c.grant_role(guardian, 1, Role::Admin, 0), Err(ContractError::NotAdmin));
}

#[test]
fn manager_level_veto_takes_the_guardian_flag_as_given() {
    let mut ctx = setup();
    ctx.propose(ADMIN, placeholder_wasm_hash()).unwrap();
    let admin = ctx.c.get_admin();
    // Without the guardian role an outsider is refused ...
    assert_eq!(ctx.c.upgrades.veto_upgrade(55, admin, false).err(), Some(ContractError::NotGuardian));
    // ... and with it the veto goes through.
    let vetoed = ctx.c.upgrades.veto_upgrade(55, admin, true).unwrap();
    assert_eq!(vetoed.vetoed_by, Some(55));
    // Nothing is left to veto.
    assert_eq!(ctx.c.veto_upgrade(ADMIN).err(), Some(ContractError::UpgradeNotPending));
}
