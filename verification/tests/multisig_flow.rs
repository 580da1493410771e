use std::collections::HashMap;

use task_manager_pro::multisig::{MultisigAction, MultisigProposalStatus};
use task_manager_pro::types::{ContractError, Transfer};
use task_manager_pro::TaskManagerContract;

const CONTRACT: u64 = 100;
const ADMIN: u64 = 1;
const TOKEN: u64 = 2;
const FEE_RECIPIENT: u64 = 3;
const START: u64 = 1_000;

/// The contract with the token balances of the host, and the clock. A call
/// whose token movements cannot all be made is reverted as a whole, as the
/// host does.
struct Ctx {
    c: TaskManagerContract,
    balances: HashMap<(u64, u64), i128>,
    now: u64,
    signers: Vec<u64>,
}

impl Ctx {
    fn balance(&self, token: u64, who: u64) -> i128 {
        *self.balances.get(&(token, who)).unwrap_or(&0)
    }

    fn mint(&mut self, token: u64, who: u64, amount: i128) {
        *self.balances.entry((token, who)).or_insert(0) += amount;
    }

    fn settle(&mut self, snapshot: TaskManagerContract, transfers: &[Transfer]) -> bool {
        let mut next = self.balances.clone();
        for t in transfers {
            let from = *next.get(&(t.token, t.from)).unwrap_or(&0);
            if from < t.amount {
                self.c = snapshot;
                return false;
            }
            next.insert((t.token, t.from), from - t.amount);
            *next.entry((t.token, t.to)).or_insert(0) += t.amount;
        }
        self.balances = next;
        true
    }

    fn propose(&mut self, proposer: u64, action: MultisigAction) -> Result<u32, ContractError> {
        self.c.multisig_propose(proposer, "raise platform fee to 2.5%".to_string(), action, self.now)
    }

    fn vote(&mut self, signer: u64, id: u32) -> Result<MultisigProposalStatus, ContractError> {
        let snapshot = self.c.clone();
        let (status, transfers) = self.c.vote_proposal(signer, id, self.now)?;
        if self.settle(snapshot, &transfers) { Ok(status) } else { Err(ContractError::InsufficientBalance) }
    }

    fn execute(&mut self, caller: u64, id: u32) -> Result<MultisigProposalStatus, ContractError> {
        let snapshot = self.c.clone();
        let (status, transfers) = self.c.multisig_execute_proposal(caller, id, self.now)?;
        if self.settle(snapshot, &transfers) { Ok(status) } else { Err(ContractError::InsufficientBalance) }
    }

    fn signer(&self, i: usize) -> u64 {
        self.signers[i]
    }

    fn fee_bps(&self) -> u32 {
        self.c.platform_fee_bps
    }
}

/// Initialize the contract and install an N-signer multisig with `threshold`.
fn setup(signer_count: u64, threshold: u32) -> Ctx {
    let mut c = TaskManagerContract::new(CONTRACT);
    c.initialize(ADMIN, 100, TOKEN, FEE_RECIPIENT).unwrap();
    let signers: Vec<u64> = (0..signer_count).map(|i| 200 + i).collect();
    c.configure_multisig(ADMIN, signers.clone(), threshold, None, None).unwrap();
    Ctx { c, balances: HashMap::new(), now: START, signers }
}

#[test]
fn test_configure_multisig_stores_signer_set() {
    let ctx = setup(3, 2);
    let config = ctx.c.get_multisig_config();
    assert_eq!(config.signers.len(), 3);
    assert_eq!(config.threshold, 2);
    assert!(config.auto_execute, "auto_execute should default to true");
    assert!(ctx.c.is_multisig_signer(ctx.signer(0)));
    assert!(!ctx.c.is_multisig_signer(999));
}

#[test]
fn test_configure_multisig_rejects_non_admin() {
    let mut ctx = setup(3, 2);
    let impostor = 999;
    let res = ctx.c.configure_multisig(impostor, vec![impostor], 1, None, None);
    assert!(res.is_err(), "non-admin must not reconfigure the multisig");
    assert_eq!(res, Err(ContractError::NotAdmin));
}

#[test]
fn test_configure_multisig_rejects_invalid_threshold() {
    let mut ctx = setup(3, 2);
    let signers = ctx.signers.clone();
    let res = ctx.c.configure_multisig(ADMIN, signers.clone(), 4, None, None);
    assert!(res.is_err(), "threshold above signer count must be rejected");
    let res = ctx.c.configure_multisig(ADMIN, signers, 0, None, None);
    assert!(res.is_err(), "zero threshold must be rejected");
    assert_eq!(res, Err(ContractError::InvalidSignerSet));
}

#[test]
fn test_configure_multisig_rejects_duplicate_signers() {
    let mut ctx = setup(3, 2);
    let dup = 500;
    let res = ctx.c.configure_multisig(ADMIN, vec![dup, dup], 2, None, None);
    assert!(res.is_err(), "duplicate signer must be rejected");
}

#[test]
fn test_propose_creates_pending_proposal() {
    let mut ctx = setup(3, 2);
    let s0 = ctx.signer(0);
    let id = ctx.propose(s0, MultisigAction::SetPlatformFee(250)).unwrap();
    assert_eq!(id, 1);
    let proposal = ctx.c.get_multisig_proposal(id).unwrap();
    assert_eq!(proposal.status, MultisigProposalStatus::Pending);
    assert_eq!(proposal.threshold, 2);
    assert_eq!(proposal.proposer, s0);
    assert_eq!(proposal.executed_at, None);
    assert_eq!(proposal.approvals.len(), 0, "proposer should not be auto-approved");
    assert_eq!(ctx.c.get_multisig_approval_count(id), 0);
}

#[test]
fn test_propose_rejects_non_signer() {
    let mut ctx = setup(3, 2);
    let res = ctx.propose(999, MultisigAction::SetPlatformFee(250));
    assert!(res.is_err(), "non-signer must not create proposals");
    assert_eq!(res, Err(ContractError::NotSigner));
}

#[test]
fn test_propose_rejects_invalid_action_upfront() {
    let mut ctx = setup(3, 2);
    let s0 = ctx.signer(0);
    let res = ctx.propose(s0, MultisigAction::SetPlatformFee(1001));
    assert!(res.is_err(), "out-of-range fee must be rejected at proposal time");
    let res = ctx.propose(s0, MultisigAction::TreasuryTransfer(TOKEN, FEE_RECIPIENT, 0));
    assert!(res.is_err(), "non-positive transfer must be rejected");
    assert_eq!(res, Err(ContractError::InvalidAction));
}

#[test]
fn test_proposal_ids_increment() {
    let mut ctx = setup(3, 2);
    let (s0, s1) = (ctx.signer(0), ctx.signer(1));
    let a = ctx.propose(s0, MultisigAction::SetPlatformFee(100)).unwrap();
    let b = ctx.propose(s1, MultisigAction::SetPlatformFee(200)).unwrap();
    assert_eq!((a, b), (1, 2));
}

#[test]
fn test_vote_below_threshold_stays_pending() {
    let mut ctx = setup(3, 2);
    let (s0, s1) = (ctx.signer(0), ctx.signer(1));
    let id = ctx.propose(s0, MultisigAction::SetPlatformFee(250)).unwrap();
    let status = ctx.vote(s0, id).unwrap();
    assert_eq!(status, MultisigProposalStatus::Pending);
    assert_eq!(ctx.c.get_multisig_approval_count(id), 1);
    assert!(ctx.c.has_approved_proposal(id, s0));
    assert!(!ctx.c.has_approved_proposal(id, s1));
}

#[test]
fn test_vote_rejects_double_approval() {
    let mut ctx = setup(3, 2);
    let s0 = ctx.signer(0);
    let id = ctx.propose(s0, MultisigAction::SetPlatformFee(250)).unwrap();
    ctx.vote(s0, id).unwrap();
    let res = ctx.vote(s0, id);
    assert!(res.is_err(), "a signer must not approve the same proposal twice");
    assert_eq!(res, Err(ContractError::AlreadyVoted));
    assert_eq!(ctx.c.get_multisig_approval_count(id), 1);
}

#[test]
fn test_vote_rejects_non_signer() {
    let mut ctx = setup(3, 2);
    let s0 = ctx.signer(0);
    let id = ctx.propose(s0, MultisigAction::SetPlatformFee(250)).unwrap();
    let res = ctx.vote(999, id);
    assert!(res.is_err(), "non-signer approval must be rejected");
}

#[test]
fn test_vote_rejects_unknown_proposal() {
    let mut ctx = setup(3, 2);
    let s0 = ctx.signer(0);
    let res = ctx.vote(s0, 999);
    assert!(res.is_err(), "voting on a missing proposal must fail");
    assert_eq!(res, Err(ContractError::ProposalNotFound));
}

#[test]
fn test_threshold_auto_executes_parameter_change() {
    let mut ctx = setup(3, 2);
    let (s0, s1) = (ctx.signer(0), ctx.signer(1));
    let id = ctx.propose(s0, MultisigAction::SetPlatformFee(250)).unwrap();
    assert_eq!(ctx.vote(s0, id).unwrap(), MultisigProposalStatus::Pending);
    assert_eq!(ctx.vote(s1, id).unwrap(), MultisigProposalStatus::Executed);
    let proposal = ctx.c.get_multisig_proposal(id).unwrap();
    assert_eq!(proposal.status, MultisigProposalStatus::Executed);
    assert!(proposal.executed_at.is_some());
    assert_eq!(proposal.approvals.len(), 2);
    assert_eq!(ctx.fee_bps(), 250);
}

#[test]
fn test_executed_proposal_is_terminal() {
    let mut ctx = setup(3, 2);
    let (s0, s1, s2) = (ctx.signer(0), ctx.signer(1), ctx.signer(2));
    let id = ctx.propose(s0, MultisigAction::SetPlatformFee(250)).unwrap();
    ctx.vote(s0, id).unwrap();
    ctx.vote(s1, id).unwrap();
    let res = ctx.vote(s2, id);
    assert!(res.is_err(), "executed proposal must not accept more votes");
    let res = ctx.execute(s0, id);
    assert!(res.is_err(), "executed proposal must not re-execute");
}

#[test]
fn test_manual_execution_when_auto_execute_disabled() {
    let mut ctx = setup(3, 2);
    let signers = ctx.signers.clone();
    ctx.c.configure_multisig(ADMIN, signers, 2, None, Some(false)).unwrap();
    let (s0, s1, s2) = (ctx.signer(0), ctx.signer(1), ctx.signer(2));
    let id = ctx.propose(s0, MultisigAction::SetPlatformFee(250)).unwrap();
    ctx.vote(s0, id).unwrap();
    let status = ctx.vote(s1, id).unwrap();
    assert_eq!(status, MultisigProposalStatus::Approved);
    assert_eq!(ctx.fee_bps(), 100, "fee must not change before execution");
    let status = ctx.execute(s2, id).unwrap();
    assert_eq!(status, MultisigProposalStatus::Executed);
    assert_eq!(ctx.fee_bps(), 250);
}

#[test]
fn test_execute_rejects_pending_proposal() {
    let mut ctx = setup(3, 2);
    let s0 = ctx.signer(0);
    let id = ctx.propose(s0, MultisigAction::SetPlatformFee(250)).unwrap();
    ctx.vote(s0, id).unwrap();
    let res = ctx.execute(s0, id);
    assert!(res.is_err(), "under-approved proposal must not execute");
    assert_eq!(res, Err(ContractError::ProposalNotApproved));
}

#[test]
fn test_single_signer_threshold_executes_on_first_vote() {
    let mut ctx = setup(1, 1);
    let s0 = ctx.signer(0);
    let id = ctx.propose(s0, MultisigAction::SetPlatformFee(500)).unwrap();
    assert_eq!(ctx.fee_bps(), 100);
    let status = ctx.vote(s0, id).unwrap();
    assert_eq!(status, MultisigProposalStatus::Executed);
    assert_eq!(ctx.fee_bps(), 500);
}

#[test]
fn test_treasury_transfer_executes_on_threshold() {
    let mut ctx = setup(3, 2);
    ctx.mint(TOKEN, CONTRACT, 1_000);
    let recipient = 700;
    assert_eq!(ctx.balance(TOKEN, recipient), 0);
    let (s0, s1) = (ctx.signer(0), ctx.signer(1));
    let id = ctx.propose(s0, MultisigAction::TreasuryTransfer(TOKEN, recipient, 400)).unwrap();
    ctx.vote(s0, id).unwrap();
    let status = ctx.vote(s1, id).unwrap();
    assert_eq!(status, MultisigProposalStatus::Executed);
    assert_eq!(ctx.balance(TOKEN, recipient), 400);
    assert_eq!(ctx.balance(TOKEN, CONTRACT), 600);
}

#[test]
fn test_treasury_transfer_beyond_balance_reverts_whole_call() {
    let mut ctx = setup(3, 2);
    ctx.mint(TOKEN, CONTRACT, 100);
    let recipient = 701;
    let (s0, s1) = (ctx.signer(0), ctx.signer(1));
    let id = ctx.propose(s0, MultisigAction::TreasuryTransfer(TOKEN, recipient, 5_000)).unwrap();
    ctx.vote(s0, id).unwrap();
    let res = ctx.vote(s1, id);
    assert!(res.is_err(), "underfunded treasury transfer must revert");
    let proposal = ctx.c.get_multisig_proposal(id).unwrap();
    assert_eq!(proposal.status, MultisigProposalStatus::Pending, "failed execution must leave the proposal pending");
    assert_eq!(proposal.approvals.len(), 1, "the reverted approval must not be recorded");
    assert_eq!(ctx.balance(TOKEN, CONTRACT), 100);
    assert_eq!(ctx.balance(TOKEN, recipient), 0);
}

#[test]
fn test_signer_rotation_via_proposal() {
    let mut ctx = setup(3, 2);
    let new_signer = 800;
    let (s0, s1, s2) = (ctx.signer(0), ctx.signer(1), ctx.signer(2));
    let id = ctx.propose(s0, MultisigAction::SetSigners(vec![s0, new_signer], 2)).unwrap();
    ctx.vote(s0, id).unwrap();
    let status = ctx.vote(s1, id).unwrap();
    assert_eq!(status, MultisigProposalStatus::Executed);
    let config = ctx.c.get_multisig_config();
    assert_eq!(config.signers.len(), 2);
    assert!(ctx.c.is_multisig_signer(new_signer));
    assert!(!ctx.c.is_multisig_signer(s2), "rotated-out signer must lose authority");
}

#[test]
fn test_approval_from_removed_signer_stops_counting() {
    let mut ctx = setup(4, 3);
    let (s0, s1, s2, s3) = (ctx.signer(0), ctx.signer(1), ctx.signer(2), ctx.signer(3));
    let fee_id = ctx.propose(s0, MultisigAction::SetPlatformFee(250)).unwrap();
    ctx.vote(s3, fee_id).unwrap();
    assert_eq!(ctx.c.get_multisig_approval_count(fee_id), 1);
    ctx.c.configure_multisig(ADMIN, vec![s0, s1, s2], 3, None, None).unwrap();
    assert_eq!(ctx.c.get_multisig_approval_count(fee_id), 0, "removed signer's approval must be discounted");
    ctx.vote(s0, fee_id).unwrap();
    let status = ctx.vote(s1, fee_id).unwrap();
    assert_eq!(status, MultisigProposalStatus::Pending, "stale approval must not carry the proposal over the threshold");
    let status = ctx.vote(s2, fee_id).unwrap();
    assert_eq!(status, MultisigProposalStatus::Executed);
}

#[test]
fn test_threshold_is_snapshotted_at_creation() {
    let mut ctx = setup(4, 4);
    let (s0, s1, s2, s3) = (ctx.signer(0), ctx.signer(1), ctx.signer(2), ctx.signer(3));
    let id = ctx.propose(s0, MultisigAction::SetPlatformFee(250)).unwrap();
    assert_eq!(ctx.c.get_multisig_proposal(id).unwrap().threshold, 4);
    let signers = ctx.signers.clone();
    ctx.c.configure_multisig(ADMIN, signers, 2, None, None).unwrap();
    ctx.vote(s0, id).unwrap();
    let status = ctx.vote(s1, id).unwrap();
    assert_eq!(status, MultisigProposalStatus::Pending, "lowering the threshold must not retroactively approve a live proposal");
    ctx.vote(s2, id).unwrap();
    let status = ctx.vote(s3, id).unwrap();
    assert_eq!(status, MultisigProposalStatus::Executed, "the snapshotted threshold of 4 governs");
}

#[test]
fn test_proposer_can_cancel() {
    let mut ctx = setup(3, 2);
    let (s0, s1) = (ctx.signer(0), ctx.signer(1));
    let id = ctx.propose(s0, MultisigAction::SetPlatformFee(250)).unwrap();
    ctx.c.multisig_cancel_proposal(s0, id).unwrap();
    let proposal = ctx.c.get_multisig_proposal(id).unwrap();
    assert_eq!(proposal.status, MultisigProposalStatus::Cancelled);
    let res = ctx.vote(s1, id);
    assert!(res.is_err(), "cancelled proposal must not accept votes");
}

#[test]
fn test_admin_can_cancel_any_proposal() {
    let mut ctx = setup(3, 2);
    let s0 = ctx.signer(0);
    let id = ctx.propose(s0, MultisigAction::SetPlatformFee(250)).unwrap();
    ctx.c.multisig_cancel_proposal(ADMIN, id).unwrap();
    assert_eq!(ctx.c.get_multisig_proposal(id).unwrap().status, MultisigProposalStatus::Cancelled);
}

#[test]
fn test_unrelated_signer_cannot_cancel() {
    let mut ctx = setup(3, 2);
    let (s0, s1) = (ctx.signer(0), ctx.signer(1));
    let id = ctx.propose(s0, MultisigAction::SetPlatformFee(250)).unwrap();
    let res = ctx.c.multisig_cancel_proposal(s1, id);
    assert!(res.is_err(), "only proposer or admin may cancel");
    assert_eq!(res, Err(ContractError::NotAuthorized));
}

#[test]
fn test_cancel_after_approval_blocks_execution() {
    let mut ctx = setup(3, 2);
    let signers = ctx.signers.clone();
    ctx.c.configure_multisig(ADMIN, signers, 2, None, Some(false)).unwrap();
    let (s0, s1) = (ctx.signer(0), ctx.signer(1));
    let id = ctx.propose(s0, MultisigAction::SetPlatformFee(250)).unwrap();
    ctx.vote(s0, id).unwrap();
    ctx.vote(s1, id).unwrap();
    ctx.c.multisig_cancel_proposal(ADMIN, id).unwrap();
    let res = ctx.execute(s0, id);
    assert!(res.is_err(), "cancelled proposal must not execute");
    assert_eq!(ctx.fee_bps(), 100);
}

#[test]
fn test_cancel_rejects_executed_proposal() {
    let mut ctx = setup(3, 2);
    let (s0, s1) = (ctx.signer(0), ctx.signer(1));
    let id = ctx.propose(s0, MultisigAction::SetPlatformFee(250)).unwrap();
    ctx.vote(s0, id).unwrap();
    ctx.vote(s1, id).unwrap();
    let res = ctx.c.multisig_cancel_proposal(ADMIN, id);
    assert!(res.is_err(), "executed proposal must not be cancellable");
    assert_eq!(res, Err(ContractError::ProposalNotActive));
}

#[test]
fn test_expired_proposal_rejects_votes() {
    let mut ctx = setup(3, 2);
    let (s0, s1) = (ctx.signer(0), ctx.signer(1));
    let id = ctx.propose(s0, MultisigAction::SetPlatformFee(250)).unwrap();
    ctx.vote(s0, id).unwrap();
    ctx.now += 604_800 + 1;
    let res = ctx.vote(s1, id);
    assert!(res.is_err(), "expired proposal must not accept votes");
    assert_eq!(res, Err(ContractError::ProposalExpired));
}

#[test]
fn test_expired_proposal_rejects_execution() {
    let mut ctx = setup(3, 2);
    let signers = ctx.signers.clone();
    ctx.c.configure_multisig(ADMIN, signers, 2, Some(1_000), Some(false)).unwrap();
    let (s0, s1) = (ctx.signer(0), ctx.signer(1));
    let id = ctx.propose(s0, MultisigAction::SetPlatformFee(250)).unwrap();
    ctx.vote(s0, id).unwrap();
    let status = ctx.vote(s1, id).unwrap();
    assert_eq!(status, MultisigProposalStatus::Approved);
    ctx.now += 1_001;
    let res = ctx.execute(s0, id);
    assert!(res.is_err(), "expired proposal must not execute");
    assert_eq!(ctx.fee_bps(), 100);
}

#[test]
fn test_pending_proposals_listing() {
    let mut ctx = setup(3, 2);
    let (s0, s1) = (ctx.signer(0), ctx.signer(1));
    let keep = ctx.propose(s0, MultisigAction::SetPlatformFee(250)).unwrap();
    let cancel = ctx.propose(s0, MultisigAction::SetPlatformFee(300)).unwrap();
    let execute = ctx.propose(s0, MultisigAction::SetPlatformFee(400)).unwrap();
    ctx.c.multisig_cancel_proposal(s0, cancel).unwrap();
    ctx.vote(s0, execute).unwrap();
    ctx.vote(s1, execute).unwrap();
    let pending = ctx.c.get_pending_multisig_proposals(ctx.now);
    assert_eq!(pending.len(), 1, "only the untouched proposal stays pending");
    assert_eq!(pending[0].id, keep);
}

// ── Own scenarios ───────────────────────────────────────────────────────────

#[test]
fn dispute_split_proposal_pays_shares() {
    let mut ctx = setup(1, 1);
    let s0 = ctx.signer(0);
    let creator = 10;
    let assignee = 11;
    ctx.mint(TOKEN, creator, 1000);
    let (task_id, pull) = ctx.c.create_task(creator, "t".to_string(), "d".to_string(), 1000, Vec::new(), ctx.now).unwrap();
    let snapshot = ctx.c.clone();
    assert!(ctx.settle(snapshot, &pull));
    ctx.c.assign_task(assignee, task_id, ctx.now).unwrap();
    ctx.c.dispute_task(creator, task_id, ctx.now).unwrap();
    let id = ctx.propose(s0, MultisigAction::ResolveDisputeSplit(task_id, vec![creator, assignee], vec![2500, 7500])).unwrap();
    assert_eq!(ctx.vote(s0, id).unwrap(), MultisigProposalStatus::Executed);
    assert_eq!(ctx.balance(TOKEN, creator), 250);
    assert_eq!(ctx.balance(TOKEN, assignee), 750);
    assert_eq!(ctx.balance(TOKEN, CONTRACT), 0);
    let bad = ctx.propose(s0, MultisigAction::ResolveDisputeSplit(task_id, vec![creator], vec![9999]));
    assert_eq!(bad, Err(ContractError::InvalidAction));
}

#[test]
fn multisig_calls_before_configuration_are_refused() {
    let mut c = TaskManagerContract::new(CONTRACT);
    c.initialize(ADMIN, 100, TOKEN, FEE_RECIPIENT).unwrap();
    assert_eq!(
        c.multisig_propose(200, "x".to_string(), MultisigAction::SetFeeRecipient(4), START),
        Err(ContractError::NotSigner)
    );
    assert_eq!(c.get_multisig_approval_count(1), 0);
    assert!(!c.has_approved_proposal(1, 200));
}
