//! Task-management contract model: tasks with escrowed rewards, milestones,
//! reputation, profiles, governance, an admin multisig, pausing, a
//! multi-stablecoin vault with Merkle payroll, a swap router, a vesting
//! treasury, timelocked upgrades, milestone vesting vaults, a TWAP oracle and
//! zero-knowledge identity attestations. Every entry point is a verified
//! state transition; token movements are returned as `Transfer`s for the
//! ledger to perform.

pub mod types;
pub mod safety_models;
pub mod reputation;
pub mod escrow;
pub mod pausable;
pub mod storage;
pub mod treasury;
pub mod merkle;
pub mod lifecycle;
pub mod vesting_vault;
pub mod twap_oracle;
pub mod swap_router;
pub mod zkp_attestation;
pub mod multisig;
pub mod governance;
pub mod access_control;
pub mod upgrade;
pub mod user_profile;
pub mod vault;
pub mod laws;

use vstd::prelude::*;
use crate::types::{Address, ContractError, Transfer, MAX_PLATFORM_FEE_BPS, fits_i128, trunc_div};
use crate::escrow::{EscrowLedger, EscrowStats, Milestone};
use crate::reputation::{ReputationBook, ReputationEventType, event_points};
use crate::pausable::{PauseAction, PauseRegistry};
use crate::storage::{ContractStatistics, TieredStore};
use crate::vesting_vault::VestingVaultBook;
use crate::multisig::MultisigLedger;
use crate::swap_router::SwapRouter;
use crate::treasury::Treasury;
use crate::governance::Governance;
use crate::access_control::AccessControl;
use crate::upgrade::UpgradeManager;
use crate::user_profile::ProfileBook;
use crate::vault::Vault;

verus! {

#[derive(Clone, Copy, Debug, PartialEq, Eq, Structural)]
pub enum TaskStatus {
    Open,
    InProgress,
    Completed,
    Verified,
    Cancelled,
    Disputed,
    Resolved,
}

#[derive(Clone, Debug)]
pub struct Task {
    pub id: u32,
    pub title: String,
    pub description: String,
    pub reward: i128,
    pub assignee: Option<Address>,
    pub status: TaskStatus,
    pub created_by: Address,
    pub tags: Vec<String>,
    pub category_id: Option<u32>,
    pub deadline: Option<u64>,
    pub created_at: u64,
    pub updated_at: u64,
}

/// A task together with its milestones.
#[derive(Clone, Debug)]
pub struct TaskWithMilestones {
    pub task: Task,
    pub milestones: Vec<Milestone>,
    pub total_milestone_amount: i128,
}

/// Ledger storage keys of the contract's own records.
#[derive(Clone, Copy, Debug, PartialEq, Eq, Structural)]
pub enum DataKey {
    Admin,
    PlatformFeeBps,
    TokenContract,
    FeeRecipient,
    Initialized,
    Task(u32),
    TaskCount,
    UserProfile(Address),
    Paused(u32),
    GovernanceConfig,
}

/// What completing a task pays out.
#[derive(Clone, Debug, PartialEq, Eq)]
pub struct Settlement {
    pub payout: i128,
    pub fee: i128,
    pub transfers: Vec<Transfer>,
}

/// Platform fee taken from `reward` at `bps` basis points (truncated).
pub open spec fn fee_for(reward: i128, bps: u32) -> int {
    trunc_div(reward * bps, 10000)
}

/// The whole contract state.
#[derive(Clone)]
pub struct TaskManagerContract {
    pub contract_address: Address,
    pub initialized: bool,
    pub admin: Address,
    pub platform_fee_bps: u32,
    pub token_contract: Address,
    pub fee_recipient: Address,
    pub tasks: Vec<Task>,
    pub escrow: EscrowLedger,
    pub reputation: ReputationBook,
    pub pauses: PauseRegistry,
    pub statistics: ContractStatistics,
    pub store: TieredStore,
    pub vesting: VestingVaultBook,
    pub multisig: MultisigLedger,
    pub router: SwapRouter,
    pub treasury: Treasury,
    pub governance: Governance,
    pub access: AccessControl,
    pub upgrades: UpgradeManager,
    pub profiles: ProfileBook,
    pub vault: Vault,
}

/// Whether a task in `status` still has its reward at stake: open, in
/// progress, submitted or disputed.
pub open spec fn unsettled(status: TaskStatus) -> bool {
    status == TaskStatus::Open || status == TaskStatus::InProgress
        || status == TaskStatus::Completed || status == TaskStatus::Disputed
}

impl TaskManagerContract {
    /// The escrow holds exactly the reward of every unsettled task, nothing
    /// for a settled one, and nothing for an id that names no task.
    pub open spec fn escrow_backs_tasks(&self) -> bool {
        &&& forall|i: int| #![trigger self.tasks@[i]] 0 <= i < self.tasks@.len() ==>
            self.escrow.locked_of((i + 1) as u32) == (if unsettled(self.tasks@[i].status) { self.tasks@[i].reward } else { 0 })
        &&& forall|id: u32| #[trigger] self.escrow.locked_of(id) != 0 ==> 1 <= id <= self.tasks@.len()
    }

    /// The backing survives a step that keeps the locked amounts and every
    /// task's reward and settledness.
    pub(crate) proof fn lemma_backing_kept(o: TaskManagerContract, n: TaskManagerContract)
        requires
            o.escrow_backs_tasks(),
            n.tasks@.len() == o.tasks@.len(),
            forall|i: int| 0 <= i < o.tasks@.len() ==> (#[trigger] n.tasks@[i]).reward == o.tasks@[i].reward
                && unsettled(n.tasks@[i].status) == unsettled(o.tasks@[i].status),
            n.escrow.task_escrow@ == o.escrow.task_escrow@,
        ensures
            n.escrow_backs_tasks(),
    {
        assert forall|i: int| #![trigger n.tasks@[i]] 0 <= i < n.tasks@.len() implies
            n.escrow.locked_of((i + 1) as u32) == (if unsettled(n.tasks@[i].status) { n.tasks@[i].reward } else { 0 }) by {
            assert(o.tasks@[i] == o.tasks@[i]);
        };
        assert forall|id: u32| #[trigger] n.escrow.locked_of(id) != 0 implies 1 <= id <= n.tasks@.len() by {
            assert(o.escrow.locked_of(id) == n.escrow.locked_of(id));
        };
    }

    /// The backing survives settling task `task_id`: its reward leaves
    /// escrow and it becomes settled, every other task as it was.
    pub(crate) proof fn lemma_backing_settled(o: TaskManagerContract, n: TaskManagerContract, task_id: u32)
        requires
            o.escrow_backs_tasks(),
            o.has_task(task_id),
            o.tasks@.len() < u32::MAX,
            unsettled(o.task(task_id).status),
            n.tasks@.len() == o.tasks@.len(),
            forall|i: int| 0 <= i < o.tasks@.len() && i != task_id - 1 ==> (#[trigger] n.tasks@[i]).reward == o.tasks@[i].reward
                && unsettled(n.tasks@[i].status) == unsettled(o.tasks@[i].status),
            !unsettled(n.tasks@[task_id - 1].status),
            n.escrow.task_escrow@ == o.escrow.task_escrow@.insert(task_id, (o.escrow.locked_of(task_id) - o.task(task_id).reward) as i128),
        ensures
            n.escrow_backs_tasks(),
    {
        assert(o.escrow.locked_of(task_id) == o.task(task_id).reward) by {
            assert(o.tasks@[task_id - 1] == o.task(task_id));
        };
        assert forall|i: int| #![trigger n.tasks@[i]] 0 <= i < n.tasks@.len() implies
            n.escrow.locked_of((i + 1) as u32) == (if unsettled(n.tasks@[i].status) { n.tasks@[i].reward } else { 0 }) by {
            if i != task_id - 1 {
                assert((i + 1) as u32 != task_id);
                assert(o.tasks@[i] == o.tasks@[i]);
                assert(n.escrow.locked_of((i + 1) as u32) == o.escrow.locked_of((i + 1) as u32));
            }
        };
        assert forall|id: u32| #[trigger] n.escrow.locked_of(id) != 0 implies 1 <= id <= n.tasks@.len() by {
            if id != task_id {
                assert(o.escrow.locked_of(id) == n.escrow.locked_of(id));
            }
        };
    }

    /// The backing survives opening a new task whose reward is locked.
    pub(crate) proof fn lemma_backing_created(o: TaskManagerContract, n: TaskManagerContract)
        requires
            o.escrow_backs_tasks(),
            o.tasks@.len() + 1 < u32::MAX,
            n.tasks@.len() == o.tasks@.len() + 1,
            forall|i: int| 0 <= i < o.tasks@.len() ==> (#[trigger] n.tasks@[i]) == o.tasks@[i],
            unsettled(n.tasks@[o.tasks@.len() as int].status),
            n.escrow.task_escrow@ == o.escrow.task_escrow@.insert((o.tasks@.len() + 1) as u32,
                (o.escrow.locked_of((o.tasks@.len() + 1) as u32) + n.tasks@[o.tasks@.len() as int].reward) as i128),
            fits_i128(o.escrow.locked_of((o.tasks@.len() + 1) as u32) + n.tasks@[o.tasks@.len() as int].reward),
        ensures
            n.escrow_backs_tasks(),
    {
        let id = (o.tasks@.len() + 1) as u32;
        assert(o.escrow.locked_of(id) == 0);
        assert forall|i: int| #![trigger n.tasks@[i]] 0 <= i < n.tasks@.len() implies
            n.escrow.locked_of((i + 1) as u32) == (if unsettled(n.tasks@[i].status) { n.tasks@[i].reward } else { 0 }) by {
            if i < o.tasks@.len() {
                assert(o.tasks@[i] == n.tasks@[i]);
            }
        };
        assert forall|k: u32| #[trigger] n.escrow.locked_of(k) != 0 implies 1 <= k <= n.tasks@.len() by {
            if k != id {
                assert(o.escrow.locked_of(k) == n.escrow.locked_of(k));
            }
        };
    }

    /// Invariants every reachable state keeps.
    pub open spec fn wf(&self) -> bool {
        &&& self.tasks@.len() < u32::MAX
        &&& forall|i: int| 0 <= i < self.tasks@.len() ==> (#[trigger] self.tasks@[i]).id == i + 1
        &&& self.escrow_backs_tasks()
        &&& self.initialized ==> self.platform_fee_bps <= MAX_PLATFORM_FEE_BPS
        &&& !self.initialized ==> self.tasks@.len() == 0
        &&& self.escrow.wf()
        &&& self.reputation.wf()
        &&& self.pauses.wf()
        &&& self.store.wf()
        &&& self.vesting.wf()
        &&& self.multisig.wf()
        &&& self.treasury.wf()
        &&& self.governance.wf()
        &&& self.upgrades.wf()
        &&& self.vault.wf()
    }

    /// Whether task `id` exists.
    pub open spec fn has_task(&self, id: u32) -> bool {
        1 <= id <= self.tasks@.len()
    }

    /// Task `id`.
    pub open spec fn task(&self, id: u32) -> Task {
        self.tasks@[id - 1]
    }

    /// The admin check: `NotInitialized` before initialization, `NotAdmin`
    /// for anybody else.
    pub open spec fn admin_outcome(&self, caller: Address) -> Result<(), ContractError> {
        if !self.initialized {
            Err(ContractError::NotInitialized)
        } else if caller != self.admin {
            Err(ContractError::NotAdmin)
        } else {
            Ok(())
        }
    }

    /// Everything except tasks, escrow, reputation and statistics is as in `other`.
    pub open spec fn same_config(&self, other: &Self) -> bool {
        &&& self.contract_address == other.contract_address
        &&& self.initialized == other.initialized
        &&& self.admin == other.admin
        &&& self.platform_fee_bps == other.platform_fee_bps
        &&& self.token_contract == other.token_contract
        &&& self.fee_recipient == other.fee_recipient
        &&& self.pauses == other.pauses
        &&& self.store == other.store
        &&& self.vesting == other.vesting
        &&& self.multisig == other.multisig
        &&& self.router == other.router
        &&& self.treasury == other.treasury
        &&& self.governance == other.governance
        &&& self.access == other.access
        &&& self.upgrades == other.upgrades
        &&& self.profiles == other.profiles
        &&& self.vault == other.vault
    }

    /// The state of a contract just deployed at `contract_address`: not
    /// initialized, no admin, fee, token or fee recipient, no tasks, every
    /// book empty, nothing paused and the statistics at zero.
    pub open spec fn is_fresh(&self, contract_address: Address) -> bool {
        &&& self.contract_address == contract_address
        &&& !self.initialized
        &&& self.admin == 0 && self.platform_fee_bps == 0 && self.token_contract == 0 && self.fee_recipient == 0
        &&& self.tasks@.len() == 0
        &&& self.escrow.milestones@ == Map::<u32, Vec<Milestone>>::empty()
        &&& self.escrow.task_escrow@ == Map::<u32, i128>::empty()
        &&& self.escrow.stats == crate::escrow::zero_stats()
        &&& self.reputation.points@ == Map::<u64, i32>::empty()
        &&& self.reputation.event_counts@ == Map::<u64, u32>::empty()
        &&& self.reputation.tiers is None
        &&& self.reputation.leaderboard@.len() == 0
        &&& (forall|a: PauseAction| self.pauses.state_of(a) == crate::pausable::PauseState::NotPaused)
        &&& self.pauses.user_pauses@.len() == 0
        &&& self.statistics == crate::storage::zero_statistics()
        &&& self.store.categories@.len() == 0
        &&& self.store.active_assignments@ == Map::<u32, crate::storage::ActiveAssignment>::empty()
        &&& self.store.sessions@ == Map::<u64, crate::storage::SessionData>::empty()
        &&& self.store.submissions@ == Map::<u32, String>::empty()
        &&& self.vesting.vaults@.len() == 0
        &&& self.multisig.config is None
        &&& self.multisig.proposals@.len() == 0
        &&& self.router.config is None
        &&& self.router.approved@.len() == 0
        &&& self.router.stats == (crate::swap_router::SwapRouterStats { total_conversions: 0, total_refunds: 0, total_stablecoin_out: 0 })
        &&& self.router.balances@ == Map::<u128, i128>::empty()
        &&& self.treasury.token is None
        &&& self.treasury.balance == 0
        &&& self.treasury.allocated_total == 0
        &&& self.treasury.schedules@.len() == 0
        &&& self.governance.config is None
        &&& self.governance.proposals@.len() == 0
        &&& self.governance.votes@.len() == 0
        &&& self.access.roles@ == Map::<Address, crate::access_control::RoleData>::empty()
        &&& (forall|role: crate::access_control::Role| self.access.members_of(role).len() == 0)
        &&& self.upgrades.pending is None
        &&& self.upgrades.timelock_seconds is None
        &&& self.upgrades.history@.len() == 0
        &&& self.profiles.profiles@ == Map::<Address, crate::user_profile::UserProfile>::empty()
        &&& self.vault.supported@.len() == 0
        &&& self.vault.totals@ == Map::<Address, i128>::empty()
        &&& self.vault.credits@ == Map::<u128, i128>::empty()
        &&& self.vault.payroll_roots@ == Map::<u32, [u8; 32]>::empty()
        &&& self.vault.payroll_claimed@ == Map::<u128, bool>::empty()
    }

    /// A fresh, uninitialized contract deployed at `contract_address`.
    pub fn new(contract_address: Address) -> (r: Self)
        ensures
            r.wf(),
            r.is_fresh(contract_address),
    {
        TaskManagerContract {
            contract_address,
            initialized: false,
            admin: 0,
            platform_fee_bps: 0,
            token_contract: 0,
            fee_recipient: 0,
            tasks: Vec::new(),
            escrow: EscrowLedger::new(),
            reputation: ReputationBook::new(),
            pauses: PauseRegistry::new(),
            statistics: crate::storage::empty_statistics(),
            store: TieredStore::new(),
            vesting: VestingVaultBook::new(),
            multisig: MultisigLedger::new(),
            router: SwapRouter::new(),
            treasury: Treasury::new(),
            governance: Governance::new(),
            access: AccessControl::new(),
            upgrades: UpgradeManager::new(),
            profiles: ProfileBook::new(),
            vault: Vault::new(),
        }
    }

    /// Check that `caller` is the admin.
    pub fn require_admin(&self, caller: Address) -> (r: Result<(), ContractError>)
        ensures
            r == self.admin_outcome(caller),
    {
        if !self.initialized {
            Err(ContractError::NotInitialized)
        } else if caller != self.admin {
            Err(ContractError::NotAdmin)
        } else {
            Ok(())
        }
    }

    /// Set up the contract once: admin, platform fee (at most 10%), payment
    /// token and fee recipient; installs the reputation tiers.
    pub fn initialize(
        &mut self,
        admin: Address,
        platform_fee_bps: u32,
        token_contract: Address,
        fee_recipient: Address,
    ) -> (r: Result<(), ContractError>)
        requires
            old(self).wf(),
        ensures
            final(self).wf(),
            old(self).initialized ==> r == Err::<(), ContractError>(ContractError::AlreadyInitialized),
            !old(self).initialized && platform_fee_bps > MAX_PLATFORM_FEE_BPS ==> r == Err::<(), ContractError>(ContractError::FeeTooHigh),
            r is Ok <==> !old(self).initialized && platform_fee_bps <= MAX_PLATFORM_FEE_BPS,
            r is Err ==> *final(self) == *old(self),
            r is Ok ==> {
                &&& final(self).initialized
                &&& final(self).admin == admin
                &&& final(self).platform_fee_bps == platform_fee_bps
                &&& final(self).token_contract == token_contract
                &&& final(self).fee_recipient == fee_recipient
                &&& final(self).contract_address == old(self).contract_address
                &&& final(self).tasks == old(self).tasks
                &&& final(self).escrow == old(self).escrow
                &&& final(self).reputation.points == old(self).reputation.points
                &&& final(self).reputation.event_counts == old(self).reputation.event_counts
                &&& final(self).reputation.leaderboard == old(self).reputation.leaderboard
                &&& final(self).reputation.tiers matches Some(t) && crate::reputation::is_default_tier_table(t@)
                &&& final(self).pauses == old(self).pauses
                &&& final(self).statistics == old(self).statistics
                &&& final(self).store == old(self).store
                &&& final(self).vesting == old(self).vesting
                &&& final(self).multisig == old(self).multisig
                &&& final(self).router == old(self).router
                &&& final(self).treasury == old(self).treasury
                &&& final(self).governance == old(self).governance
                &&& final(self).access == old(self).access
                &&& final(self).upgrades == old(self).upgrades
                &&& final(self).profiles == old(self).profiles
                &&& final(self).vault == old(self).vault
            },
    {
        if self.initialized {
            return Err(ContractError::AlreadyInitialized);
        }
        if platform_fee_bps > MAX_PLATFORM_FEE_BPS {
            return Err(ContractError::FeeTooHigh);
        }
        self.admin = admin;
        self.platform_fee_bps = platform_fee_bps;
        self.token_contract = token_contract;
        self.fee_recipient = fee_recipient;
        self.initialized = true;
        self.reputation.init_reputation_tiers();
        Ok(())
    }

    /// Index of task `task_id`, or `TaskNotFound`.
    fn task_index(&self, task_id: u32) -> (r: Result<usize, ContractError>)
        ensures
            r is Err <==> !self.has_task(task_id),
            r is Err ==> r == Err::<usize, ContractError>(ContractError::TaskNotFound),
            r matches Ok(i) ==> i == task_id - 1 && i < self.tasks@.len(),
    {
        if task_id == 0 || task_id as usize > self.tasks.len() {
            Err(ContractError::TaskNotFound)
        } else {
            Ok((task_id - 1) as usize)
        }
    }

    /// Task `task_id`, if it exists.
    pub fn get_task(&self, task_id: u32) -> (r: Option<&Task>)
        ensures
            r is None <==> !self.has_task(task_id),
            r matches Some(t) ==> *t == self.task(task_id),
    {
        match self.task_index(task_id) {
            Ok(i) => Some(&self.tasks[i]),
            Err(_) => None,
        }
    }

    /// Number of tasks created so far.
    pub fn task_count(&self) -> (r: u32)
        requires
            self.wf(),
        ensures
            r == self.tasks@.len(),
    {
        self.tasks.len() as u32
    }

    /// Aggregate escrow statistics.
    pub fn get_escrow_stats(&self) -> (r: EscrowStats)
        ensures
            r == self.escrow.stats,
    {
        self.escrow.get_escrow_stats()
    }

    /// Global contract statistics.
    pub fn get_statistics(&self) -> (r: ContractStatistics)
        ensures
            r == self.statistics,
    {
        self.statistics
    }

    /// Open a task whose `reward` the creator escrows with the contract.
    /// Returns the new task id and the deposit to perform.
    pub fn create_task(
        &mut self,
        creator: Address,
        title: String,
        description: String,
        reward: i128,
        tags: Vec<String>,
        now: u64,
    ) -> (r: Result<(u32, Vec<Transfer>), ContractError>)
        requires
            old(self).wf(),
        ensures
            final(self).wf(),
            old(self).pauses.paused_for(PauseAction::CreateTask, Some(creator)) ==> r == Err::<(u32, Vec<Transfer>), ContractError>(ContractError::ActionPaused),
            !old(self).pauses.paused_for(PauseAction::CreateTask, Some(creator)) && reward <= 0
                ==> r == Err::<(u32, Vec<Transfer>), ContractError>(ContractError::InvalidAmount),
            !old(self).pauses.paused_for(PauseAction::CreateTask, Some(creator)) && reward > 0 && !old(self).initialized
                ==> r == Err::<(u32, Vec<Transfer>), ContractError>(ContractError::NotInitialized),
            r is Ok ==> !old(self).pauses.paused_for(PauseAction::CreateTask, Some(creator)) && reward > 0 && old(self).initialized,
            !old(self).pauses.paused_for(PauseAction::CreateTask, Some(creator)) && reward > 0 && old(self).initialized
                ==> (r is Ok <==> {
                    &&& old(self).tasks@.len() + 1 < u32::MAX
                    &&& old(self).statistics.total_tasks_created + 1 <= u32::MAX
                    &&& fits_i128(old(self).statistics.total_value_locked + reward)
                    &&& old(self).escrow.lock_outcome((old(self).tasks@.len() + 1) as u32, reward) is Ok
                }),
            r is Err ==> *final(self) == *old(self),
            r matches Ok((id, transfers)) ==> {
                let t = final(self).task(id);
                &&& id == old(self).tasks@.len() + 1
                &&& final(self).tasks@.len() == id
                &&& final(self).tasks@.subrange(0, id - 1) == old(self).tasks@
                &&& t.reward == reward && t.status == TaskStatus::Open && t.assignee is None
                &&& t.created_by == creator && t.title@ == title@ && t.description@ == description@
                &&& t.created_at == now && t.updated_at == now && t.tags == tags
                &&& t.category_id is None && t.deadline is None
                &&& transfers@ == seq![Transfer { token: old(self).token_contract, from: creator, to: old(self).contract_address, amount: reward }]
                &&& final(self).escrow.locked_of(id) == old(self).escrow.locked_of(id) + reward
                &&& Some(final(self).escrow.stats) == crate::escrow::stats_after(old(self).escrow.stats, reward, 0, 0, 1, 0)
                &&& crate::storage::statistics_moved(old(self).statistics, final(self).statistics, 1, 0, 0, 0, reward as int, 0, 0)
                &&& final(self).same_config(old(self))
                &&& final(self).reputation == old(self).reputation
                &&& final(self).escrow.milestones == old(self).escrow.milestones
            },
    {
        match self.pauses.require_not_paused(PauseAction::CreateTask, Some(creator)) {
            Ok(()) => {},
            Err(e) => return Err(e),
        }
        if reward <= 0 {
            return Err(ContractError::InvalidAmount);
        }
        if !self.initialized {
            return Err(ContractError::NotInitialized);
        }
        if self.tasks.len() >= u32::MAX as usize - 1 {
            return Err(ContractError::ArithmeticOverflow);
        }
        let task_id = (self.tasks.len() + 1) as u32;
        let created = match self.statistics.total_tasks_created.checked_add(1) {
            Some(v) => v,
            None => return Err(ContractError::ArithmeticOverflow),
        };
        let locked = match self.statistics.total_value_locked.checked_add(reward) {
            Some(v) => v,
            None => return Err(ContractError::ArithmeticOverflow),
        };
        match self.escrow.lock_escrow(task_id, reward) {
            Ok(()) => {},
            Err(e) => return Err(e),
        }
        let ghost before = self.tasks@;
        self.tasks.push(Task {
            id: task_id,
            title,
            description,
            reward,
            assignee: None,
            status: TaskStatus::Open,
            created_by: creator,
            tags,
            category_id: None,
            deadline: None,
            created_at: now,
            updated_at: now,
        });
        self.statistics.total_tasks_created = created;
        self.statistics.total_value_locked = locked;
        let mut transfers: Vec<Transfer> = Vec::new();
        transfers.push(Transfer { token: self.token_contract, from: creator, to: self.contract_address, amount: reward });
        proof {
            assert(self.tasks@.subrange(0, task_id - 1) =~= before);
            assert forall|i: int| 0 <= i < self.tasks@.len() implies (#[trigger] self.tasks@[i]).id == i + 1 by {
                if i < before.len() {
                    assert(self.tasks@[i] == before[i]);
                }
            };
            assert forall|i: int| 0 <= i < old(self).tasks@.len() implies (#[trigger] self.tasks@[i]) == old(self).tasks@[i] by {
                assert(self.tasks@[i] == before[i]);
            };
            TaskManagerContract::lemma_backing_created(*old(self), *self);
        }
        Ok((task_id, transfers))
    }

    /// Assign an open task to `assignee`.
    pub fn assign_task(&mut self, assignee: Address, task_id: u32, now: u64) -> (r: Result<(), ContractError>)
        requires
            old(self).wf(),
        ensures
            final(self).wf(),
            old(self).pauses.paused_for(PauseAction::AssignTask, Some(assignee)) ==> r == Err::<(), ContractError>(ContractError::ActionPaused),
            !old(self).pauses.paused_for(PauseAction::AssignTask, Some(assignee)) && !old(self).has_task(task_id)
                ==> r == Err::<(), ContractError>(ContractError::TaskNotFound),
            !old(self).pauses.paused_for(PauseAction::AssignTask, Some(assignee)) && old(self).has_task(task_id)
                ==> (r is Ok <==> old(self).task(task_id).status == TaskStatus::Open),
            r is Err && old(self).has_task(task_id) && !old(self).pauses.paused_for(PauseAction::AssignTask, Some(assignee))
                ==> r == Err::<(), ContractError>(ContractError::TaskNotOpen),
            r is Err ==> *final(self) == *old(self),
            r is Ok ==> final(self).tasks@ == old(self).tasks@.update(task_id - 1, Task {
                assignee: Some(assignee),
                status: TaskStatus::InProgress,
                updated_at: now,
                ..old(self).task(task_id)
            }),
            r is Ok ==> final(self).same_config(old(self)) && final(self).escrow == old(self).escrow
                && final(self).reputation == old(self).reputation && final(self).statistics == old(self).statistics,
    {
        match self.pauses.require_not_paused(PauseAction::AssignTask, Some(assignee)) {
            Ok(()) => {},
            Err(e) => return Err(e),
        }
        let idx = match self.task_index(task_id) {
            Ok(i) => i,
            Err(e) => return Err(e),
        };
        if self.tasks[idx].status != TaskStatus::Open {
            return Err(ContractError::TaskNotOpen);
        }
        self.tasks[idx].assignee = Some(assignee);
        self.tasks[idx].status = TaskStatus::InProgress;
        self.tasks[idx].updated_at = now;
        proof {
            assert forall|i: int| 0 <= i < self.tasks@.len() implies (#[trigger] self.tasks@[i]).id == i + 1 by {
                if i != idx {
                    assert(self.tasks@[i] == old(self).tasks@[i]);
                }
            };
        }
        Ok(())
    }

    /// The assignee hands in the work of a task in progress.
    pub fn submit_work(&mut self, assignee: Address, task_id: u32, delivery_url: String, now: u64) -> (r: Result<(), ContractError>)
        requires
            old(self).wf(),
        ensures
            final(self).wf(),
            old(self).pauses.paused_for(PauseAction::SubmitWork, Some(assignee)) ==> r == Err::<(), ContractError>(ContractError::ActionPaused),
            !old(self).pauses.paused_for(PauseAction::SubmitWork, Some(assignee)) && !old(self).has_task(task_id)
                ==> r == Err::<(), ContractError>(ContractError::TaskNotFound),
            !old(self).pauses.paused_for(PauseAction::SubmitWork, Some(assignee)) && old(self).has_task(task_id)
                && old(self).task(task_id).assignee != Some(assignee)
                ==> r == Err::<(), ContractError>(ContractError::NotAssignee),
            !old(self).pauses.paused_for(PauseAction::SubmitWork, Some(assignee)) && old(self).has_task(task_id)
                && old(self).task(task_id).assignee == Some(assignee)
                ==> (r is Ok <==> old(self).task(task_id).status == TaskStatus::InProgress),
            r is Err ==> *final(self) == *old(self),
            r is Ok ==> final(self).tasks@ == old(self).tasks@.update(task_id - 1, Task {
                status: TaskStatus::Completed,
                updated_at: now,
                ..old(self).task(task_id)
            }),
            r is Ok ==> final(self).same_config(old(self)) && final(self).escrow == old(self).escrow
                && final(self).reputation == old(self).reputation && final(self).statistics == old(self).statistics,
    {
        match self.pauses.require_not_paused(PauseAction::SubmitWork, Some(assignee)) {
            Ok(()) => {},
            Err(e) => return Err(e),
        }
        let idx = match self.task_index(task_id) {
            Ok(i) => i,
            Err(e) => return Err(e),
        };
        if self.tasks[idx].assignee != Some(assignee) {
            return Err(ContractError::NotAssignee);
        }
        if self.tasks[idx].status != TaskStatus::InProgress {
            return Err(ContractError::TaskNotInProgress);
        }
        self.tasks[idx].status = TaskStatus::Completed;
        self.tasks[idx].updated_at = now;
        proof {
            assert forall|i: int| 0 <= i < self.tasks@.len() implies (#[trigger] self.tasks@[i]).id == i + 1 by {
                if i != idx {
                    assert(self.tasks@[i] == old(self).tasks@[i]);
                }
            };
        }
        Ok(())
    }
}

} // verus!
