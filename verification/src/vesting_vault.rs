//! Milestone vesting vaults: an approved milestone's payout stays locked for
//! a safety window in which the task's creator or the admin may dispute it.
//! After the window the beneficiary (or the admin) releases it; a disputed
//! vault is refunded to the task's creator by the admin.

use vstd::prelude::*;
use crate::types::{Address, ContractError, Transfer};
use crate::escrow::{EscrowLedger, MilestoneStatus};
use crate::TaskManagerContract;
use crate::reputation::{ReputationEventType, event_points};

verus! {

/// Shortest vesting window, in seconds (one hour).
pub const MIN_VESTING_PERIOD: u64 = 3600;

/// Longest vesting window, in seconds (thirty days).
pub const MAX_VESTING_PERIOD: u64 = 2_592_000;

#[derive(Clone, Copy, Debug, PartialEq, Eq, Structural)]
pub enum VestingVaultStatus {
    Active,
    Disputed,
    Released,
    Refunded,
}

/// A time-locked milestone payout. Its id is its 1-based creation rank.
#[derive(Clone, Debug)]
pub struct VestingVault {
    pub id: u32,
    pub task_id: u32,
    pub milestone_id: u32,
    pub beneficiary: Address,
    pub amount: i128,
    pub token: Address,
    pub created_at: u64,
    pub vesting_end: u64,
    pub status: VestingVaultStatus,
    pub disputed_by: Option<Address>,
    pub dispute_reason: Option<String>,
}

/// Ledger storage keys of the vault records.
#[derive(Clone, Copy, Debug, PartialEq, Eq, Structural)]
pub enum VestingVaultKey {
    Vault(u32),
    VaultCount,
    TaskVaults(u32),
    BeneficiaryVaults(Address),
    MilestoneVault(u32, u32),
}

/// Ids of the vaults of `vaults` that belong to `task_id`, in creation order.
pub open spec fn task_vault_ids(vaults: Seq<VestingVault>, task_id: u32) -> Seq<u32>
    decreases vaults.len(),
{
    if vaults.len() == 0 {
        Seq::empty()
    } else {
        let rest = task_vault_ids(vaults.drop_last(), task_id);
        if vaults.last().task_id == task_id { rest.push(vaults.last().id) } else { rest }
    }
}

/// Ids of the vaults of `vaults` paying `beneficiary`, in creation order.
pub open spec fn beneficiary_vault_ids(vaults: Seq<VestingVault>, beneficiary: Address) -> Seq<u32>
    decreases vaults.len(),
{
    if vaults.len() == 0 {
        Seq::empty()
    } else {
        let rest = beneficiary_vault_ids(vaults.drop_last(), beneficiary);
        if vaults.last().beneficiary == beneficiary { rest.push(vaults.last().id) } else { rest }
    }
}

/// The admin-or-creator check of disputes: `NotInitialized` without an
/// admin, `TaskNotFound` without the task, else the caller must be one of them.
pub open spec fn admin_or_creator_outcome(caller: Address, admin: Option<Address>, task_creator: Option<Address>) -> Result<(), ContractError> {
    if admin is None {
        Err(ContractError::NotInitialized)
    } else if task_creator is None {
        Err(ContractError::TaskNotFound)
    } else if caller != admin->0 && caller != task_creator->0 {
        Err(ContractError::NotAuthorized)
    } else {
        Ok(())
    }
}

/// All vesting vaults, in creation order.
#[derive(Clone)]
pub struct VestingVaultBook {
    pub vaults: Vec<VestingVault>,
}

impl VestingVaultBook {
    /// Ids are creation ranks and no milestone has two vaults.
    pub open spec fn wf(&self) -> bool {
        &&& self.vaults@.len() < u32::MAX
        &&& forall|i: int| 0 <= i < self.vaults@.len() ==> (#[trigger] self.vaults@[i]).id == i + 1
        &&& forall|i: int, j: int| 0 <= i < j < self.vaults@.len() ==>
            !(#[trigger] self.vaults@[i].task_id == #[trigger] self.vaults@[j].task_id
                && self.vaults@[i].milestone_id == self.vaults@[j].milestone_id)
    }

    pub open spec fn has_vault(&self, id: u32) -> bool {
        1 <= id <= self.vaults@.len()
    }

    pub open spec fn vault(&self, id: u32) -> VestingVault {
        self.vaults@[id - 1]
    }

    /// Whether milestone `milestone_id` of `task_id` already has a vault.
    pub open spec fn milestone_has_vault(&self, task_id: u32, milestone_id: u32) -> bool {
        exists|i: int| 0 <= i < self.vaults@.len() && (#[trigger] self.vaults@[i]).task_id == task_id
            && self.vaults@[i].milestone_id == milestone_id
    }

    /// What creating a vault gives, in the order the checks are made.
    pub open spec fn create_outcome(&self, escrow: &EscrowLedger, task_id: u32, milestone_id: u32, amount: i128, vesting_period: u64) -> Result<(), ContractError> {
        if amount <= 0 {
            Err(ContractError::InvalidAmount)
        } else if vesting_period < MIN_VESTING_PERIOD {
            Err(ContractError::VestingPeriodTooShort)
        } else if vesting_period > MAX_VESTING_PERIOD {
            Err(ContractError::VestingPeriodTooLong)
        } else if !escrow.has_milestone(task_id, milestone_id) {
            Err(ContractError::MilestoneNotFound)
        } else if escrow.milestone(task_id, milestone_id).status != MilestoneStatus::Approved {
            Err(ContractError::MilestoneNotApproved)
        } else if self.milestone_has_vault(task_id, milestone_id) {
            Err(ContractError::VaultExists)
        } else if escrow.locked_of(task_id) < amount {
            Err(ContractError::InsufficientEscrow)
        } else if self.vaults@.len() + 1 >= u32::MAX {
            Err(ContractError::ArithmeticOverflow)
        } else {
            Ok(())
        }
    }

    pub fn new() -> (r: Self)
        ensures
            r.wf(),
            r.vaults@.len() == 0,
    {
        VestingVaultBook { vaults: Vec::new() }
    }

    /// Whether milestone `milestone_id` of `task_id` already has a vault.
    fn find_milestone_vault(&self, task_id: u32, milestone_id: u32) -> (r: Option<u32>)
        requires
            self.wf(),
        ensures
            r is None <==> !self.milestone_has_vault(task_id, milestone_id),
            r matches Some(id) ==> self.has_vault(id) && self.vault(id).task_id == task_id
                && self.vault(id).milestone_id == milestone_id,
    {
        let mut i: usize = 0;
        while i < self.vaults.len()
            invariant
                self.wf(),
                0 <= i <= self.vaults@.len(),
                forall|k: int| 0 <= k < i ==> !((#[trigger] self.vaults@[k]).task_id == task_id
                    && self.vaults@[k].milestone_id == milestone_id),
            decreases self.vaults@.len() - i,
        {
            if self.vaults[i].task_id == task_id && self.vaults[i].milestone_id == milestone_id {
                return Some(self.vaults[i].id);
            }
            i = i + 1;
        }
        None
    }

    /// Check that a vault can be created, without creating it.
    pub fn check_create(&self, escrow: &EscrowLedger, task_id: u32, milestone_id: u32, amount: i128, vesting_period: u64) -> (r: Result<(), ContractError>)
        requires
            self.wf(),
        ensures
            r == self.create_outcome(escrow, task_id, milestone_id, amount, vesting_period),
    {
        if amount <= 0 {
            return Err(ContractError::InvalidAmount);
        }
        if vesting_period < MIN_VESTING_PERIOD {
            return Err(ContractError::VestingPeriodTooShort);
        }
        if vesting_period > MAX_VESTING_PERIOD {
            return Err(ContractError::VestingPeriodTooLong);
        }
        let status = match escrow.get_milestone(task_id, milestone_id) {
            Some(m) => m.status,
            None => return Err(ContractError::MilestoneNotFound),
        };
        if status != MilestoneStatus::Approved {
            return Err(ContractError::MilestoneNotApproved);
        }
        if self.find_milestone_vault(task_id, milestone_id).is_some() {
            return Err(ContractError::VaultExists);
        }
        if escrow.get_task_escrow(task_id) < amount {
            return Err(ContractError::InsufficientEscrow);
        }
        if self.vaults.len() >= (u32::MAX - 1) as usize {
            return Err(ContractError::ArithmeticOverflow);
        }
        Ok(())
    }

    /// Lock `amount` of an approved milestone's payout for `vesting_period`
    /// seconds from `now`. The funds stay in the contract; nothing moves.
    pub fn create_vesting_vault(
        &mut self,
        escrow: &EscrowLedger,
        task_id: u32,
        milestone_id: u32,
        beneficiary: Address,
        amount: i128,
        token: Address,
        vesting_period: u64,
        now: u64,
    ) -> (r: Result<u32, ContractError>)
        requires
            old(self).wf(),
            now + vesting_period <= u64::MAX,
        ensures
            final(self).wf(),
            match old(self).create_outcome(escrow, task_id, milestone_id, amount, vesting_period) {
                Err(e) => r == Err::<u32, ContractError>(e),
                Ok(()) => r == Ok::<u32, ContractError>((old(self).vaults@.len() + 1) as u32),
            },
            r is Err ==> *final(self) == *old(self),
            r matches Ok(id) ==> final(self).vaults@ == old(self).vaults@.push(VestingVault {
                id,
                task_id,
                milestone_id,
                beneficiary,
                amount,
                token,
                created_at: now,
                vesting_end: (now + vesting_period) as u64,
                status: VestingVaultStatus::Active,
                disputed_by: None,
                dispute_reason: None,
            }),
    {
        match self.check_create(escrow, task_id, milestone_id, amount, vesting_period) {
            Ok(()) => {},
            Err(e) => return Err(e),
        }
        let vault_id = (self.vaults.len() + 1) as u32;
        let vault = VestingVault {
            id: vault_id,
            task_id,
            milestone_id,
            beneficiary,
            amount,
            token,
            created_at: now,
            vesting_end: now + vesting_period,
            status: VestingVaultStatus::Active,
            disputed_by: None,
            dispute_reason: None,
        };
        self.vaults.push(vault);
        proof {
            let n = old(self).vaults@.len() as int;
            assert forall|i: int, j: int| 0 <= i < j < self.vaults@.len() implies
                !(#[trigger] self.vaults@[i].task_id == #[trigger] self.vaults@[j].task_id
                    && self.vaults@[i].milestone_id == self.vaults@[j].milestone_id) by {
                if j == n {
                    assert(self.vaults@[i] == old(self).vaults@[i]);
                }
            };
        }
        Ok(vault_id)
    }

    /// What disputing vault `vault_id` gives.
    pub open spec fn dispute_outcome(&self, caller: Address, vault_id: u32, admin: Option<Address>, task_creator: Option<Address>, now: u64) -> Result<(), ContractError> {
        if !self.has_vault(vault_id) {
            Err(ContractError::VaultNotFound)
        } else if self.vault(vault_id).status != VestingVaultStatus::Active {
            Err(ContractError::VaultNotActive)
        } else if now >= self.vault(vault_id).vesting_end {
            Err(ContractError::VestingEnded)
        } else {
            admin_or_creator_outcome(caller, admin, task_creator)
        }
    }

    /// Open a dispute on an active vault before its window ends. `admin` is
    /// the contract admin (`None` before initialization) and `task_creator`
    /// the creator of the vault's task (`None` if it does not exist).
    pub fn dispute_vesting_vault(
        &mut self,
        caller: Address,
        vault_id: u32,
        reason: String,
        admin: Option<Address>,
        task_creator: Option<Address>,
        now: u64,
    ) -> (r: Result<(), ContractError>)
        requires
            old(self).wf(),
        ensures
            final(self).wf(),
            r == old(self).dispute_outcome(caller, vault_id, admin, task_creator, now),
            r is Err ==> *final(self) == *old(self),
            r is Ok ==> {
                let v = final(self).vault(vault_id);
                let o = old(self).vault(vault_id);
                &&& final(self).vaults@.len() == old(self).vaults@.len()
                &&& v.status == VestingVaultStatus::Disputed
                &&& v.disputed_by == Some(caller)
                &&& v.dispute_reason matches Some(s) && s@ == reason@
                &&& v.id == o.id && v.task_id == o.task_id && v.milestone_id == o.milestone_id
                &&& v.beneficiary == o.beneficiary && v.amount == o.amount && v.token == o.token
                &&& v.created_at == o.created_at && v.vesting_end == o.vesting_end
                &&& forall|k: u32| k != vault_id && old(self).has_vault(k) ==> final(self).vault(k) == old(self).vault(k)
            },
    {
        if vault_id == 0 || vault_id as usize > self.vaults.len() {
            return Err(ContractError::VaultNotFound);
        }
        let idx = (vault_id - 1) as usize;
        if self.vaults[idx].status != VestingVaultStatus::Active {
            return Err(ContractError::VaultNotActive);
        }
        if now >= self.vaults[idx].vesting_end {
            return Err(ContractError::VestingEnded);
        }
        let admin_addr = match admin {
            Some(a) => a,
            None => return Err(ContractError::NotInitialized),
        };
        let creator = match task_creator {
            Some(c) => c,
            None => return Err(ContractError::TaskNotFound),
        };
        if caller != admin_addr && caller != creator {
            return Err(ContractError::NotAuthorized);
        }
        self.vaults[idx].status = VestingVaultStatus::Disputed;
        self.vaults[idx].disputed_by = Some(caller);
        self.vaults[idx].dispute_reason = Some(reason);
        proof {
            assert forall|i: int, j: int| 0 <= i < j < self.vaults@.len() implies
                !(#[trigger] self.vaults@[i].task_id == #[trigger] self.vaults@[j].task_id
                    && self.vaults@[i].milestone_id == self.vaults@[j].milestone_id) by {
                assert(old(self).vaults@[i].task_id == self.vaults@[i].task_id);
                assert(old(self).vaults@[j].task_id == self.vaults@[j].task_id);
            };
        }
        Ok(())
    }

    /// What releasing vault `vault_id` gives.
    pub open spec fn release_outcome(&self, caller: Address, vault_id: u32, admin: Option<Address>, now: u64) -> Result<(), ContractError> {
        if !self.has_vault(vault_id) {
            Err(ContractError::VaultNotFound)
        } else if self.vault(vault_id).status != VestingVaultStatus::Active {
            Err(ContractError::VaultNotActive)
        } else if now < self.vault(vault_id).vesting_end {
            Err(ContractError::VestingNotEnded)
        } else if admin is None {
            Err(ContractError::NotInitialized)
        } else if caller != self.vault(vault_id).beneficiary && caller != admin->0 {
            Err(ContractError::NotAuthorized)
        } else {
            Ok(())
        }
    }

    /// Pay out an undisputed vault once its window has ended; the
    /// beneficiary or the admin may ask. Returns the amount and the payment
    /// from `contract_address` to the beneficiary.
    pub fn release_vesting_vault(
        &mut self,
        caller: Address,
        vault_id: u32,
        admin: Option<Address>,
        contract_address: Address,
        now: u64,
    ) -> (r: Result<(i128, Transfer), ContractError>)
        requires
            old(self).wf(),
        ensures
            final(self).wf(),
            match old(self).release_outcome(caller, vault_id, admin, now) {
                Err(e) => r == Err::<(i128, Transfer), ContractError>(e),
                Ok(()) => r is Ok,
            },
            r is Err ==> *final(self) == *old(self),
            r matches Ok((amount, t)) ==> {
                let o = old(self).vault(vault_id);
                &&& amount == o.amount
                &&& t == Transfer { token: o.token, from: contract_address, to: o.beneficiary, amount: o.amount }
                &&& final(self).vaults@ == old(self).vaults@.update(vault_id - 1, VestingVault { status: VestingVaultStatus::Released, ..o })
            },
    {
        if vault_id == 0 || vault_id as usize > self.vaults.len() {
            return Err(ContractError::VaultNotFound);
        }
        let idx = (vault_id - 1) as usize;
        if self.vaults[idx].status != VestingVaultStatus::Active {
            return Err(ContractError::VaultNotActive);
        }
        if now < self.vaults[idx].vesting_end {
            return Err(ContractError::VestingNotEnded);
        }
        let admin_addr = match admin {
            Some(a) => a,
            None => return Err(ContractError::NotInitialized),
        };
        if caller != self.vaults[idx].beneficiary && caller != admin_addr {
            return Err(ContractError::NotAuthorized);
        }
        self.vaults[idx].status = VestingVaultStatus::Released;
        let amount = self.vaults[idx].amount;
        let t = Transfer { token: self.vaults[idx].token, from: contract_address, to: self.vaults[idx].beneficiary, amount };
        proof {
            assert forall|i: int, j: int| 0 <= i < j < self.vaults@.len() implies
                !(#[trigger] self.vaults@[i].task_id == #[trigger] self.vaults@[j].task_id
                    && self.vaults@[i].milestone_id == self.vaults@[j].milestone_id) by {
                assert(old(self).vaults@[i].task_id == self.vaults@[i].task_id);
                assert(old(self).vaults@[j].task_id == self.vaults@[j].task_id);
            };
        }
        Ok((amount, t))
    }

    /// What refunding vault `vault_id` gives.
    pub open spec fn refund_outcome(&self, caller: Address, vault_id: u32, admin: Option<Address>, task_creator: Option<Address>) -> Result<(), ContractError> {
        if admin is None {
            Err(ContractError::NotInitialized)
        } else if caller != admin->0 {
            Err(ContractError::NotAdmin)
        } else if !self.has_vault(vault_id) {
            Err(ContractError::VaultNotFound)
        } else if self.vault(vault_id).status != VestingVaultStatus::Disputed {
            Err(ContractError::VaultNotDisputed)
        } else if task_creator is None {
            Err(ContractError::TaskNotFound)
        } else {
            Ok(())
        }
    }

    /// The admin refunds a disputed vault to the task's creator. Returns the
    /// amount and the payment from `contract_address` to the creator.
    pub fn refund_vesting_vault(
        &mut self,
        caller: Address,
        vault_id: u32,
        admin: Option<Address>,
        task_creator: Option<Address>,
        contract_address: Address,
    ) -> (r: Result<(i128, Transfer), ContractError>)
        requires
            old(self).wf(),
        ensures
            final(self).wf(),
            match old(self).refund_outcome(caller, vault_id, admin, task_creator) {
                Err(e) => r == Err::<(i128, Transfer), ContractError>(e),
                Ok(()) => r is Ok,
            },
            r is Err ==> *final(self) == *old(self),
            r matches Ok((amount, t)) ==> {
                let o = old(self).vault(vault_id);
                &&& amount == o.amount
                &&& t == Transfer { token: o.token, from: contract_address, to: task_creator->0, amount: o.amount }
                &&& final(self).vaults@ == old(self).vaults@.update(vault_id - 1, VestingVault { status: VestingVaultStatus::Refunded, ..o })
            },
    {
        let admin_addr = match admin {
            Some(a) => a,
            None => return Err(ContractError::NotInitialized),
        };
        if caller != admin_addr {
            return Err(ContractError::NotAdmin);
        }
        if vault_id == 0 || vault_id as usize > self.vaults.len() {
            return Err(ContractError::VaultNotFound);
        }
        let idx = (vault_id - 1) as usize;
        if self.vaults[idx].status != VestingVaultStatus::Disputed {
            return Err(ContractError::VaultNotDisputed);
        }
        let creator = match task_creator {
            Some(c) => c,
            None => return Err(ContractError::TaskNotFound),
        };
        self.vaults[idx].status = VestingVaultStatus::Refunded;
        let amount = self.vaults[idx].amount;
        let t = Transfer { token: self.vaults[idx].token, from: contract_address, to: creator, amount };
        proof {
            assert forall|i: int, j: int| 0 <= i < j < self.vaults@.len() implies
                !(#[trigger] self.vaults@[i].task_id == #[trigger] self.vaults@[j].task_id
                    && self.vaults@[i].milestone_id == self.vaults@[j].milestone_id) by {
                assert(old(self).vaults@[i].task_id == self.vaults@[i].task_id);
                assert(old(self).vaults@[j].task_id == self.vaults@[j].task_id);
            };
        }
        Ok((amount, t))
    }

    /// Vault `vault_id`, if it exists.
    pub fn get_vault(&self, vault_id: u32) -> (r: Option<&VestingVault>)
        ensures
            r is None <==> !self.has_vault(vault_id),
            r matches Some(v) ==> *v == self.vault(vault_id),
    {
        if vault_id == 0 || vault_id as usize > self.vaults.len() {
            None
        } else {
            Some(&self.vaults[(vault_id - 1) as usize])
        }
    }

    /// Ids of the vaults of task `task_id`, in creation order.
    pub fn get_task_vaults(&self, task_id: u32) -> (r: Vec<u32>)
        ensures
            r@ == task_vault_ids(self.vaults@, task_id),
    {
        let mut out: Vec<u32> = Vec::new();
        let mut i: usize = 0;
        while i < self.vaults.len()
            invariant
                0 <= i <= self.vaults@.len(),
                out@ == task_vault_ids(self.vaults@.take(i as int), task_id),
            decreases self.vaults@.len() - i,
        {
            proof {
                assert(self.vaults@.take(i + 1).drop_last() == self.vaults@.take(i as int));
            }
            if self.vaults[i].task_id == task_id {
                out.push(self.vaults[i].id);
            }
            i = i + 1;
        }
        proof {
            assert(self.vaults@.take(self.vaults@.len() as int) == self.vaults@);
        }
        out
    }

    /// Ids of the vaults paying `beneficiary`, in creation order.
    pub fn get_beneficiary_vaults(&self, beneficiary: Address) -> (r: Vec<u32>)
        ensures
            r@ == beneficiary_vault_ids(self.vaults@, beneficiary),
    {
        let mut out: Vec<u32> = Vec::new();
        let mut i: usize = 0;
        while i < self.vaults.len()
            invariant
                0 <= i <= self.vaults@.len(),
                out@ == beneficiary_vault_ids(self.vaults@.take(i as int), beneficiary),
            decreases self.vaults@.len() - i,
        {
            proof {
                assert(self.vaults@.take(i + 1).drop_last() == self.vaults@.take(i as int));
            }
            if self.vaults[i].beneficiary == beneficiary {
                out.push(self.vaults[i].id);
            }
            i = i + 1;
        }
        proof {
            assert(self.vaults@.take(self.vaults@.len() as int) == self.vaults@);
        }
        out
    }

    /// Id of the vault of milestone `milestone_id` of `task_id`, if any.
    pub fn get_milestone_vault_id(&self, task_id: u32, milestone_id: u32) -> (r: Option<u32>)
        requires
            self.wf(),
        ensures
            r is None <==> !self.milestone_has_vault(task_id, milestone_id),
            r matches Some(id) ==> self.has_vault(id) && self.vault(id).task_id == task_id
                && self.vault(id).milestone_id == milestone_id,
    {
        self.find_milestone_vault(task_id, milestone_id)
    }

    /// Whether vault `vault_id` is active and its window has ended at `now`.
    pub fn is_vesting_complete(&self, vault_id: u32, now: u64) -> (r: bool)
        requires
            self.has_vault(vault_id),
        ensures
            r == (self.vault(vault_id).status == VestingVaultStatus::Active && now >= self.vault(vault_id).vesting_end),
    {
        let v = &self.vaults[(vault_id - 1) as usize];
        if v.status != VestingVaultStatus::Active {
            return false;
        }
        now >= v.vesting_end
    }

    /// Seconds left in vault `vault_id`'s window at `now`; zero once it has
    /// ended or the vault is no longer active.
    pub fn get_remaining_vesting_time(&self, vault_id: u32, now: u64) -> (r: u64)
        requires
            self.has_vault(vault_id),
        ensures
            r == (if self.vault(vault_id).status != VestingVaultStatus::Active || now >= self.vault(vault_id).vesting_end {
                0
            } else {
                self.vault(vault_id).vesting_end - now
            }),
    {
        let v = &self.vaults[(vault_id - 1) as usize];
        if v.status != VestingVaultStatus::Active {
            return 0;
        }
        if now >= v.vesting_end {
            0
        } else {
            v.vesting_end - now
        }
    }
}


impl TaskManagerContract {
    /// Lock `amount` of an approved milestone's payout in a vesting vault
    /// for `vesting_period` seconds from `now` (see
    /// `VestingVaultBook::create_vesting_vault`).
    pub fn create_vesting_vault(
        &mut self,
        task_id: u32,
        milestone_id: u32,
        beneficiary: Address,
        amount: i128,
        token: Address,
        vesting_period: u64,
        now: u64,
    ) -> (r: Result<u32, ContractError>)
        requires
            old(self).wf(),
            now + vesting_period <= u64::MAX,
        ensures
            final(self).wf(),
            match old(self).vesting.create_outcome(&old(self).escrow, task_id, milestone_id, amount, vesting_period) {
                Err(e) => r == Err::<u32, ContractError>(e),
                Ok(()) => r == Ok::<u32, ContractError>((old(self).vesting.vaults@.len() + 1) as u32),
            },
            r is Err ==> *final(self) == *old(self),
            final(self).only_vesting_changed(old(self)),
            r matches Ok(id) ==> final(self).vesting.vaults@ == old(self).vesting.vaults@.push(VestingVault {
                id,
                task_id,
                milestone_id,
                beneficiary,
                amount,
                token,
                created_at: now,
                vesting_end: (now + vesting_period) as u64,
                status: VestingVaultStatus::Active,
                disputed_by: None,
                dispute_reason: None,
            }),
    {
        self.vesting.create_vesting_vault(&self.escrow, task_id, milestone_id, beneficiary, amount, token, vesting_period, now)
    }

    /// Vesting vault `vault_id`, if it exists.
    pub fn get_vesting_vault(&self, vault_id: u32) -> (r: Option<&VestingVault>)
        ensures
            r is None <==> !self.vesting.has_vault(vault_id),
            r matches Some(v) ==> *v == self.vesting.vault(vault_id),
    {
        self.vesting.get_vault(vault_id)
    }

    /// Ids of task `task_id`'s vesting vaults, in creation order.
    pub fn get_task_vesting_vaults(&self, task_id: u32) -> (r: Vec<u32>)
        ensures
            r@ == task_vault_ids(self.vesting.vaults@, task_id),
    {
        self.vesting.get_task_vaults(task_id)
    }

    /// Ids of the vesting vaults paying `beneficiary`, in creation order.
    pub fn get_beneficiary_vesting_vaults(&self, beneficiary: Address) -> (r: Vec<u32>)
        ensures
            r@ == beneficiary_vault_ids(self.vesting.vaults@, beneficiary),
    {
        self.vesting.get_beneficiary_vaults(beneficiary)
    }

    /// Whether vesting vault `vault_id` is active and its window has ended at `now`.
    pub fn is_vesting_complete(&self, vault_id: u32, now: u64) -> (r: bool)
        requires
            self.vesting.has_vault(vault_id),
        ensures
            r == (self.vesting.vault(vault_id).status == VestingVaultStatus::Active
                && now >= self.vesting.vault(vault_id).vesting_end),
    {
        self.vesting.is_vesting_complete(vault_id, now)
    }

    /// Seconds left in vesting vault `vault_id`'s window at `now`.
    pub fn get_remaining_vesting_time(&self, vault_id: u32, now: u64) -> (r: u64)
        requires
            self.vesting.has_vault(vault_id),
        ensures
            r == (if self.vesting.vault(vault_id).status != VestingVaultStatus::Active
                || now >= self.vesting.vault(vault_id).vesting_end {
                0
            } else {
                self.vesting.vault(vault_id).vesting_end - now
            }),
    {
        self.vesting.get_remaining_vesting_time(vault_id, now)
    }

    /// `self` is `other` with only the vesting vaults replaced.
    pub open spec fn only_vesting_changed(&self, other: &Self) -> bool {
        *self == (TaskManagerContract { vesting: self.vesting, ..*other })
    }

    /// The contract admin, once there is one.
    pub open spec fn admin_opt(&self) -> Option<Address> {
        if self.initialized { Some(self.admin) } else { None }
    }

    /// The creator of task `task_id`, if it exists.
    pub open spec fn creator_opt(&self, task_id: u32) -> Option<Address> {
        if self.has_task(task_id) { Some(self.task(task_id).created_by) } else { None }
    }

    /// The contract admin, once initialized.
    pub fn get_admin(&self) -> (r: Option<Address>)
        ensures
            r == self.admin_opt(),
    {
        self.admin_if_initialized()
    }

    fn admin_if_initialized(&self) -> (r: Option<Address>)
        ensures
            r == self.admin_opt(),
    {
        if self.initialized { Some(self.admin) } else { None }
    }

    fn task_creator(&self, task_id: u32) -> (r: Option<Address>)
        ensures
            r == self.creator_opt(task_id),
    {
        if task_id == 0 || task_id as usize > self.tasks.len() {
            None
        } else {
            Some(self.tasks[(task_id - 1) as usize].created_by)
        }
    }

    /// What `approve_milestone_with_vesting` gives.
    pub open spec fn approve_with_vesting_outcome(&self, caller: Address, task_id: u32, milestone_id: u32, vesting_period: u64) -> Result<(), ContractError> {
        let amount = self.escrow.milestone(task_id, milestone_id).amount;
        if self.approve_milestone_outcome(caller, task_id, milestone_id) is Err {
            self.approve_milestone_outcome(caller, task_id, milestone_id)
        } else if amount <= 0 {
            Err(ContractError::InvalidAmount)
        } else if vesting_period < MIN_VESTING_PERIOD {
            Err(ContractError::VestingPeriodTooShort)
        } else if vesting_period > MAX_VESTING_PERIOD {
            Err(ContractError::VestingPeriodTooLong)
        } else if self.vesting.milestone_has_vault(task_id, milestone_id) {
            Err(ContractError::VaultExists)
        } else if self.escrow.locked_of(task_id) < amount {
            Err(ContractError::InsufficientEscrow)
        } else if self.vesting.vaults@.len() + 1 >= u32::MAX {
            Err(ContractError::ArithmeticOverflow)
        } else {
            Ok(())
        }
    }

    /// Approve a submitted milestone as `approve_milestone` does, but lock its
    /// payout in a new vesting vault for the assignee instead of paying it.
    /// Returns the vault id.
    pub fn approve_milestone_with_vesting(
        &mut self,
        caller: Address,
        task_id: u32,
        milestone_id: u32,
        vesting_period: u64,
        feedback: Option<String>,
        now: u64,
    ) -> (r: Result<u32, ContractError>)
        requires
            old(self).wf(),
            now + vesting_period <= u64::MAX,
        ensures
            final(self).wf(),
            match old(self).approve_with_vesting_outcome(caller, task_id, milestone_id, vesting_period) {
                Err(e) => r == Err::<u32, ContractError>(e),
                Ok(()) => r == Ok::<u32, ContractError>((old(self).vesting.vaults@.len() + 1) as u32),
            },
            r is Err ==> *final(self) == *old(self),
            r matches Ok(id) ==> {
                let t = old(self).task(task_id);
                let o = old(self).escrow.milestone(task_id, milestone_id);
                let m = final(self).escrow.milestone(task_id, milestone_id);
                let v = final(self).vesting.vault(id);
                &&& m.status == MilestoneStatus::Approved
                &&& m.feedback == feedback
                &&& final(self).escrow.task_escrow == old(self).escrow.task_escrow
                &&& final(self).vesting.vaults@.len() == old(self).vesting.vaults@.len() + 1
                &&& final(self).vesting.vaults@.subrange(0, id - 1) == old(self).vesting.vaults@
                &&& v.task_id == task_id && v.milestone_id == milestone_id
                &&& v.beneficiary == t.assignee->0 && v.amount == o.amount && v.token == old(self).token_contract
                &&& v.created_at == now && v.vesting_end == now + vesting_period
                &&& v.status == VestingVaultStatus::Active
                &&& final(self).reputation.award_applied(&old(self).reputation, t.assignee->0,
                    event_points(ReputationEventType::MilestoneApproved))
                &&& Some(final(self).escrow.stats) == crate::escrow::stats_after(old(self).escrow.stats, 0, o.amount, 0, 0, 0)
                &&& final(self).tasks == old(self).tasks
                &&& final(self).statistics == old(self).statistics
            },
    {
        let idx = match self.task_index(task_id) {
            Ok(i) => i,
            Err(e) => return Err(e),
        };
        if !self.initialized {
            return Err(ContractError::NotInitialized);
        }
        if caller != self.tasks[idx].created_by && caller != self.admin {
            return Err(ContractError::NotAuthorized);
        }
        match self.escrow.check_approve(task_id, milestone_id) {
            Ok(()) => {},
            Err(e) => return Err(e),
        }
        let assignee = match self.tasks[idx].assignee {
            Some(a) => a,
            None => return Err(ContractError::NoAssignee),
        };
        let points = crate::reputation::points_for_event(ReputationEventType::MilestoneApproved);
        match self.reputation.check_award(assignee, points) {
            Ok(()) => {},
            Err(e) => return Err(e),
        }
        let amount = match self.escrow.get_milestone(task_id, milestone_id) {
            Some(m) => m.amount,
            None => return Err(ContractError::MilestoneNotFound),
        };
        if amount <= 0 {
            return Err(ContractError::InvalidAmount);
        }
        if vesting_period < MIN_VESTING_PERIOD {
            return Err(ContractError::VestingPeriodTooShort);
        }
        if vesting_period > MAX_VESTING_PERIOD {
            return Err(ContractError::VestingPeriodTooLong);
        }
        if self.vesting.get_milestone_vault_id(task_id, milestone_id).is_some() {
            return Err(ContractError::VaultExists);
        }
        if self.escrow.get_task_escrow(task_id) < amount {
            return Err(ContractError::InsufficientEscrow);
        }
        if self.vesting.vaults.len() >= (u32::MAX - 1) as usize {
            return Err(ContractError::ArithmeticOverflow);
        }
        match self.escrow.approve_milestone(task_id, milestone_id, feedback) {
            Ok(_) => {},
            Err(e) => {
                assert(false);
                return Err(e);
            },
        }
        match self.reputation.award_reputation(assignee, points, ReputationEventType::MilestoneApproved, Some(task_id), "Milestone approved".to_owned(), now) {
            Ok(()) => {},
            Err(e) => {
                assert(false);
                return Err(e);
            },
        }
        let token = self.token_contract;
        match self.vesting.create_vesting_vault(&self.escrow, task_id, milestone_id, assignee, amount, token, vesting_period, now) {
            Ok(id) => {
                proof {
                    TaskManagerContract::lemma_backing_kept(*old(self), *self);
                }
                Ok(id)
            },
            Err(e) => {
                assert(false);
                Err(e)
            },
        }
    }

    /// Dispute vault `vault_id`; the admin or the vault's task creator may.
    pub fn dispute_vesting_vault(&mut self, caller: Address, vault_id: u32, reason: String, now: u64) -> (r: Result<(), ContractError>)
        requires
            old(self).wf(),
        ensures
            final(self).wf(),
            r == old(self).vesting.dispute_outcome(caller, vault_id, old(self).admin_opt(),
                old(self).creator_opt(old(self).vesting.vault(vault_id).task_id), now),
            r is Err ==> *final(self) == *old(self),
            final(self).only_vesting_changed(old(self)),
    {
        let admin = self.admin_if_initialized();
        let creator = match self.vesting.get_vault(vault_id) {
            Some(v) => self.task_creator(v.task_id),
            None => None,
        };
        self.vesting.dispute_vesting_vault(caller, vault_id, reason, admin, creator, now)
    }

    /// Release vault `vault_id` after its window; the beneficiary or the admin may.
    pub fn release_vesting_vault(&mut self, caller: Address, vault_id: u32, now: u64) -> (r: Result<(i128, Transfer), ContractError>)
        requires
            old(self).wf(),
        ensures
            final(self).wf(),
            match old(self).vesting.release_outcome(caller, vault_id, old(self).admin_opt(), now) {
                Err(e) => r == Err::<(i128, Transfer), ContractError>(e),
                Ok(()) => r is Ok,
            },
            r is Err ==> *final(self) == *old(self),
            r matches Ok((amount, t)) ==> {
                let o = old(self).vesting.vault(vault_id);
                &&& amount == o.amount
                &&& t == Transfer { token: o.token, from: old(self).contract_address, to: o.beneficiary, amount: o.amount }
                &&& final(self).vesting.vaults@ == old(self).vesting.vaults@.update(vault_id - 1, VestingVault { status: VestingVaultStatus::Released, ..o })
            },
            final(self).only_vesting_changed(old(self)),
    {
        let admin = self.admin_if_initialized();
        let contract_address = self.contract_address;
        self.vesting.release_vesting_vault(caller, vault_id, admin, contract_address, now)
    }

    /// The admin refunds disputed vault `vault_id` to its task's creator.
    pub fn refund_vesting_vault(&mut self, caller: Address, vault_id: u32) -> (r: Result<(i128, Transfer), ContractError>)
        requires
            old(self).wf(),
        ensures
            final(self).wf(),
            match old(self).vesting.refund_outcome(caller, vault_id, old(self).admin_opt(),
                old(self).creator_opt(old(self).vesting.vault(vault_id).task_id)) {
                Err(e) => r == Err::<(i128, Transfer), ContractError>(e),
                Ok(()) => r is Ok,
            },
            r is Err ==> *final(self) == *old(self),
            r matches Ok((amount, t)) ==> {
                let o = old(self).vesting.vault(vault_id);
                &&& amount == o.amount
                &&& t == Transfer { token: o.token, from: old(self).contract_address, to: old(self).task(o.task_id).created_by, amount: o.amount }
                &&& final(self).vesting.vaults@ == old(self).vesting.vaults@.update(vault_id - 1, VestingVault { status: VestingVaultStatus::Refunded, ..o })
            },
            final(self).only_vesting_changed(old(self)),
    {
        let admin = self.admin_if_initialized();
        let creator = match self.vesting.get_vault(vault_id) {
            Some(v) => self.task_creator(v.task_id),
            None => None,
        };
        let contract_address = self.contract_address;
        self.vesting.refund_vesting_vault(caller, vault_id, admin, creator, contract_address)
    }
}

} // verus!
