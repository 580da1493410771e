//! Timelocked code upgrades: the admin proposes a new code hash, which can
//! be executed only once its timelock has elapsed and can be vetoed before
//! then by the admin or an emergency guardian. One proposal is in flight at
//! a time; every executed hash is appended to a bounded history log, from
//! which a rollback is proposed like any other upgrade.
//!
//! ```text
//!   Pending --(timelock elapses, admin executes)--> Executed
//!      |
//!      +----------(guardian or admin vetoes)------> Vetoed
//! ```

use vstd::prelude::*;
use crate::types::{Address, ContractError};
use crate::access_control::Role;
use crate::TaskManagerContract;

verus! {

/// Default timelock: 48 hours.
pub const DEFAULT_TIMELOCK_SECONDS: u64 = 172_800;

/// Least timelock the admin may configure: one hour.
pub const MIN_TIMELOCK_SECONDS: u64 = 3_600;

/// Most history entries kept.
pub const MAX_HISTORY_LEN: usize = 50;

#[derive(Clone, Copy, Debug, PartialEq, Eq, Structural)]
pub enum UpgradeStatus {
    Pending,
    Executed,
    Vetoed,
}

#[derive(Clone, Copy, Debug)]
pub struct UpgradeProposal {
    pub wasm_hash: [u8; 32],
    pub proposed_by: Address,
    pub proposed_at: u64,
    /// When `execute_upgrade` may first succeed.
    pub ready_at: u64,
    pub status: UpgradeStatus,
    pub executed_at: Option<u64>,
    pub vetoed_by: Option<Address>,
}

#[derive(Clone, Copy, Debug)]
pub struct UpgradeHistoryEntry {
    pub wasm_hash: [u8; 32],
    pub applied_at: u64,
    pub applied_by: Address,
}

/// Ledger storage keys of the upgrade records.
#[derive(Clone, Copy, Debug, PartialEq, Eq, Structural)]
pub enum UpgradeKey {
    Pending,
    TimelockSeconds,
    History,
}

/// The admin check of upgrade operations.
pub open spec fn upgrade_admin_outcome(caller: Address, admin: Option<Address>) -> Result<(), ContractError> {
    if admin is None {
        Err(ContractError::NotInitialized)
    } else if caller != admin->0 {
        Err(ContractError::NotAdmin)
    } else {
        Ok(())
    }
}

/// `history` after appending `e`, keeping the latest `MAX_HISTORY_LEN` entries.
pub open spec fn appended_history(history: Seq<UpgradeHistoryEntry>, e: UpgradeHistoryEntry) -> Seq<UpgradeHistoryEntry> {
    let h = history.push(e);
    if h.len() > MAX_HISTORY_LEN { h.subrange(h.len() - MAX_HISTORY_LEN, h.len() as int) } else { h }
}

/// The upgrade slot, the configured timelock and the applied-hash history.
#[derive(Clone)]
pub struct UpgradeManager {
    pub pending: Option<UpgradeProposal>,
    pub timelock_seconds: Option<u64>,
    pub history: Vec<UpgradeHistoryEntry>,
}

impl UpgradeManager {
    /// The history never exceeds its bound.
    pub open spec fn wf(&self) -> bool {
        self.history@.len() <= MAX_HISTORY_LEN
    }

    /// The timelock in force.
    pub open spec fn timelock(&self) -> u64 {
        match self.timelock_seconds {
            Some(t) => t,
            None => DEFAULT_TIMELOCK_SECONDS,
        }
    }

    pub fn new() -> (r: Self)
        ensures
            r.wf(),
            r.pending is None,
            r.timelock_seconds is None,
            r.history@.len() == 0,
    {
        UpgradeManager { pending: None, timelock_seconds: None, history: Vec::new() }
    }

    /// The timelock in force, in seconds.
    pub fn get_timelock_seconds(&self) -> (r: u64)
        ensures
            r == self.timelock(),
    {
        match self.timelock_seconds {
            Some(t) => t,
            None => DEFAULT_TIMELOCK_SECONDS,
        }
    }

    /// The admin sets the timelock; it may not go below the safety floor.
    pub fn set_timelock_seconds(&mut self, caller: Address, admin: Option<Address>, seconds: u64) -> (r: Result<u64, ContractError>)
        requires
            old(self).wf(),
        ensures
            final(self).wf(),
            upgrade_admin_outcome(caller, admin) matches Err(e) ==> r == Err::<u64, ContractError>(e),
            upgrade_admin_outcome(caller, admin) is Ok && seconds < MIN_TIMELOCK_SECONDS
                ==> r == Err::<u64, ContractError>(ContractError::TimelockTooShort),
            r is Ok <==> upgrade_admin_outcome(caller, admin) is Ok && seconds >= MIN_TIMELOCK_SECONDS,
            r is Err ==> *final(self) == *old(self),
            r is Ok ==> r == Ok::<u64, ContractError>(seconds)
                && *final(self) == (UpgradeManager { timelock_seconds: Some(seconds), ..*old(self) }),
    {
        match admin {
            None => return Err(ContractError::NotInitialized),
            Some(a) => {
                if caller != a {
                    return Err(ContractError::NotAdmin);
                }
            },
        }
        if seconds < MIN_TIMELOCK_SECONDS {
            return Err(ContractError::TimelockTooShort);
        }
        self.timelock_seconds = Some(seconds);
        Ok(seconds)
    }

    /// What proposing an upgrade gives.
    pub open spec fn propose_outcome(&self, caller: Address, admin: Option<Address>, now: u64) -> Result<(), ContractError> {
        if upgrade_admin_outcome(caller, admin) is Err {
            upgrade_admin_outcome(caller, admin)
        } else if self.pending matches Some(p) && p.status == UpgradeStatus::Pending {
            Err(ContractError::UpgradePending)
        } else if now + self.timelock() > u64::MAX {
            Err(ContractError::ArithmeticOverflow)
        } else {
            Ok(())
        }
    }

    /// The admin proposes upgrading to `wasm_hash` at `now`; it becomes
    /// executable one timelock later. Refused while another is pending.
    pub fn propose_upgrade(&mut self, caller: Address, admin: Option<Address>, wasm_hash: [u8; 32], now: u64) -> (r: Result<UpgradeProposal, ContractError>)
        requires
            old(self).wf(),
        ensures
            final(self).wf(),
            old(self).propose_outcome(caller, admin, now) matches Err(e) ==> r == Err::<UpgradeProposal, ContractError>(e),
            r is Ok <==> old(self).propose_outcome(caller, admin, now) is Ok,
            r is Err ==> *final(self) == *old(self),
            r matches Ok(p) ==> {
                &&& p.wasm_hash == wasm_hash && p.proposed_by == caller && p.proposed_at == now
                &&& p.ready_at == now + old(self).timelock()
                &&& p.status == UpgradeStatus::Pending && p.executed_at is None && p.vetoed_by is None
                &&& final(self).pending == Some(p)
                &&& final(self).timelock_seconds == old(self).timelock_seconds
                &&& final(self).history == old(self).history
            },
    {
        match admin {
            None => return Err(ContractError::NotInitialized),
            Some(a) => {
                if caller != a {
                    return Err(ContractError::NotAdmin);
                }
            },
        }
        match self.pending {
            Some(p) => {
                if p.status == UpgradeStatus::Pending {
                    return Err(ContractError::UpgradePending);
                }
            },
            None => {},
        }
        let ready_at = match now.checked_add(self.get_timelock_seconds()) {
            Some(t) => t,
            None => return Err(ContractError::ArithmeticOverflow),
        };
        let proposal = UpgradeProposal {
            wasm_hash,
            proposed_by: caller,
            proposed_at: now,
            ready_at,
            status: UpgradeStatus::Pending,
            executed_at: None,
            vetoed_by: None,
        };
        self.pending = Some(proposal);
        Ok(proposal)
    }

    /// What vetoing gives; `is_guardian` tells whether the caller holds the
    /// guardian role.
    pub open spec fn veto_outcome(&self, caller: Address, admin: Option<Address>, is_guardian: bool) -> Result<(), ContractError> {
        if admin is None {
            Err(ContractError::NotInitialized)
        } else if caller != admin->0 && !is_guardian {
            Err(ContractError::NotGuardian)
        } else if self.pending is None {
            Err(ContractError::NoPendingUpgrade)
        } else if self.pending->0.status != UpgradeStatus::Pending {
            Err(ContractError::UpgradeNotPending)
        } else {
            Ok(())
        }
    }

    /// The admin or a guardian vetoes the pending proposal.
    pub fn veto_upgrade(&mut self, caller: Address, admin: Option<Address>, is_guardian: bool) -> (r: Result<UpgradeProposal, ContractError>)
        requires
            old(self).wf(),
        ensures
            final(self).wf(),
            old(self).veto_outcome(caller, admin, is_guardian) matches Err(e) ==> r == Err::<UpgradeProposal, ContractError>(e),
            r is Ok <==> old(self).veto_outcome(caller, admin, is_guardian) is Ok,
            r is Err ==> *final(self) == *old(self),
            r matches Ok(p) ==> {
                let o = old(self).pending->0;
                &&& p.status == UpgradeStatus::Vetoed && p.vetoed_by == Some(caller)
                &&& p.wasm_hash == o.wasm_hash && p.proposed_by == o.proposed_by && p.proposed_at == o.proposed_at
                &&& p.ready_at == o.ready_at && p.executed_at == o.executed_at
                &&& final(self).pending == Some(p)
                &&& final(self).timelock_seconds == old(self).timelock_seconds
                &&& final(self).history == old(self).history
            },
    {
        match admin {
            None => return Err(ContractError::NotInitialized),
            Some(a) => {
                if caller != a && !is_guardian {
                    return Err(ContractError::NotGuardian);
                }
            },
        }
        let mut p = match self.pending {
            Some(p) => p,
            None => return Err(ContractError::NoPendingUpgrade),
        };
        if p.status != UpgradeStatus::Pending {
            return Err(ContractError::UpgradeNotPending);
        }
        p.status = UpgradeStatus::Vetoed;
        p.vetoed_by = Some(caller);
        self.pending = Some(p);
        Ok(p)
    }

    /// What executing the pending proposal at `now` gives.
    pub open spec fn execute_outcome(&self, caller: Address, admin: Option<Address>, now: u64) -> Result<(), ContractError> {
        if upgrade_admin_outcome(caller, admin) is Err {
            upgrade_admin_outcome(caller, admin)
        } else if self.pending is None {
            Err(ContractError::NoPendingUpgrade)
        } else if self.pending->0.status == UpgradeStatus::Executed {
            Err(ContractError::UpgradeAlreadyExecuted)
        } else if self.pending->0.status == UpgradeStatus::Vetoed {
            Err(ContractError::UpgradeVetoed)
        } else if now < self.pending->0.ready_at {
            Err(ContractError::TimelockNotElapsed)
        } else {
            Ok(())
        }
    }

    /// The admin executes the pending proposal once its timelock has
    /// elapsed: the hash is logged and returned for the host to install.
    pub fn execute_upgrade(&mut self, caller: Address, admin: Option<Address>, now: u64) -> (r: Result<[u8; 32], ContractError>)
        requires
            old(self).wf(),
        ensures
            final(self).wf(),
            old(self).execute_outcome(caller, admin, now) matches Err(e) ==> r == Err::<[u8; 32], ContractError>(e),
            r is Ok <==> old(self).execute_outcome(caller, admin, now) is Ok,
            r is Err ==> *final(self) == *old(self),
            r matches Ok(hash) ==> {
                let o = old(self).pending->0;
                let p = final(self).pending->0;
                &&& hash == o.wasm_hash
                &&& o.ready_at <= now
                &&& final(self).pending is Some
                &&& p.status == UpgradeStatus::Executed && p.executed_at == Some(now)
                &&& p.wasm_hash == o.wasm_hash && p.proposed_by == o.proposed_by && p.proposed_at == o.proposed_at
                &&& p.ready_at == o.ready_at && p.vetoed_by == o.vetoed_by
                &&& final(self).history@ == appended_history(old(self).history@,
                    UpgradeHistoryEntry { wasm_hash: o.wasm_hash, applied_at: now, applied_by: caller })
                &&& final(self).timelock_seconds == old(self).timelock_seconds
            },
    {
        match admin {
            None => return Err(ContractError::NotInitialized),
            Some(a) => {
                if caller != a {
                    return Err(ContractError::NotAdmin);
                }
            },
        }
        let mut p = match self.pending {
            Some(p) => p,
            None => return Err(ContractError::NoPendingUpgrade),
        };
        match p.status {
            UpgradeStatus::Pending => {},
            UpgradeStatus::Executed => return Err(ContractError::UpgradeAlreadyExecuted),
            UpgradeStatus::Vetoed => return Err(ContractError::UpgradeVetoed),
        }
        if now < p.ready_at {
            return Err(ContractError::TimelockNotElapsed);
        }
        self.push_history(p.wasm_hash, caller, now);
        p.status = UpgradeStatus::Executed;
        p.executed_at = Some(now);
        self.pending = Some(p);
        Ok(p.wasm_hash)
    }

    /// Append an applied hash, keeping the latest `MAX_HISTORY_LEN` entries.
    pub fn push_history(&mut self, wasm_hash: [u8; 32], applied_by: Address, applied_at: u64)
        requires
            old(self).wf(),
        ensures
            final(self).wf(),
            final(self).history@ == appended_history(old(self).history@,
                UpgradeHistoryEntry { wasm_hash, applied_at, applied_by }),
            final(self).pending == old(self).pending,
            final(self).timelock_seconds == old(self).timelock_seconds,
    {
        self.history.push(UpgradeHistoryEntry { wasm_hash, applied_at, applied_by });
        if self.history.len() > MAX_HISTORY_LEN {
            let drop = self.history.len() - MAX_HISTORY_LEN;
            let mut trimmed: Vec<UpgradeHistoryEntry> = Vec::new();
            let mut i: usize = drop;
            while i < self.history.len()
                invariant
                    drop <= i <= self.history@.len(),
                    trimmed@ == self.history@.subrange(drop as int, i as int),
                decreases self.history@.len() - i,
            {
                trimmed.push(self.history[i]);
                i = i + 1;
            }
            self.history = trimmed;
        }
    }

    /// The current (or most recently resolved) proposal.
    pub fn get_pending_upgrade(&self) -> (r: Option<UpgradeProposal>)
        ensures
            r == self.pending,
    {
        self.pending
    }

    /// The applied hashes, oldest first.
    pub fn get_upgrade_history(&self) -> (r: &Vec<UpgradeHistoryEntry>)
        ensures
            r@ == self.history@,
    {
        &self.history
    }
}

impl TaskManagerContract {
    /// The upgrade timelock in force, in seconds.
    pub fn get_upgrade_timelock(&self) -> (r: u64)
        ensures
            r == self.upgrades.timelock(),
    {
        self.upgrades.get_timelock_seconds()
    }

    /// The contract admin sets the upgrade timelock (not below the floor).
    pub fn set_upgrade_timelock(&mut self, caller: Address, seconds: u64) -> (r: Result<u64, ContractError>)
        requires
            old(self).wf(),
        ensures
            final(self).wf(),
            r is Ok <==> upgrade_admin_outcome(caller, old(self).admin_opt()) is Ok && seconds >= MIN_TIMELOCK_SECONDS,
            upgrade_admin_outcome(caller, old(self).admin_opt()) matches Err(e) ==> r == Err::<u64, ContractError>(e),
            upgrade_admin_outcome(caller, old(self).admin_opt()) is Ok && seconds < MIN_TIMELOCK_SECONDS
                ==> r == Err::<u64, ContractError>(ContractError::TimelockTooShort),
            r is Err ==> *final(self) == *old(self),
            r is Ok ==> r == Ok::<u64, ContractError>(seconds)
                && *final(self) == (TaskManagerContract {
                    upgrades: UpgradeManager { timelock_seconds: Some(seconds), ..old(self).upgrades },
                    ..*old(self)
                }),
    {
        let admin = self.get_admin();
        self.upgrades.set_timelock_seconds(caller, admin, seconds)
    }

    /// The contract admin proposes upgrading to `wasm_hash` at `now`.
    pub fn propose_upgrade(&mut self, caller: Address, wasm_hash: [u8; 32], now: u64) -> (r: Result<UpgradeProposal, ContractError>)
        requires
            old(self).wf(),
        ensures
            final(self).wf(),
            old(self).upgrades.propose_outcome(caller, old(self).admin_opt(), now) matches Err(e)
                ==> r == Err::<UpgradeProposal, ContractError>(e),
            r is Ok <==> old(self).upgrades.propose_outcome(caller, old(self).admin_opt(), now) is Ok,
            r is Err ==> *final(self) == *old(self),
            *final(self) == (TaskManagerContract { upgrades: final(self).upgrades, ..*old(self) }),
            r matches Ok(p) ==> {
                &&& p.wasm_hash == wasm_hash && p.proposed_by == caller && p.proposed_at == now
                &&& p.ready_at == now + old(self).upgrades.timelock()
                &&& p.status == UpgradeStatus::Pending && p.executed_at is None && p.vetoed_by is None
                &&& final(self).upgrades.pending == Some(p)
                &&& final(self).upgrades.timelock_seconds == old(self).upgrades.timelock_seconds
                &&& final(self).upgrades.history == old(self).upgrades.history
            },
    {
        let admin = self.get_admin();
        self.upgrades.propose_upgrade(caller, admin, wasm_hash, now)
    }

    /// The contract admin executes the pending upgrade at `now`; returns the
    /// code hash for the host to install.
    pub fn execute_upgrade(&mut self, caller: Address, now: u64) -> (r: Result<[u8; 32], ContractError>)
        requires
            old(self).wf(),
        ensures
            final(self).wf(),
            old(self).upgrades.execute_outcome(caller, old(self).admin_opt(), now) matches Err(e)
                ==> r == Err::<[u8; 32], ContractError>(e),
            r is Ok <==> old(self).upgrades.execute_outcome(caller, old(self).admin_opt(), now) is Ok,
            r is Err ==> *final(self) == *old(self),
            *final(self) == (TaskManagerContract { upgrades: final(self).upgrades, ..*old(self) }),
            r matches Ok(hash) ==> {
                let o = old(self).upgrades.pending->0;
                let p = final(self).upgrades.pending->0;
                &&& hash == o.wasm_hash
                &&& final(self).upgrades.pending is Some
                &&& p == (UpgradeProposal { status: UpgradeStatus::Executed, executed_at: Some(now), ..o })
                &&& final(self).upgrades.history@ == appended_history(old(self).upgrades.history@,
                    UpgradeHistoryEntry { wasm_hash: o.wasm_hash, applied_at: now, applied_by: caller })
                &&& final(self).upgrades.timelock_seconds == old(self).upgrades.timelock_seconds
            },
    {
        let admin = self.get_admin();
        self.upgrades.execute_upgrade(caller, admin, now)
    }

    /// The current (or most recently resolved) upgrade proposal.
    pub fn get_pending_upgrade(&self) -> (r: Option<UpgradeProposal>)
        ensures
            r == self.upgrades.pending,
    {
        self.upgrades.get_pending_upgrade()
    }

    /// The applied code hashes, oldest first.
    pub fn get_upgrade_history(&self) -> (r: &Vec<UpgradeHistoryEntry>)
        ensures
            r@ == self.upgrades.history@,
    {
        self.upgrades.get_upgrade_history()
    }

    /// `guardian`, the contract admin or a holder of the guardian role,
    /// vetoes the pending upgrade.
    pub fn veto_upgrade(&mut self, guardian: Address) -> (r: Result<UpgradeProposal, ContractError>)
        requires
            old(self).wf(),
        ensures
            final(self).wf(),
            match old(self).upgrades.veto_outcome(guardian, old(self).admin_opt(), old(self).access.holds(guardian, Role::Guardian)) {
                Err(e) => r == Err::<UpgradeProposal, ContractError>(e),
                Ok(()) => r is Ok,
            },
            r is Err ==> *final(self) == *old(self),
            *final(self) == (TaskManagerContract { upgrades: final(self).upgrades, ..*old(self) }),
            r matches Ok(p) ==> {
                let o = old(self).upgrades.pending->0;
                &&& p.status == UpgradeStatus::Vetoed && p.vetoed_by == Some(guardian)
                &&& p.wasm_hash == o.wasm_hash && p.proposed_by == o.proposed_by && p.proposed_at == o.proposed_at
                &&& p.ready_at == o.ready_at && p.executed_at == o.executed_at
                &&& final(self).upgrades.pending == Some(p)
                &&& final(self).upgrades.timelock_seconds == old(self).upgrades.timelock_seconds
                &&& final(self).upgrades.history == old(self).upgrades.history
            },
    {
        let admin = self.get_admin();
        let is_guardian = self.access.has_role(guardian, Role::Guardian);
        self.upgrades.veto_upgrade(guardian, admin, is_guardian)
    }
}

} // verus!
