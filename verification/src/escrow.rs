//! Milestone-based escrow: milestones per task with their review state
//! machine, the amount locked per task, and aggregate escrow statistics.

use vstd::prelude::*;
use std::collections::HashMap;
use crate::types::{ContractError, fits_i128};

verus! {

broadcast use vstd::std_specs::hash::group_hash_axioms;

#[derive(Clone, Copy, Debug, PartialEq, Eq, Structural)]
pub enum MilestoneStatus {
    Pending,
    Submitted,
    Approved,
    Rejected,
    Paid,
}

/// A payable step of a task. Its id is its 1-based position among the
/// task's milestones.
#[derive(Clone, Debug)]
pub struct Milestone {
    pub id: u32,
    pub task_id: u32,
    pub title: String,
    pub amount: i128,
    pub status: MilestoneStatus,
    pub due_date: Option<u64>,
    pub submission_url: Option<String>,
    pub feedback: Option<String>,
}

#[derive(Clone, Copy, Debug, PartialEq, Eq, Structural)]
pub struct EscrowStats {
    pub total_locked: i128,
    pub total_released: i128,
    pub total_refunded: i128,
    pub active_escrows: u32,
    pub completed_escrows: u32,
}

/// Ledger storage keys of the escrow records.
#[derive(Clone, Copy, Debug, PartialEq, Eq, Structural)]
pub enum EscrowKey {
    Milestone(u32, u32),
    MilestoneCount(u32),
    EscrowStats,
    TaskEscrow(u32),
}

/// Statistics after adding the given deltas; `None` when a total overflows.
/// The active-escrow count is computed on `i32` and floored at zero.
pub open spec fn stats_after(
    s: EscrowStats,
    locked_delta: i128,
    released_delta: i128,
    refunded_delta: i128,
    active_delta: u32,
    completed_delta: u32,
) -> Option<EscrowStats> {
    let active = (s.active_escrows as i32) + (active_delta as i32);
    if !fits_i128(s.total_locked + locked_delta) || !fits_i128(s.total_released + released_delta)
        || !fits_i128(s.total_refunded + refunded_delta) || !(i32::MIN <= active <= i32::MAX)
        || s.completed_escrows + completed_delta > u32::MAX {
        None
    } else {
        Some(EscrowStats {
            total_locked: (s.total_locked + locked_delta) as i128,
            total_released: (s.total_released + released_delta) as i128,
            total_refunded: (s.total_refunded + refunded_delta) as i128,
            active_escrows: (if active < 0 { 0 } else { active }) as u32,
            completed_escrows: (s.completed_escrows + completed_delta) as u32,
        })
    }
}

pub open spec fn zero_stats() -> EscrowStats {
    EscrowStats { total_locked: 0, total_released: 0, total_refunded: 0, active_escrows: 0, completed_escrows: 0 }
}

/// Milestones, locked amounts and statistics of every task's escrow.
#[derive(Clone)]
pub struct EscrowLedger {
    pub milestones: HashMap<u32, Vec<Milestone>>,
    pub task_escrow: HashMap<u32, i128>,
    pub stats: EscrowStats,
}

impl EscrowLedger {
    /// Each stored milestone carries its task and its 1-based position.
    pub open spec fn wf(&self) -> bool {
        forall|t: u32| #[trigger] self.milestones@.contains_key(t) ==> {
            let ms = self.milestones@[t]@;
            &&& ms.len() < u32::MAX
            &&& forall|i: int| 0 <= i < ms.len() ==> (#[trigger] ms[i]).id == i + 1 && ms[i].task_id == t
        }
    }

    /// Milestones of `task_id`, in id order.
    pub open spec fn milestones_of(&self, task_id: u32) -> Seq<Milestone> {
        if self.milestones@.contains_key(task_id) { self.milestones@[task_id]@ } else { Seq::empty() }
    }

    /// Whether milestone `milestone_id` of `task_id` exists.
    pub open spec fn has_milestone(&self, task_id: u32, milestone_id: u32) -> bool {
        1 <= milestone_id <= self.milestones_of(task_id).len()
    }

    /// Milestone `milestone_id` of `task_id`.
    pub open spec fn milestone(&self, task_id: u32, milestone_id: u32) -> Milestone {
        self.milestones_of(task_id)[milestone_id - 1]
    }

    /// Amount currently locked for `task_id`.
    pub open spec fn locked_of(&self, task_id: u32) -> i128 {
        if self.task_escrow@.contains_key(task_id) { self.task_escrow@[task_id] } else { 0 }
    }

    /// What releasing `amount` of `task_id`'s locked funds gives.
    pub open spec fn release_outcome(&self, task_id: u32, amount: i128) -> Result<(), ContractError> {
        let cur = self.locked_of(task_id);
        if cur < amount {
            Err(ContractError::InsufficientEscrow)
        } else if !fits_i128(cur - amount)
            || stats_after(self.stats, 0, amount, 0, 0, if cur - amount == 0 { 1 } else { 0 }) is None {
            Err(ContractError::ArithmeticOverflow)
        } else {
            Ok(())
        }
    }

    /// What approving milestone `milestone_id` of `task_id` gives.
    pub open spec fn approve_outcome(&self, task_id: u32, milestone_id: u32) -> Result<(), ContractError> {
        if !self.has_milestone(task_id, milestone_id) {
            Err(ContractError::MilestoneNotFound)
        } else if self.milestone(task_id, milestone_id).status != MilestoneStatus::Submitted {
            Err(ContractError::MilestoneNotSubmitted)
        } else if stats_after(self.stats, 0, self.milestone(task_id, milestone_id).amount, 0, 0, 0) is None {
            Err(ContractError::ArithmeticOverflow)
        } else {
            Ok(())
        }
    }

    /// What locking `amount` more for `task_id` gives.
    pub open spec fn lock_outcome(&self, task_id: u32, amount: i128) -> Result<(), ContractError> {
        if !fits_i128(self.locked_of(task_id) + amount) || stats_after(self.stats, amount, 0, 0, 1, 0) is None {
            Err(ContractError::ArithmeticOverflow)
        } else {
            Ok(())
        }
    }

    pub fn new() -> (r: Self)
        ensures
            r.wf(),
            r.milestones@ == Map::<u32, Vec<Milestone>>::empty(),
            r.task_escrow@ == Map::<u32, i128>::empty(),
            r.stats == zero_stats(),
    {
        EscrowLedger {
            milestones: HashMap::new(),
            task_escrow: HashMap::new(),
            stats: EscrowStats { total_locked: 0, total_released: 0, total_refunded: 0, active_escrows: 0, completed_escrows: 0 },
        }
    }

    /// Statistics with the given deltas applied (the active count floored at
    /// zero); rejected, with nothing changed, when a total overflows.
    pub fn update_stats(
        &mut self,
        locked_delta: i128,
        released_delta: i128,
        refunded_delta: i128,
        active_delta: u32,
        completed_delta: u32,
    ) -> (r: Result<(), ContractError>)
        ensures
            final(self).milestones == old(self).milestones,
            final(self).task_escrow == old(self).task_escrow,
            match stats_after(old(self).stats, locked_delta, released_delta, refunded_delta, active_delta, completed_delta) {
                Some(s) => r is Ok && final(self).stats == s,
                None => r == Err::<(), ContractError>(ContractError::ArithmeticOverflow) && final(self).stats == old(self).stats,
            },
    {
        let locked = match self.stats.total_locked.checked_add(locked_delta) {
            Some(v) => v,
            None => return Err(ContractError::ArithmeticOverflow),
        };
        let released = match self.stats.total_released.checked_add(released_delta) {
            Some(v) => v,
            None => return Err(ContractError::ArithmeticOverflow),
        };
        let refunded = match self.stats.total_refunded.checked_add(refunded_delta) {
            Some(v) => v,
            None => return Err(ContractError::ArithmeticOverflow),
        };
        #[verifier::truncate]
        let a: i32 = self.stats.active_escrows as i32;
        #[verifier::truncate]
        let d: i32 = active_delta as i32;
        let active = match a.checked_add(d) {
            Some(v) => v,
            None => return Err(ContractError::ArithmeticOverflow),
        };
        let completed = match self.stats.completed_escrows.checked_add(completed_delta) {
            Some(v) => v,
            None => return Err(ContractError::ArithmeticOverflow),
        };
        let floored: i32 = if active < 0 { 0 } else { active };
        self.stats = EscrowStats {
            total_locked: locked,
            total_released: released,
            total_refunded: refunded,
            active_escrows: floored as u32,
            completed_escrows: completed,
        };
        Ok(())
    }

    /// Statistics with the given deltas applied, without storing them.
    pub fn compute_stats(
        &self,
        locked_delta: i128,
        released_delta: i128,
        refunded_delta: i128,
        active_delta: u32,
        completed_delta: u32,
    ) -> (r: Option<EscrowStats>)
        ensures
            r == stats_after(self.stats, locked_delta, released_delta, refunded_delta, active_delta, completed_delta),
    {
        let locked = match self.stats.total_locked.checked_add(locked_delta) {
            Some(v) => v,
            None => return None,
        };
        let released = match self.stats.total_released.checked_add(released_delta) {
            Some(v) => v,
            None => return None,
        };
        let refunded = match self.stats.total_refunded.checked_add(refunded_delta) {
            Some(v) => v,
            None => return None,
        };
        #[verifier::truncate]
        let a: i32 = self.stats.active_escrows as i32;
        #[verifier::truncate]
        let d: i32 = active_delta as i32;
        let active = match a.checked_add(d) {
            Some(v) => v,
            None => return None,
        };
        let completed = match self.stats.completed_escrows.checked_add(completed_delta) {
            Some(v) => v,
            None => return None,
        };
        let floored: i32 = if active < 0 { 0 } else { active };
        Some(EscrowStats {
            total_locked: locked,
            total_released: released,
            total_refunded: refunded,
            active_escrows: floored as u32,
            completed_escrows: completed,
        })
    }

    /// The outcome `release_escrow` would have, without changing anything.
    pub fn check_release(&self, task_id: u32, amount: i128) -> (r: Result<(), ContractError>)
        ensures
            r == self.release_outcome(task_id, amount),
    {
        let current = self.get_task_escrow(task_id);
        if current < amount {
            return Err(ContractError::InsufficientEscrow);
        }
        let new_balance = match current.checked_sub(amount) {
            Some(v) => v,
            None => return Err(ContractError::ArithmeticOverflow),
        };
        let completed: u32 = if new_balance == 0 { 1 } else { 0 };
        match self.compute_stats(0, amount, 0, 0, completed) {
            Some(_) => Ok(()),
            None => Err(ContractError::ArithmeticOverflow),
        }
    }

    /// The outcome `approve_milestone` would have, without changing anything.
    pub fn check_approve(&self, task_id: u32, milestone_id: u32) -> (r: Result<(), ContractError>)
        ensures
            r == self.approve_outcome(task_id, milestone_id),
    {
        let (status, amount) = match self.get_milestone(task_id, milestone_id) {
            Some(m) => (m.status, m.amount),
            None => return Err(ContractError::MilestoneNotFound),
        };
        if status != MilestoneStatus::Submitted {
            return Err(ContractError::MilestoneNotSubmitted);
        }
        match self.compute_stats(0, amount, 0, 0, 0) {
            Some(_) => Ok(()),
            None => Err(ContractError::ArithmeticOverflow),
        }
    }

    /// The outcome `lock_escrow` would have, without changing anything.
    pub fn check_lock(&self, task_id: u32, amount: i128) -> (r: Result<(), ContractError>)
        ensures
            r == self.lock_outcome(task_id, amount),
    {
        let current = self.get_task_escrow(task_id);
        match current.checked_add(amount) {
            Some(_) => {},
            None => return Err(ContractError::ArithmeticOverflow),
        }
        match self.compute_stats(amount, 0, 0, 1, 0) {
            Some(_) => Ok(()),
            None => Err(ContractError::ArithmeticOverflow),
        }
    }

    /// Aggregate escrow statistics.
    pub fn get_escrow_stats(&self) -> (r: EscrowStats)
        ensures
            r == self.stats,
    {
        self.stats
    }

    /// Append a pending milestone to `task_id`; returns its id.
    pub fn create_milestone(
        &mut self,
        task_id: u32,
        title: String,
        amount: i128,
        due_date: Option<u64>,
    ) -> (r: Result<u32, ContractError>)
        requires
            old(self).wf(),
        ensures
            final(self).wf(),
            final(self).task_escrow == old(self).task_escrow,
            final(self).stats == old(self).stats,
            r is Err <==> old(self).milestones_of(task_id).len() + 1 >= u32::MAX,
            r is Err ==> r == Err::<u32, ContractError>(ContractError::ArithmeticOverflow) && *final(self) == *old(self),
            r matches Ok(id) ==> {
                &&& id == old(self).milestones_of(task_id).len() + 1
                &&& final(self).milestones_of(task_id).len() == id
                &&& final(self).milestones_of(task_id).subrange(0, id - 1) == old(self).milestones_of(task_id)
                &&& final(self).milestone(task_id, id).status == MilestoneStatus::Pending
                &&& final(self).milestone(task_id, id).amount == amount
                &&& final(self).milestone(task_id, id).title@ == title@
                &&& final(self).milestone(task_id, id).due_date == due_date
                &&& final(self).milestone(task_id, id).submission_url is None
                &&& final(self).milestone(task_id, id).feedback is None
                &&& forall|t: u32| t != task_id ==> final(self).milestones_of(t) == old(self).milestones_of(t)
            },
    {
        let count: usize = match self.milestones.get(&task_id) {
            Some(v) => v.len(),
            None => 0,
        };
        if count >= u32::MAX as usize - 1 {
            return Err(ContractError::ArithmeticOverflow);
        }
        let mut list = match self.milestones.remove(&task_id) {
            Some(v) => v,
            None => Vec::new(),
        };
        let id: u32 = (list.len() + 1) as u32;
        let ghost before = list@;
        list.push(Milestone {
            id,
            task_id,
            title,
            amount,
            status: MilestoneStatus::Pending,
            due_date,
            submission_url: None,
            feedback: None,
        });
        self.milestones.insert(task_id, list);
        proof {
            assert(self.milestones_of(task_id).subrange(0, id - 1) =~= before);
            assert forall|t: u32| #[trigger] self.milestones@.contains_key(t) implies ({
                let ms = self.milestones@[t]@;
                &&& ms.len() < u32::MAX
                &&& forall|i: int| 0 <= i < ms.len() ==> (#[trigger] ms[i]).id == i + 1 && ms[i].task_id == t
            }) by {
                if t != task_id {
                    assert(old(self).milestones@.contains_key(t));
                }
            };
        }
        Ok(id)
    }

    /// Record a submission for a pending or rejected milestone.
    pub fn submit_milestone(&mut self, task_id: u32, milestone_id: u32, submission_url: String) -> (r: Result<(), ContractError>)
        requires
            old(self).wf(),
        ensures
            final(self).wf(),
            final(self).task_escrow == old(self).task_escrow,
            final(self).stats == old(self).stats,
            !old(self).has_milestone(task_id, milestone_id) ==> r == Err::<(), ContractError>(ContractError::MilestoneNotFound),
            old(self).has_milestone(task_id, milestone_id) ==> (r is Err <==> !(old(self).milestone(task_id, milestone_id).status == MilestoneStatus::Pending
                || old(self).milestone(task_id, milestone_id).status == MilestoneStatus::Rejected)),
            r is Err ==> *final(self) == *old(self),
            r is Err && old(self).has_milestone(task_id, milestone_id) ==> r == Err::<(), ContractError>(ContractError::MilestoneNotSubmittable),
            r is Ok ==> {
                let m = final(self).milestone(task_id, milestone_id);
                let o = old(self).milestone(task_id, milestone_id);
                &&& final(self).milestones_of(task_id).len() == old(self).milestones_of(task_id).len()
                &&& m.status == MilestoneStatus::Submitted
                &&& m.submission_url matches Some(u) && u@ == submission_url@
                &&& m.amount == o.amount && m.id == o.id && m.task_id == o.task_id && m.title == o.title
                &&& m.due_date == o.due_date && m.feedback == o.feedback
                &&& forall|j: u32| j != milestone_id && old(self).has_milestone(task_id, j) ==> final(self).milestone(task_id, j) == old(self).milestone(task_id, j)
                &&& forall|t: u32| t != task_id ==> final(self).milestones_of(t) == old(self).milestones_of(t)
            },
    {
        let status = match self.get_milestone(task_id, milestone_id) {
            Some(m) => m.status,
            None => return Err(ContractError::MilestoneNotFound),
        };
        if status != MilestoneStatus::Pending && status != MilestoneStatus::Rejected {
            return Err(ContractError::MilestoneNotSubmittable);
        }
        let mut list = match self.milestones.remove(&task_id) {
            Some(v) => v,
            None => {
                assert(false);
                return Err(ContractError::MilestoneNotFound);
            },
        };
        let idx = (milestone_id - 1) as usize;
        list[idx].status = MilestoneStatus::Submitted;
        list[idx].submission_url = Some(submission_url);
        self.milestones.insert(task_id, list);
        proof {
            assert forall|t: u32| #[trigger] self.milestones@.contains_key(t) implies ({
                let ms = self.milestones@[t]@;
                &&& ms.len() < u32::MAX
                &&& forall|i: int| 0 <= i < ms.len() ==> (#[trigger] ms[i]).id == i + 1 && ms[i].task_id == t
            }) by {
                if t != task_id {
                    assert(old(self).milestones@.contains_key(t));
                }
            };
        }
        Ok(())
    }

    /// Approve a submitted milestone, record the feedback and count its
    /// amount as released; returns the amount.
    pub fn approve_milestone(&mut self, task_id: u32, milestone_id: u32, feedback: Option<String>) -> (r: Result<i128, ContractError>)
        requires
            old(self).wf(),
        ensures
            final(self).wf(),
            final(self).task_escrow == old(self).task_escrow,
            !old(self).has_milestone(task_id, milestone_id) ==> r == Err::<i128, ContractError>(ContractError::MilestoneNotFound),
            old(self).has_milestone(task_id, milestone_id) && old(self).milestone(task_id, milestone_id).status != MilestoneStatus::Submitted
                ==> r == Err::<i128, ContractError>(ContractError::MilestoneNotSubmitted),
            old(self).has_milestone(task_id, milestone_id) && old(self).milestone(task_id, milestone_id).status == MilestoneStatus::Submitted
                ==> (r is Err <==> stats_after(old(self).stats, 0, old(self).milestone(task_id, milestone_id).amount, 0, 0, 0) is None),
            match old(self).approve_outcome(task_id, milestone_id) {
                Err(e) => r == Err::<i128, ContractError>(e),
                Ok(()) => r is Ok,
            },
            r is Err ==> *final(self) == *old(self),
            r matches Ok(amount) ==> {
                let m = final(self).milestone(task_id, milestone_id);
                let o = old(self).milestone(task_id, milestone_id);
                &&& amount == o.amount
                &&& Some(final(self).stats) == stats_after(old(self).stats, 0, amount, 0, 0, 0)
                &&& final(self).milestones_of(task_id).len() == old(self).milestones_of(task_id).len()
                &&& m.status == MilestoneStatus::Approved
                &&& m.feedback == feedback
                &&& m.amount == o.amount && m.id == o.id && m.task_id == o.task_id && m.title == o.title
                &&& m.due_date == o.due_date && m.submission_url == o.submission_url
                &&& forall|j: u32| j != milestone_id && old(self).has_milestone(task_id, j) ==> final(self).milestone(task_id, j) == old(self).milestone(task_id, j)
                &&& forall|t: u32| t != task_id ==> final(self).milestones_of(t) == old(self).milestones_of(t)
            },
    {
        let (status, amount) = match self.get_milestone(task_id, milestone_id) {
            Some(m) => (m.status, m.amount),
            None => return Err(ContractError::MilestoneNotFound),
        };
        if status != MilestoneStatus::Submitted {
            return Err(ContractError::MilestoneNotSubmitted);
        }
        match self.update_stats(0, amount, 0, 0, 0) {
            Ok(()) => {},
            Err(e) => return Err(e),
        }
        let mut list = match self.milestones.remove(&task_id) {
            Some(v) => v,
            None => {
                assert(false);
                return Err(ContractError::MilestoneNotFound);
            },
        };
        let idx = (milestone_id - 1) as usize;
        list[idx].status = MilestoneStatus::Approved;
        list[idx].feedback = feedback;
        self.milestones.insert(task_id, list);
        proof {
            assert forall|t: u32| #[trigger] self.milestones@.contains_key(t) implies ({
                let ms = self.milestones@[t]@;
                &&& ms.len() < u32::MAX
                &&& forall|i: int| 0 <= i < ms.len() ==> (#[trigger] ms[i]).id == i + 1 && ms[i].task_id == t
            }) by {
                if t != task_id {
                    assert(old(self).milestones@.contains_key(t));
                }
            };
        }
        Ok(amount)
    }

    /// Reject a submitted milestone with feedback.
    pub fn reject_milestone(&mut self, task_id: u32, milestone_id: u32, feedback: String) -> (r: Result<(), ContractError>)
        requires
            old(self).wf(),
        ensures
            final(self).wf(),
            final(self).task_escrow == old(self).task_escrow,
            final(self).stats == old(self).stats,
            !old(self).has_milestone(task_id, milestone_id) ==> r == Err::<(), ContractError>(ContractError::MilestoneNotFound),
            old(self).has_milestone(task_id, milestone_id) ==> (r is Err <==> old(self).milestone(task_id, milestone_id).status != MilestoneStatus::Submitted),
            r is Err && old(self).has_milestone(task_id, milestone_id) ==> r == Err::<(), ContractError>(ContractError::MilestoneNotSubmitted),
            r is Err ==> *final(self) == *old(self),
            r is Ok ==> {
                let m = final(self).milestone(task_id, milestone_id);
                let o = old(self).milestone(task_id, milestone_id);
                &&& final(self).milestones_of(task_id).len() == old(self).milestones_of(task_id).len()
                &&& m.status == MilestoneStatus::Rejected
                &&& m.feedback matches Some(f) && f@ == feedback@
                &&& m.amount == o.amount && m.id == o.id && m.task_id == o.task_id && m.title == o.title
                &&& m.due_date == o.due_date && m.submission_url == o.submission_url
                &&& forall|j: u32| j != milestone_id && old(self).has_milestone(task_id, j) ==> final(self).milestone(task_id, j) == old(self).milestone(task_id, j)
                &&& forall|t: u32| t != task_id ==> final(self).milestones_of(t) == old(self).milestones_of(t)
            },
    {
        let status = match self.get_milestone(task_id, milestone_id) {
            Some(m) => m.status,
            None => return Err(ContractError::MilestoneNotFound),
        };
        if status != MilestoneStatus::Submitted {
            return Err(ContractError::MilestoneNotSubmitted);
        }
        let mut list = match self.milestones.remove(&task_id) {
            Some(v) => v,
            None => {
                assert(false);
                return Err(ContractError::MilestoneNotFound);
            },
        };
        let idx = (milestone_id - 1) as usize;
        list[idx].status = MilestoneStatus::Rejected;
        list[idx].feedback = Some(feedback);
        self.milestones.insert(task_id, list);
        proof {
            assert forall|t: u32| #[trigger] self.milestones@.contains_key(t) implies ({
                let ms = self.milestones@[t]@;
                &&& ms.len() < u32::MAX
                &&& forall|i: int| 0 <= i < ms.len() ==> (#[trigger] ms[i]).id == i + 1 && ms[i].task_id == t
            }) by {
                if t != task_id {
                    assert(old(self).milestones@.contains_key(t));
                }
            };
        }
        Ok(())
    }

    /// Milestone `milestone_id` of `task_id`, if it exists.
    pub fn get_milestone(&self, task_id: u32, milestone_id: u32) -> (r: Option<&Milestone>)
        ensures
            r is None <==> !self.has_milestone(task_id, milestone_id),
            r matches Some(m) ==> *m == self.milestone(task_id, milestone_id),
    {
        match self.milestones.get(&task_id) {
            Some(list) => {
                if milestone_id == 0 || milestone_id as usize > list.len() {
                    None
                } else {
                    Some(&list[(milestone_id - 1) as usize])
                }
            },
            None => None,
        }
    }

    /// All milestones of `task_id`, in id order.
    pub fn get_milestones_for_task(&self, task_id: u32) -> (r: &[Milestone])
        ensures
            r@ == self.milestones_of(task_id),
    {
        match self.milestones.get(&task_id) {
            Some(list) => list.as_slice(),
            None => &[],
        }
    }

    /// Amount locked in escrow for `task_id`.
    pub fn get_task_escrow(&self, task_id: u32) -> (r: i128)
        ensures
            r == self.locked_of(task_id),
    {
        match self.task_escrow.get(&task_id) {
            Some(v) => *v,
            None => 0,
        }
    }

    /// Lock `amount` more for `task_id` and count a new active escrow.
    pub fn lock_escrow(&mut self, task_id: u32, amount: i128) -> (r: Result<(), ContractError>)
        ensures
            final(self).milestones == old(self).milestones,
            r == old(self).lock_outcome(task_id, amount),
            r is Err ==> *final(self) == *old(self),
            r is Ok ==> {
                &&& final(self).task_escrow@ == old(self).task_escrow@.insert(task_id, (old(self).locked_of(task_id) + amount) as i128)
                &&& Some(final(self).stats) == stats_after(old(self).stats, amount, 0, 0, 1, 0)
            },
    {
        let current = self.get_task_escrow(task_id);
        let new_balance = match current.checked_add(amount) {
            Some(v) => v,
            None => return Err(ContractError::ArithmeticOverflow),
        };
        match self.update_stats(amount, 0, 0, 1, 0) {
            Ok(()) => {},
            Err(e) => return Err(e),
        }
        self.task_escrow.insert(task_id, new_balance);
        Ok(())
    }

    /// Release `amount` of `task_id`'s locked funds; the escrow counts as
    /// completed when nothing is left.
    pub fn release_escrow(&mut self, task_id: u32, amount: i128) -> (r: Result<(), ContractError>)
        ensures
            final(self).milestones == old(self).milestones,
            r == old(self).release_outcome(task_id, amount),
            r is Err ==> *final(self) == *old(self),
            r is Ok ==> {
                let rest = old(self).locked_of(task_id) - amount;
                &&& final(self).task_escrow@ == old(self).task_escrow@.insert(task_id, rest as i128)
                &&& Some(final(self).stats) == stats_after(old(self).stats, 0, amount, 0, 0, if rest == 0 { 1 } else { 0 })
            },
    {
        let current = self.get_task_escrow(task_id);
        if current < amount {
            return Err(ContractError::InsufficientEscrow);
        }
        let new_balance = match current.checked_sub(amount) {
            Some(v) => v,
            None => return Err(ContractError::ArithmeticOverflow),
        };
        let completed: u32 = if new_balance == 0 { 1 } else { 0 };
        match self.update_stats(0, amount, 0, 0, completed) {
            Ok(()) => {},
            Err(e) => return Err(e),
        }
        self.task_escrow.insert(task_id, new_balance);
        Ok(())
    }
}

} // verus!
