//! Task lifecycle after creation: completion with fee split, cancellation
//! with refund, disputes and their resolution, milestone-based tasks and the
//! milestone review flow.

use vstd::prelude::*;
use crate::types::{Address, ContractError, Transfer, fits_i128, trunc_div};
use crate::multisig::shares_total;
use crate::escrow::{Milestone, MilestoneStatus, stats_after};
use crate::reputation::{ReputationEventType, event_points};
use crate::pausable::PauseAction;
use crate::storage::statistics_moved;
use crate::{Settlement, Task, TaskManagerContract, TaskStatus, fee_for, unsettled};

verus! {

/// `amount` paid from `from` to `to` in `token`, when it is positive.
pub open spec fn payment(token: Address, from: Address, to: Address, amount: i128) -> Seq<Transfer> {
    if amount > 0 { seq![Transfer { token, from, to, amount }] } else { Seq::empty() }
}

/// Sum of the amounts that `ts` moves.
pub open spec fn moved(ts: Seq<Transfer>) -> int
    decreases ts.len(),
{
    if ts.len() == 0 { 0 } else { moved(ts.drop_last()) + ts.last().amount }
}

impl TaskManagerContract {
    /// Who may approve, reject or complete work on a task: its creator or the admin.
    pub open spec fn may_review(&self, caller: Address, task_id: u32) -> bool {
        caller == self.task(task_id).created_by || caller == self.admin
    }

    /// What `complete_task` gives, in the order the checks are made.
    pub open spec fn complete_outcome(&self, caller: Address, task_id: u32) -> Result<(), ContractError> {
        let t = self.task(task_id);
        let fee = fee_for(t.reward, self.platform_fee_bps);
        let payout = t.reward - fee;
        if self.pauses.paused_for(PauseAction::CompleteTask, Some(caller)) {
            Err(ContractError::ActionPaused)
        } else if !self.has_task(task_id) {
            Err(ContractError::TaskNotFound)
        } else if t.status != TaskStatus::Completed {
            Err(ContractError::TaskNotCompleted)
        } else if !self.initialized {
            Err(ContractError::NotInitialized)
        } else if !self.may_review(caller, task_id) {
            Err(ContractError::NotAuthorized)
        } else if !fits_i128(t.reward * self.platform_fee_bps) {
            Err(ContractError::ArithmeticOverflow)
        } else if t.assignee is None {
            Err(ContractError::NoAssignee)
        } else if self.escrow.release_outcome(task_id, t.reward) is Err {
            self.escrow.release_outcome(task_id, t.reward)
        } else if self.reputation.award_outcome(t.assignee->0, event_points(ReputationEventType::TaskVerified)) is Err {
            self.reputation.award_outcome(t.assignee->0, event_points(ReputationEventType::TaskVerified))
        } else if self.statistics.total_tasks_completed + 1 > u32::MAX
            || !fits_i128(self.statistics.total_value_paid + payout)
            || !fits_i128(self.statistics.total_platform_fees + fee) {
            Err(ContractError::ArithmeticOverflow)
        } else {
            Ok(())
        }
    }

    /// The creator (or the admin) accepts submitted work: the reward leaves
    /// escrow, the platform fee goes to the fee recipient and the rest to
    /// the assignee, who earns reputation.
    pub fn complete_task(&mut self, caller: Address, task_id: u32, now: u64) -> (r: Result<Settlement, ContractError>)
        requires
            old(self).wf(),
        ensures
            final(self).wf(),
            match old(self).complete_outcome(caller, task_id) {
                Err(e) => r == Err::<Settlement, ContractError>(e),
                Ok(()) => r is Ok,
            },
            r is Err ==> *final(self) == *old(self),
            r matches Ok(s) ==> {
                let t = old(self).task(task_id);
                let assignee = t.assignee->0;
                &&& s.fee == fee_for(t.reward, old(self).platform_fee_bps)
                &&& s.payout == t.reward - s.fee
                &&& s.fee + s.payout == t.reward
                &&& (t.reward >= 0 ==> 0 <= s.fee <= t.reward && 0 <= s.payout <= t.reward)
                &&& s.transfers@ == payment(old(self).token_contract, old(self).contract_address, old(self).fee_recipient, s.fee)
                    + payment(old(self).token_contract, old(self).contract_address, assignee, s.payout)
                &&& final(self).tasks@ == old(self).tasks@.update(task_id - 1, Task {
                    status: TaskStatus::Verified,
                    updated_at: now,
                    ..t
                })
                &&& final(self).escrow.locked_of(task_id) == old(self).escrow.locked_of(task_id) - t.reward
                &&& Some(final(self).escrow.stats) == stats_after(old(self).escrow.stats, 0, t.reward, 0, 0, 1)
                &&& final(self).escrow.milestones == old(self).escrow.milestones
                &&& final(self).reputation.award_applied(&old(self).reputation, assignee, event_points(ReputationEventType::TaskVerified))
                &&& statistics_moved(old(self).statistics, final(self).statistics, 0, 1, 0, 0, 0, s.payout as int, s.fee as int)
                &&& final(self).same_config(old(self))
            },
    {
        match self.pauses.require_not_paused(PauseAction::CompleteTask, Some(caller)) {
            Ok(()) => {},
            Err(e) => return Err(e),
        }
        let idx = match self.task_index(task_id) {
            Ok(i) => i,
            Err(e) => return Err(e),
        };
        if self.tasks[idx].status != TaskStatus::Completed {
            return Err(ContractError::TaskNotCompleted);
        }
        if !self.initialized {
            return Err(ContractError::NotInitialized);
        }
        if caller != self.tasks[idx].created_by && caller != self.admin {
            return Err(ContractError::NotAuthorized);
        }
        let reward = self.tasks[idx].reward;
        match reward.checked_mul(self.platform_fee_bps as i128) {
            Some(_) => {},
            None => return Err(ContractError::ArithmeticOverflow),
        }
        let (fee, payout) = crate::safety_models::pure_fee_calculation(reward, self.platform_fee_bps);
        let assignee = match self.tasks[idx].assignee {
            Some(a) => a,
            None => return Err(ContractError::NoAssignee),
        };
        match self.escrow.check_release(task_id, reward) {
            Ok(()) => {},
            Err(e) => return Err(e),
        }
        let points = crate::reputation::points_for_event(ReputationEventType::TaskVerified);
        match self.reputation.check_award(assignee, points) {
            Ok(()) => {},
            Err(e) => return Err(e),
        }
        let completed = match self.statistics.total_tasks_completed.checked_add(1) {
            Some(v) => v,
            None => return Err(ContractError::ArithmeticOverflow),
        };
        let paid = match self.statistics.total_value_paid.checked_add(payout) {
            Some(v) => v,
            None => return Err(ContractError::ArithmeticOverflow),
        };
        let fees = match self.statistics.total_platform_fees.checked_add(fee) {
            Some(v) => v,
            None => return Err(ContractError::ArithmeticOverflow),
        };
        let mut transfers: Vec<Transfer> = Vec::new();
        if fee > 0 {
            transfers.push(Transfer { token: self.token_contract, from: self.contract_address, to: self.fee_recipient, amount: fee });
        }
        if payout > 0 {
            transfers.push(Transfer { token: self.token_contract, from: self.contract_address, to: assignee, amount: payout });
        }
        match self.escrow.release_escrow(task_id, reward) {
            Ok(()) => {},
            Err(e) => {
                assert(false);
                return Err(e);
            },
        }
        self.tasks[idx].status = TaskStatus::Verified;
        self.tasks[idx].updated_at = now;
        match self.reputation.award_reputation(
            assignee,
            points,
            ReputationEventType::TaskVerified,
            Some(task_id),
            "Task verified and completed".to_owned(),
            now,
        ) {
            Ok(()) => {},
            Err(e) => {
                assert(false);
                return Err(e);
            },
        }
        self.statistics.total_tasks_completed = completed;
        self.statistics.total_value_paid = paid;
        self.statistics.total_platform_fees = fees;
        proof {
            assert(transfers@ =~= crate::lifecycle::payment(self.token_contract, self.contract_address, self.fee_recipient, fee)
                + crate::lifecycle::payment(self.token_contract, self.contract_address, assignee, payout));
            assert forall|i: int| 0 <= i < self.tasks@.len() implies (#[trigger] self.tasks@[i]).id == i + 1 by {
                if i != idx {
                    assert(self.tasks@[i] == old(self).tasks@[i]);
                }
            };
            assert forall|i: int| 0 <= i < old(self).tasks@.len() && i != task_id - 1 implies
                (#[trigger] self.tasks@[i]).reward == old(self).tasks@[i].reward
                && unsettled(self.tasks@[i].status) == unsettled(old(self).tasks@[i].status) by {
                assert(self.tasks@[i] == old(self).tasks@[i]);
            };
            TaskManagerContract::lemma_backing_settled(*old(self), *self, task_id);
        }
        Ok(Settlement { payout, fee, transfers })
    }

    /// What `cancel_task` gives.
    pub open spec fn cancel_outcome(&self, creator: Address, task_id: u32) -> Result<(), ContractError> {
        let t = self.task(task_id);
        if self.pauses.paused_for(PauseAction::CancelTask, Some(creator)) {
            Err(ContractError::ActionPaused)
        } else if !self.has_task(task_id) {
            Err(ContractError::TaskNotFound)
        } else if t.created_by != creator {
            Err(ContractError::NotTaskCreator)
        } else if t.status != TaskStatus::Open {
            Err(ContractError::TaskNotOpen)
        } else if self.escrow.release_outcome(task_id, t.reward) is Err {
            self.escrow.release_outcome(task_id, t.reward)
        } else if self.statistics.total_tasks_cancelled + 1 > u32::MAX {
            Err(ContractError::ArithmeticOverflow)
        } else {
            Ok(())
        }
    }

    /// The creator withdraws an open task and gets the whole reward back.
    pub fn cancel_task(&mut self, creator: Address, task_id: u32, now: u64) -> (r: Result<Vec<Transfer>, ContractError>)
        requires
            old(self).wf(),
        ensures
            final(self).wf(),
            match old(self).cancel_outcome(creator, task_id) {
                Err(e) => r == Err::<Vec<Transfer>, ContractError>(e),
                Ok(()) => r is Ok,
            },
            r is Err ==> *final(self) == *old(self),
            r matches Ok(transfers) ==> {
                let t = old(self).task(task_id);
                &&& transfers@ == seq![Transfer { token: old(self).token_contract, from: old(self).contract_address, to: creator, amount: t.reward }]
                &&& final(self).tasks@ == old(self).tasks@.update(task_id - 1, Task {
                    status: TaskStatus::Cancelled,
                    updated_at: now,
                    ..t
                })
                &&& final(self).escrow.locked_of(task_id) == old(self).escrow.locked_of(task_id) - t.reward
                &&& Some(final(self).escrow.stats) == stats_after(old(self).escrow.stats, 0, t.reward, 0, 0, 1)
                &&& final(self).escrow.milestones == old(self).escrow.milestones
                &&& statistics_moved(old(self).statistics, final(self).statistics, 0, 0, 1, 0, 0, 0, 0)
                &&& final(self).reputation == old(self).reputation
                &&& final(self).same_config(old(self))
            },
    {
        match self.pauses.require_not_paused(PauseAction::CancelTask, Some(creator)) {
            Ok(()) => {},
            Err(e) => return Err(e),
        }
        let idx = match self.task_index(task_id) {
            Ok(i) => i,
            Err(e) => return Err(e),
        };
        if self.tasks[idx].created_by != creator {
            return Err(ContractError::NotTaskCreator);
        }
        if self.tasks[idx].status != TaskStatus::Open {
            return Err(ContractError::TaskNotOpen);
        }
        let reward = self.tasks[idx].reward;
        match self.escrow.check_release(task_id, reward) {
            Ok(()) => {},
            Err(e) => return Err(e),
        }
        let cancelled = match self.statistics.total_tasks_cancelled.checked_add(1) {
            Some(v) => v,
            None => return Err(ContractError::ArithmeticOverflow),
        };
        match self.escrow.release_escrow(task_id, reward) {
            Ok(()) => {},
            Err(e) => {
                assert(false);
                return Err(e);
            },
        }
        self.tasks[idx].status = TaskStatus::Cancelled;
        self.tasks[idx].updated_at = now;
        self.statistics.total_tasks_cancelled = cancelled;
        let mut transfers: Vec<Transfer> = Vec::new();
        transfers.push(Transfer { token: self.token_contract, from: self.contract_address, to: creator, amount: reward });
        proof {
            assert forall|i: int| 0 <= i < self.tasks@.len() implies (#[trigger] self.tasks@[i]).id == i + 1 by {
                if i != idx {
                    assert(self.tasks@[i] == old(self).tasks@[i]);
                }
            };
            assert forall|i: int| 0 <= i < old(self).tasks@.len() && i != task_id - 1 implies
                (#[trigger] self.tasks@[i]).reward == old(self).tasks@[i].reward
                && unsettled(self.tasks@[i].status) == unsettled(old(self).tasks@[i].status) by {
                assert(self.tasks@[i] == old(self).tasks@[i]);
            };
            TaskManagerContract::lemma_backing_settled(*old(self), *self, task_id);
        }
        Ok(transfers)
    }

    /// What `dispute_task` gives.
    pub open spec fn dispute_outcome(&self, caller: Address, task_id: u32) -> Result<(), ContractError> {
        let t = self.task(task_id);
        if self.pauses.paused_for(PauseAction::DisputeTask, Some(caller)) {
            Err(ContractError::ActionPaused)
        } else if !self.has_task(task_id) {
            Err(ContractError::TaskNotFound)
        } else if caller != t.created_by && t.assignee != Some(caller) {
            Err(ContractError::NotAuthorized)
        } else if t.status != TaskStatus::InProgress && t.status != TaskStatus::Completed {
            Err(ContractError::TaskNotDisputable)
        } else if self.statistics.total_tasks_disputed + 1 > u32::MAX {
            Err(ContractError::ArithmeticOverflow)
        } else {
            Ok(())
        }
    }

    /// The creator or the assignee raises a dispute on work in progress or
    /// submitted work.
    pub fn dispute_task(&mut self, caller: Address, task_id: u32, now: u64) -> (r: Result<(), ContractError>)
        requires
            old(self).wf(),
        ensures
            final(self).wf(),
            r == old(self).dispute_outcome(caller, task_id),
            r is Err ==> *final(self) == *old(self),
            r is Ok ==> {
                &&& final(self).tasks@ == old(self).tasks@.update(task_id - 1, Task {
                    status: TaskStatus::Disputed,
                    updated_at: now,
                    ..old(self).task(task_id)
                })
                &&& statistics_moved(old(self).statistics, final(self).statistics, 0, 0, 0, 1, 0, 0, 0)
                &&& final(self).escrow == old(self).escrow
                &&& final(self).reputation == old(self).reputation
                &&& final(self).same_config(old(self))
            },
    {
        match self.pauses.require_not_paused(PauseAction::DisputeTask, Some(caller)) {
            Ok(()) => {},
            Err(e) => return Err(e),
        }
        let idx = match self.task_index(task_id) {
            Ok(i) => i,
            Err(e) => return Err(e),
        };
        if caller != self.tasks[idx].created_by && self.tasks[idx].assignee != Some(caller) {
            return Err(ContractError::NotAuthorized);
        }
        if self.tasks[idx].status != TaskStatus::InProgress && self.tasks[idx].status != TaskStatus::Completed {
            return Err(ContractError::TaskNotDisputable);
        }
        let disputed = match self.statistics.total_tasks_disputed.checked_add(1) {
            Some(v) => v,
            None => return Err(ContractError::ArithmeticOverflow),
        };
        self.tasks[idx].status = TaskStatus::Disputed;
        self.tasks[idx].updated_at = now;
        self.statistics.total_tasks_disputed = disputed;
        proof {
            assert forall|i: int| 0 <= i < self.tasks@.len() implies (#[trigger] self.tasks@[i]).id == i + 1 by {
                if i != idx {
                    assert(self.tasks@[i] == old(self).tasks@[i]);
                }
            };
        }
        Ok(())
    }

    /// What `resolve_dispute` gives.
    pub open spec fn resolve_outcome(&self, admin: Address, task_id: u32, creator_refund: i128, assignee_payout: i128) -> Result<(), ContractError> {
        let t = self.task(task_id);
        if self.admin_outcome(admin) is Err {
            self.admin_outcome(admin)
        } else if !self.has_task(task_id) {
            Err(ContractError::TaskNotFound)
        } else if t.status != TaskStatus::Disputed {
            Err(ContractError::TaskNotDisputed)
        } else if creator_refund < 0 || assignee_payout < 0 {
            Err(ContractError::InvalidSplit)
        } else if !fits_i128(creator_refund + assignee_payout) {
            Err(ContractError::ArithmeticOverflow)
        } else if creator_refund + assignee_payout != t.reward {
            Err(ContractError::InvalidSplit)
        } else if assignee_payout > 0 && t.assignee is None {
            Err(ContractError::NoAssignee)
        } else if assignee_payout > 0 && self.reputation.award_outcome(t.assignee->0, event_points(ReputationEventType::DisputeWon)) is Err {
            self.reputation.award_outcome(t.assignee->0, event_points(ReputationEventType::DisputeWon))
        } else if self.escrow.release_outcome(task_id, t.reward) is Err {
            self.escrow.release_outcome(task_id, t.reward)
        } else {
            Ok(())
        }
    }

    /// The admin splits a disputed task's reward between its creator and
    /// its assignee; the split must add up to the reward exactly.
    pub fn resolve_dispute(
        &mut self,
        admin: Address,
        task_id: u32,
        creator_refund: i128,
        assignee_payout: i128,
        now: u64,
    ) -> (r: Result<Vec<Transfer>, ContractError>)
        requires
            old(self).wf(),
        ensures
            final(self).wf(),
            match old(self).resolve_outcome(admin, task_id, creator_refund, assignee_payout) {
                Err(e) => r == Err::<Vec<Transfer>, ContractError>(e),
                Ok(()) => r is Ok,
            },
            r is Err ==> *final(self) == *old(self),
            r is Ok ==> creator_refund >= 0 && assignee_payout >= 0,
            r matches Ok(transfers) ==> {
                let t = old(self).task(task_id);
                &&& creator_refund + assignee_payout == t.reward
                &&& transfers@ == payment(old(self).token_contract, old(self).contract_address, t.created_by, creator_refund)
                    + (if assignee_payout > 0 { payment(old(self).token_contract, old(self).contract_address, t.assignee->0, assignee_payout) } else { Seq::empty() })
                &&& final(self).tasks@ == old(self).tasks@.update(task_id - 1, Task {
                    status: TaskStatus::Resolved,
                    updated_at: now,
                    ..t
                })
                &&& final(self).escrow.locked_of(task_id) == old(self).escrow.locked_of(task_id) - t.reward
                &&& Some(final(self).escrow.stats) == stats_after(old(self).escrow.stats, 0, t.reward, 0, 0, 1)
                &&& final(self).escrow.milestones == old(self).escrow.milestones
                &&& (assignee_payout > 0 ==> final(self).reputation.award_applied(&old(self).reputation, t.assignee->0,
                    event_points(ReputationEventType::DisputeWon)))
                &&& (assignee_payout <= 0 ==> final(self).reputation == old(self).reputation)
                &&& final(self).statistics == old(self).statistics
                &&& final(self).same_config(old(self))
            },
    {
        match self.require_admin(admin) {
            Ok(()) => {},
            Err(e) => return Err(e),
        }
        let idx = match self.task_index(task_id) {
            Ok(i) => i,
            Err(e) => return Err(e),
        };
        if self.tasks[idx].status != TaskStatus::Disputed {
            return Err(ContractError::TaskNotDisputed);
        }
        if creator_refund < 0 || assignee_payout < 0 {
            return Err(ContractError::InvalidSplit);
        }
        let reward = self.tasks[idx].reward;
        let total = match creator_refund.checked_add(assignee_payout) {
            Some(v) => v,
            None => return Err(ContractError::ArithmeticOverflow),
        };
        if total != reward {
            return Err(ContractError::InvalidSplit);
        }
        let creator = self.tasks[idx].created_by;
        let points = crate::reputation::points_for_event(ReputationEventType::DisputeWon);
        let mut winner: Option<Address> = None;
        if assignee_payout > 0 {
            let a = match self.tasks[idx].assignee {
                Some(a) => a,
                None => return Err(ContractError::NoAssignee),
            };
            match self.reputation.check_award(a, points) {
                Ok(()) => {},
                Err(e) => return Err(e),
            }
            winner = Some(a);
        }
        match self.escrow.check_release(task_id, reward) {
            Ok(()) => {},
            Err(e) => return Err(e),
        }
        let mut transfers: Vec<Transfer> = Vec::new();
        if creator_refund > 0 {
            transfers.push(Transfer { token: self.token_contract, from: self.contract_address, to: creator, amount: creator_refund });
        }
        match winner {
            Some(a) => {
                transfers.push(Transfer { token: self.token_contract, from: self.contract_address, to: a, amount: assignee_payout });
                match self.reputation.award_reputation(a, points, ReputationEventType::DisputeWon, Some(task_id), "Won dispute".to_owned(), now) {
                    Ok(()) => {},
                    Err(e) => {
                        assert(false);
                        return Err(e);
                    },
                }
            },
            None => {},
        }
        match self.escrow.release_escrow(task_id, reward) {
            Ok(()) => {},
            Err(e) => {
                assert(false);
                return Err(e);
            },
        }
        self.tasks[idx].status = TaskStatus::Resolved;
        self.tasks[idx].updated_at = now;
        proof {
            assert(transfers@ =~= crate::lifecycle::payment(self.token_contract, self.contract_address, creator, creator_refund)
                + (if assignee_payout > 0 { crate::lifecycle::payment(self.token_contract, self.contract_address, old(self).task(task_id).assignee->0, assignee_payout) } else { Seq::empty() }));
            assert forall|i: int| 0 <= i < self.tasks@.len() implies (#[trigger] self.tasks@[i]).id == i + 1 by {
                if i != idx {
                    assert(self.tasks@[i] == old(self).tasks@[i]);
                }
            };
            assert forall|i: int| 0 <= i < old(self).tasks@.len() && i != task_id - 1 implies
                (#[trigger] self.tasks@[i]).reward == old(self).tasks@[i].reward
                && unsettled(self.tasks@[i].status) == unsettled(old(self).tasks@[i].status) by {
                assert(self.tasks@[i] == old(self).tasks@[i]);
            };
            TaskManagerContract::lemma_backing_settled(*old(self), *self, task_id);
        }
        Ok(transfers)
    }

    /// What `submit_milestone` gives.
    pub open spec fn submit_milestone_outcome(&self, assignee: Address, task_id: u32, milestone_id: u32) -> Result<(), ContractError> {
        let m = self.escrow.milestone(task_id, milestone_id);
        if !self.has_task(task_id) {
            Err(ContractError::TaskNotFound)
        } else if self.task(task_id).assignee != Some(assignee) {
            Err(ContractError::NotAssignee)
        } else if !self.escrow.has_milestone(task_id, milestone_id) {
            Err(ContractError::MilestoneNotFound)
        } else if m.status != MilestoneStatus::Pending && m.status != MilestoneStatus::Rejected {
            Err(ContractError::MilestoneNotSubmittable)
        } else {
            Ok(())
        }
    }

    /// The assignee submits a pending or rejected milestone for review.
    pub fn submit_milestone(&mut self, assignee: Address, task_id: u32, milestone_id: u32, submission_url: String) -> (r: Result<(), ContractError>)
        requires
            old(self).wf(),
        ensures
            final(self).wf(),
            r == old(self).submit_milestone_outcome(assignee, task_id, milestone_id),
            r is Err ==> *final(self) == *old(self),
            r is Ok ==> {
                let m = final(self).escrow.milestone(task_id, milestone_id);
                &&& m.status == MilestoneStatus::Submitted
                &&& m.submission_url matches Some(u) && u@ == submission_url@
                &&& m.amount == old(self).escrow.milestone(task_id, milestone_id).amount
                &&& final(self).escrow.milestones_of(task_id).len() == old(self).escrow.milestones_of(task_id).len()
                &&& final(self).tasks == old(self).tasks
                &&& final(self).escrow.task_escrow == old(self).escrow.task_escrow
                &&& final(self).escrow.stats == old(self).escrow.stats
                &&& final(self).reputation == old(self).reputation
                &&& final(self).statistics == old(self).statistics
                &&& final(self).same_config(old(self))
            },
    {
        let idx = match self.task_index(task_id) {
            Ok(i) => i,
            Err(e) => return Err(e),
        };
        if self.tasks[idx].assignee != Some(assignee) {
            return Err(ContractError::NotAssignee);
        }
        let r = self.escrow.submit_milestone(task_id, milestone_id, submission_url);
        proof {
            TaskManagerContract::lemma_backing_kept(*old(self), *self);
        }
        match r {
            Ok(()) => Ok(()),
            Err(e) => Err(e),
        }
    }

    /// What `approve_milestone` gives.
    pub open spec fn approve_milestone_outcome(&self, caller: Address, task_id: u32, milestone_id: u32) -> Result<(), ContractError> {
        let t = self.task(task_id);
        if !self.has_task(task_id) {
            Err(ContractError::TaskNotFound)
        } else if !self.initialized {
            Err(ContractError::NotInitialized)
        } else if !self.may_review(caller, task_id) {
            Err(ContractError::NotAuthorized)
        } else if self.escrow.approve_outcome(task_id, milestone_id) is Err {
            self.escrow.approve_outcome(task_id, milestone_id)
        } else if t.assignee is None {
            Err(ContractError::NoAssignee)
        } else if self.reputation.award_outcome(t.assignee->0, event_points(ReputationEventType::MilestoneApproved)) is Err {
            self.reputation.award_outcome(t.assignee->0, event_points(ReputationEventType::MilestoneApproved))
        } else {
            Ok(())
        }
    }

    /// The creator (or the admin) approves a submitted milestone; its amount
    /// is paid to the assignee, who earns reputation.
    pub fn approve_milestone(
        &mut self,
        caller: Address,
        task_id: u32,
        milestone_id: u32,
        feedback: Option<String>,
        now: u64,
    ) -> (r: Result<(i128, Vec<Transfer>), ContractError>)
        requires
            old(self).wf(),
        ensures
            final(self).wf(),
            match old(self).approve_milestone_outcome(caller, task_id, milestone_id) {
                Err(e) => r == Err::<(i128, Vec<Transfer>), ContractError>(e),
                Ok(()) => r is Ok,
            },
            r is Err ==> *final(self) == *old(self),
            r matches Ok((amount, transfers)) ==> {
                let t = old(self).task(task_id);
                let m = final(self).escrow.milestone(task_id, milestone_id);
                let o = old(self).escrow.milestone(task_id, milestone_id);
                &&& amount == old(self).escrow.milestone(task_id, milestone_id).amount
                &&& transfers@ == seq![Transfer { token: old(self).token_contract, from: old(self).contract_address, to: t.assignee->0, amount }]
                &&& m.status == MilestoneStatus::Approved
                &&& m.feedback == feedback
                &&& m.amount == o.amount && m.id == o.id && m.task_id == o.task_id && m.title == o.title
                &&& m.due_date == o.due_date && m.submission_url == o.submission_url
                &&& final(self).escrow.milestones_of(task_id).len() == old(self).escrow.milestones_of(task_id).len()
                &&& forall|j: u32| j != milestone_id && old(self).escrow.has_milestone(task_id, j)
                    ==> final(self).escrow.milestone(task_id, j) == old(self).escrow.milestone(task_id, j)
                &&& forall|other: u32| other != task_id ==> final(self).escrow.milestones_of(other) == old(self).escrow.milestones_of(other)
                &&& Some(final(self).escrow.stats) == stats_after(old(self).escrow.stats, 0, amount, 0, 0, 0)
                &&& final(self).reputation.award_applied(&old(self).reputation, t.assignee->0, event_points(ReputationEventType::MilestoneApproved))
                &&& final(self).tasks == old(self).tasks
                &&& final(self).escrow.task_escrow == old(self).escrow.task_escrow
                &&& final(self).statistics == old(self).statistics
                &&& final(self).same_config(old(self))
            },
    {
        let idx = match self.task_index(task_id) {
            Ok(i) => i,
            Err(e) => return Err(e),
        };
        if !self.initialized {
            return Err(ContractError::NotInitialized);
        }
        if caller != self.tasks[idx].created_by && caller != self.admin {
            return Err(ContractError::NotAuthorized);
        }
        match self.escrow.check_approve(task_id, milestone_id) {
            Ok(()) => {},
            Err(e) => return Err(e),
        }
        let assignee = match self.tasks[idx].assignee {
            Some(a) => a,
            None => return Err(ContractError::NoAssignee),
        };
        let points = crate::reputation::points_for_event(ReputationEventType::MilestoneApproved);
        match self.reputation.check_award(assignee, points) {
            Ok(()) => {},
            Err(e) => return Err(e),
        }
        let amount = match self.escrow.approve_milestone(task_id, milestone_id, feedback) {
            Ok(a) => a,
            Err(e) => {
                assert(false);
                return Err(e);
            },
        };
        let mut transfers: Vec<Transfer> = Vec::new();
        transfers.push(Transfer { token: self.token_contract, from: self.contract_address, to: assignee, amount });
        match self.reputation.award_reputation(assignee, points, ReputationEventType::MilestoneApproved, Some(task_id), "Milestone approved".to_owned(), now) {
            Ok(()) => {},
            Err(e) => {
                assert(false);
                return Err(e);
            },
        }
        proof {
            TaskManagerContract::lemma_backing_kept(*old(self), *self);
        }
        Ok((amount, transfers))
    }

    /// What `reject_milestone` gives.
    pub open spec fn reject_milestone_outcome(&self, caller: Address, task_id: u32, milestone_id: u32) -> Result<(), ContractError> {
        if !self.has_task(task_id) {
            Err(ContractError::TaskNotFound)
        } else if !self.initialized {
            Err(ContractError::NotInitialized)
        } else if !self.may_review(caller, task_id) {
            Err(ContractError::NotAuthorized)
        } else if !self.escrow.has_milestone(task_id, milestone_id) {
            Err(ContractError::MilestoneNotFound)
        } else if self.escrow.milestone(task_id, milestone_id).status != MilestoneStatus::Submitted {
            Err(ContractError::MilestoneNotSubmitted)
        } else {
            Ok(())
        }
    }

    /// The creator (or the admin) sends a submitted milestone back with feedback.
    pub fn reject_milestone(&mut self, caller: Address, task_id: u32, milestone_id: u32, feedback: String) -> (r: Result<(), ContractError>)
        requires
            old(self).wf(),
        ensures
            final(self).wf(),
            r == old(self).reject_milestone_outcome(caller, task_id, milestone_id),
            r is Err ==> *final(self) == *old(self),
            r is Ok ==> {
                let m = final(self).escrow.milestone(task_id, milestone_id);
                &&& m.status == MilestoneStatus::Rejected
                &&& m.feedback matches Some(f) && f@ == feedback@
                &&& final(self).escrow.milestones_of(task_id).len() == old(self).escrow.milestones_of(task_id).len()
                &&& final(self).tasks == old(self).tasks
                &&& final(self).escrow.task_escrow == old(self).escrow.task_escrow
                &&& final(self).escrow.stats == old(self).escrow.stats
                &&& final(self).reputation == old(self).reputation
                &&& final(self).statistics == old(self).statistics
                &&& final(self).same_config(old(self))
            },
    {
        let idx = match self.task_index(task_id) {
            Ok(i) => i,
            Err(e) => return Err(e),
        };
        if !self.initialized {
            return Err(ContractError::NotInitialized);
        }
        if caller != self.tasks[idx].created_by && caller != self.admin {
            return Err(ContractError::NotAuthorized);
        }
        let r = self.escrow.reject_milestone(task_id, milestone_id, feedback);
        proof {
            TaskManagerContract::lemma_backing_kept(*old(self), *self);
        }
        match r {
            Ok(()) => Ok(()),
            Err(e) => Err(e),
        }
    }

    /// All milestones of a task, in id order.
    pub fn get_milestones(&self, task_id: u32) -> (r: &[Milestone])
        ensures
            r@ == self.escrow.milestones_of(task_id),
    {
        self.escrow.get_milestones_for_task(task_id)
    }
}

/// Sum of the amounts of the first `n` milestone entries.
pub open spec fn amounts_sum(ms: Seq<(String, i128)>, n: int) -> int
    decreases n,
{
    if n <= 0 { 0 } else { amounts_sum(ms, n - 1) + ms[n - 1].1 }
}

impl TaskManagerContract {
    /// Create a task whose reward is the sum of its milestones' amounts, and
    /// its pending milestones in the given order.
    pub fn create_task_with_milestones(
        &mut self,
        creator: Address,
        title: String,
        description: String,
        milestones: Vec<(String, i128)>,
        tags: Vec<String>,
        now: u64,
    ) -> (r: Result<(u32, Vec<Transfer>), ContractError>)
        requires
            old(self).wf(),
        ensures
            final(self).wf(),
            r is Err ==> *final(self) == *old(self),
            (exists|k: int| 0 <= k <= milestones@.len() && !fits_i128(#[trigger] amounts_sum(milestones@, k)))
                ==> r == Err::<(u32, Vec<Transfer>), ContractError>(ContractError::ArithmeticOverflow),
            (forall|k: int| 0 <= k <= milestones@.len() ==> fits_i128(#[trigger] amounts_sum(milestones@, k)))
                && amounts_sum(milestones@, milestones@.len() as int) <= 0
                ==> r == Err::<(u32, Vec<Transfer>), ContractError>(ContractError::InvalidAmount),
            (forall|k: int| 0 <= k <= milestones@.len() ==> fits_i128(#[trigger] amounts_sum(milestones@, k)))
                && amounts_sum(milestones@, milestones@.len() as int) > 0
                ==> (r is Ok <==> {
                    let total = amounts_sum(milestones@, milestones@.len() as int);
                    let next = (old(self).tasks@.len() + 1) as u32;
                    &&& old(self).escrow.milestones_of(next).len() + milestones@.len() < u32::MAX - 1
                    &&& !old(self).pauses.paused_for(PauseAction::CreateTask, Some(creator))
                    &&& old(self).initialized
                    &&& old(self).tasks@.len() + 1 < u32::MAX
                    &&& old(self).statistics.total_tasks_created + 1 <= u32::MAX
                    &&& fits_i128(old(self).statistics.total_value_locked + total)
                    &&& old(self).escrow.lock_outcome(next, total as i128) is Ok
                }),
            r matches Ok((id, transfers)) ==> {
                let total = amounts_sum(milestones@, milestones@.len() as int);
                let base = old(self).escrow.milestones_of(id).len();
                &&& id == old(self).tasks@.len() + 1
                &&& final(self).task(id).reward == total
                &&& final(self).task(id).status == TaskStatus::Open
                &&& final(self).task(id).created_by == creator
                &&& transfers@ == seq![Transfer { token: old(self).token_contract, from: creator, to: old(self).contract_address, amount: total as i128 }]
                &&& final(self).escrow.locked_of(id) == old(self).escrow.locked_of(id) + total
                &&& final(self).escrow.milestones_of(id).len() == base + milestones@.len()
                &&& forall|j: int| 0 <= j < milestones@.len() ==> {
                    let m = #[trigger] final(self).escrow.milestones_of(id)[base + j];
                    &&& m.amount == milestones@[j].1
                    &&& m.title@ == milestones@[j].0@
                    &&& m.status == MilestoneStatus::Pending
                }
            },
    {
        let mut total: i128 = 0;
        let mut i: usize = 0;
        while i < milestones.len()
            invariant
                0 <= i <= milestones@.len(),
                self.wf(),
                *self == *old(self),
                total == amounts_sum(milestones@, i as int),
                forall|k: int| 0 <= k <= i ==> fits_i128(#[trigger] amounts_sum(milestones@, k)),
            decreases milestones@.len() - i,
        {
            total = match total.checked_add(milestones[i].1) {
                Some(v) => v,
                None => {
                    proof {
                        assert(!fits_i128(amounts_sum(milestones@, i + 1)));
                    }
                    return Err(ContractError::ArithmeticOverflow);
                },
            };
            i = i + 1;
        }
        if total <= 0 {
            return Err(ContractError::InvalidAmount);
        }
        let next_id = (self.tasks.len() as u64 + 1) as u32;
        let existing: usize = self.escrow.get_milestones_for_task(next_id).len();
        if existing >= u32::MAX as usize - 1 || milestones.len() >= u32::MAX as usize - 1 - existing {
            return Err(ContractError::ArithmeticOverflow);
        }
        let (task_id, transfers) = match self.create_task(creator, title, description, total, tags, now) {
            Ok(v) => v,
            Err(e) => return Err(e),
        };
        let ghost after_task = *self;
        let ghost base = after_task.escrow.milestones_of(task_id).len();
        let mut k: usize = 0;
        while k < milestones.len()
            invariant
                0 <= k <= milestones@.len(),
                task_id == next_id,
                base == existing,
                base + milestones@.len() < u32::MAX - 1,
                self.wf(),
                self.escrow.milestones_of(task_id).len() == base + k,
                self.escrow.task_escrow == after_task.escrow.task_escrow,
                self.escrow.stats == after_task.escrow.stats,
                self.tasks == after_task.tasks,
                self.reputation == after_task.reputation,
                self.statistics == after_task.statistics,
                self.same_config(&after_task),
                forall|j: int| 0 <= j < k ==> {
                    let m = #[trigger] self.escrow.milestones_of(task_id)[base + j];
                    &&& m.amount == milestones@[j].1
                    &&& m.title@ == milestones@[j].0@
                    &&& m.status == MilestoneStatus::Pending
                },
            decreases milestones@.len() - k,
        {
            let ghost prev = self.escrow.milestones_of(task_id);
            let ghost before_step = *self;
            let title_k = milestones[k].0.clone();
            let amount_k = milestones[k].1;
            match self.escrow.create_milestone(task_id, title_k, amount_k, None) {
                Ok(_) => {},
                Err(e) => {
                    assert(false);
                    return Err(e);
                },
            }
            proof {
                TaskManagerContract::lemma_backing_kept(before_step, *self);
                assert forall|j: int| 0 <= j < k + 1 implies ({
                    let m = #[trigger] self.escrow.milestones_of(task_id)[base + j];
                    &&& m.amount == milestones@[j].1
                    &&& m.title@ == milestones@[j].0@
                    &&& m.status == MilestoneStatus::Pending
                }) by {
                    if j < k {
                        assert(self.escrow.milestones_of(task_id).subrange(0, base + k) == prev);
                        assert(self.escrow.milestones_of(task_id)[base + j] == prev[base + j]);
                    }
                };
            }
            k = k + 1;
        }
        Ok((task_id, transfers))
    }
}


/// The payments of a reward split: recipient `k` gets `reward * shares[k]`
/// basis points (truncated), when that is positive.
pub open spec fn split_transfers(token: Address, from: Address, recipients: Seq<Address>, shares: Seq<u32>, reward: i128) -> Seq<Transfer>
    decreases recipients.len(),
{
    if recipients.len() == 0 || shares.len() < recipients.len() {
        Seq::empty()
    } else {
        let k = recipients.len() - 1;
        split_transfers(token, from, recipients.drop_last(), shares.take(k), reward)
            + payment(token, from, recipients.last(), trunc_div(reward * shares[k], 10000) as i128)
    }
}

/// Whether every share's product with `reward` fits in `i128`.
pub open spec fn split_fits(shares: Seq<u32>, reward: i128) -> bool {
    forall|k: int| 0 <= k < shares.len() ==> fits_i128(reward * #[trigger] shares[k])
}

impl TaskManagerContract {
    /// What `resolve_dispute_split` gives.
    pub open spec fn split_outcome(&self, task_id: u32, recipients: Seq<Address>, shares: Seq<u32>) -> Result<(), ContractError> {
        let t = self.task(task_id);
        if !self.has_task(task_id) {
            Err(ContractError::TaskNotFound)
        } else if t.status != TaskStatus::Disputed {
            Err(ContractError::TaskNotDisputed)
        } else if recipients.len() == 0 || recipients.len() != shares.len() || shares_total(shares) != 10000 {
            Err(ContractError::InvalidSplit)
        } else if !split_fits(shares, t.reward) {
            Err(ContractError::ArithmeticOverflow)
        } else if self.escrow.release_outcome(task_id, t.reward) is Err {
            self.escrow.release_outcome(task_id, t.reward)
        } else {
            Ok(())
        }
    }

    /// What a successful split leaves: the payments, the task resolved at
    /// `now`, its reward released from escrow, nothing else changed.
    pub open spec fn split_applied(&self, old: &Self, task_id: u32, recipients: Seq<Address>, shares: Seq<u32>, transfers: Seq<Transfer>, now: u64) -> bool {
        let t = old.task(task_id);
        &&& transfers == split_transfers(old.token_contract, old.contract_address, recipients, shares, t.reward)
        &&& self.tasks@ == old.tasks@.update(task_id - 1, Task { status: TaskStatus::Resolved, updated_at: now, ..t })
        &&& self.escrow.locked_of(task_id) == old.escrow.locked_of(task_id) - t.reward
        &&& Some(self.escrow.stats) == stats_after(old.escrow.stats, 0, t.reward, 0, 0, 1)
        &&& self.escrow.milestones == old.escrow.milestones
        &&& self.reputation == old.reputation
        &&& self.statistics == old.statistics
        &&& self.same_config(old)
    }

    /// Settle a disputed task by paying its reward out to `recipients` in
    /// `shares` (basis points adding up to 10000), releasing it from escrow.
    pub fn resolve_dispute_split(&mut self, task_id: u32, recipients: &Vec<Address>, shares: &Vec<u32>, now: u64) -> (r: Result<Vec<Transfer>, ContractError>)
        requires
            old(self).wf(),
        ensures
            final(self).wf(),
            match old(self).split_outcome(task_id, recipients@, shares@) {
                Err(e) => r == Err::<Vec<Transfer>, ContractError>(e),
                Ok(()) => r is Ok,
            },
            r is Err ==> *final(self) == *old(self),
            r matches Ok(transfers) ==> final(self).split_applied(old(self), task_id, recipients@, shares@, transfers@, now),
    {
        let idx = match self.task_index(task_id) {
            Ok(i) => i,
            Err(e) => return Err(e),
        };
        if self.tasks[idx].status != TaskStatus::Disputed {
            return Err(ContractError::TaskNotDisputed);
        }
        if recipients.len() == 0 || recipients.len() != shares.len() {
            return Err(ContractError::InvalidSplit);
        }
        let mut total: u64 = 0;
        let mut i: usize = 0;
        while i < shares.len()
            invariant
                0 <= i <= shares@.len(),
                shares@.len() == recipients@.len(),
                recipients@.len() > 0,
                total == shares_total(shares@.take(i as int)),
                total <= 10000 + 4294967295,
                self.wf(),
                *self == *old(self),
                idx == task_id - 1,
                idx < self.tasks@.len(),
                self.tasks@[idx as int].status == TaskStatus::Disputed,
            decreases shares@.len() - i,
        {
            proof {
                assert(shares@.take(i + 1).drop_last() == shares@.take(i as int));
            }
            if total > 10000 {
                proof {
                    crate::multisig::lemma_shares_total_grows(shares@, i as int);
                }
                return Err(ContractError::InvalidSplit);
            }
            total = total + shares[i] as u64;
            i = i + 1;
        }
        proof {
            assert(shares@.take(shares@.len() as int) == shares@);
        }
        if total != 10000 {
            return Err(ContractError::InvalidSplit);
        }
        let reward = self.tasks[idx].reward;
        let token = self.token_contract;
        let from = self.contract_address;
        let mut transfers: Vec<Transfer> = Vec::new();
        let mut k: usize = 0;
        while k < recipients.len()
            invariant
                0 <= k <= recipients@.len(),
                recipients@.len() == shares@.len(),
                transfers@ == split_transfers(token, from, recipients@.take(k as int), shares@.take(k as int), reward),
                forall|j: int| 0 <= j < k ==> fits_i128(reward * #[trigger] shares@[j]),
                recipients@.len() > 0,
                shares_total(shares@) == 10000,
                self.wf(),
                *self == *old(self),
                idx == task_id - 1,
                idx < self.tasks@.len(),
                self.tasks@[idx as int].status == TaskStatus::Disputed,
                reward == self.tasks@[idx as int].reward,
                token == self.token_contract,
                from == self.contract_address,
            decreases recipients@.len() - k,
        {
            proof {
                assert(recipients@.take(k + 1).drop_last() == recipients@.take(k as int));
                assert(shares@.take(k + 1).take(k as int) == shares@.take(k as int));
            }
            let product = match reward.checked_mul(shares[k] as i128) {
                Some(p) => p,
                None => {
                    proof {
                        assert(!fits_i128(reward * shares@[k as int]));
                    }
                    return Err(ContractError::ArithmeticOverflow);
                },
            };
            let amount = product / 10000;
            if amount > 0 {
                transfers.push(Transfer { token, from, to: recipients[k], amount });
            }
            k = k + 1;
        }
        proof {
            assert(recipients@.take(recipients@.len() as int) == recipients@);
            assert(shares@.take(shares@.len() as int) == shares@);
        }
        match self.escrow.release_escrow(task_id, reward) {
            Ok(()) => {},
            Err(e) => return Err(e),
        }
        self.tasks[idx].status = TaskStatus::Resolved;
        self.tasks[idx].updated_at = now;
        proof {
            assert(self.tasks@ =~= old(self).tasks@.update(task_id - 1, Task {
                status: TaskStatus::Resolved,
                updated_at: now,
                ..old(self).tasks@[task_id - 1]
            }));
            assert forall|i: int| 0 <= i < self.tasks@.len() implies (#[trigger] self.tasks@[i]).id == i + 1 by {
                if i != idx {
                    assert(self.tasks@[i] == old(self).tasks@[i]);
                }
            };
            assert forall|i: int| 0 <= i < old(self).tasks@.len() && i != task_id - 1 implies
                (#[trigger] self.tasks@[i]).reward == old(self).tasks@[i].reward
                && unsettled(self.tasks@[i].status) == unsettled(old(self).tasks@[i].status) by {
                assert(self.tasks@[i] == old(self).tasks@[i]);
            };
            TaskManagerContract::lemma_backing_settled(*old(self), *self, task_id);
        }
        Ok(transfers)
    }
}

} // verus!
