//! Emergency circuit breaker: per-action pauses, a global pause of every
//! action, and pauses of single actions for single users.

use vstd::prelude::*;
use crate::types::{Address, ContractError};
use crate::TaskManagerContract;

verus! {

#[derive(Clone, Copy, Debug, PartialEq, Eq, Structural)]
pub enum PauseState {
    NotPaused,
    Paused,
}

#[derive(Clone, Copy, Debug, PartialEq, Eq, Structural)]
pub enum PauseAction {
    CreateTask,
    AssignTask,
    SubmitWork,
    CompleteTask,
    CancelTask,
    DisputeTask,
    Withdraw,
    All,
}

/// The name under which an action is reported.
pub open spec fn pause_action_name(action: PauseAction) -> Seq<char> {
    match action {
        PauseAction::CreateTask => "create_task"@,
        PauseAction::AssignTask => "assign_task"@,
        PauseAction::SubmitWork => "submit_work"@,
        PauseAction::CompleteTask => "complete_task"@,
        PauseAction::CancelTask => "cancel_task"@,
        PauseAction::DisputeTask => "dispute_task"@,
        PauseAction::Withdraw => "withdraw"@,
        PauseAction::All => "all"@,
    }
}

/// The reported name of `action`.
pub fn format_pause_action(action: PauseAction) -> (r: String)
    ensures
        r@ == pause_action_name(action),
{
    match action {
        PauseAction::CreateTask => "create_task".to_owned(),
        PauseAction::AssignTask => "assign_task".to_owned(),
        PauseAction::SubmitWork => "submit_work".to_owned(),
        PauseAction::CompleteTask => "complete_task".to_owned(),
        PauseAction::CancelTask => "cancel_task".to_owned(),
        PauseAction::DisputeTask => "dispute_task".to_owned(),
        PauseAction::Withdraw => "withdraw".to_owned(),
        PauseAction::All => "all".to_owned(),
    }
}

/// Ledger storage keys of the pause flags.
#[derive(Clone, Copy, Debug, PartialEq, Eq, Structural)]
pub enum PauseKey {
    Action(PauseAction),
    UserPause(Address, PauseAction),
}

/// Slot of an action in the table of pause states.
pub open spec fn action_slot(a: PauseAction) -> int {
    match a {
        PauseAction::CreateTask => 0,
        PauseAction::AssignTask => 1,
        PauseAction::SubmitWork => 2,
        PauseAction::CompleteTask => 3,
        PauseAction::CancelTask => 4,
        PauseAction::DisputeTask => 5,
        PauseAction::Withdraw => 6,
        PauseAction::All => 7,
    }
}

fn slot_of(a: PauseAction) -> (r: usize)
    ensures
        r == action_slot(a),
{
    match a {
        PauseAction::CreateTask => 0,
        PauseAction::AssignTask => 1,
        PauseAction::SubmitWork => 2,
        PauseAction::CompleteTask => 3,
        PauseAction::CancelTask => 4,
        PauseAction::DisputeTask => 5,
        PauseAction::Withdraw => 6,
        PauseAction::All => 7,
    }
}

/// The seven real actions, in slot order (the `All` sentinel excluded).
pub fn all_actions() -> (r: Vec<PauseAction>)
    ensures
        r@.len() == 7,
        forall|i: int| 0 <= i < 7 ==> action_slot(#[trigger] r@[i]) == i,
{
    let mut v: Vec<PauseAction> = Vec::new();
    v.push(PauseAction::CreateTask);
    v.push(PauseAction::AssignTask);
    v.push(PauseAction::SubmitWork);
    v.push(PauseAction::CompleteTask);
    v.push(PauseAction::CancelTask);
    v.push(PauseAction::DisputeTask);
    v.push(PauseAction::Withdraw);
    v
}

/// Pause flags of the contract.
#[derive(Clone)]
pub struct PauseRegistry {
    pub states: Vec<PauseState>,
    pub user_pauses: Vec<(Address, PauseAction)>,
}

impl PauseRegistry {
    /// One state per action slot.
    pub open spec fn wf(&self) -> bool {
        self.states@.len() == 8
    }

    /// Stored state of `a` (for `All`: the global pause flag).
    pub open spec fn state_of(&self, a: PauseAction) -> PauseState {
        self.states@[action_slot(a)]
    }

    /// Whether `a` is paused for `user` alone.
    pub open spec fn user_paused(&self, user: Address, a: PauseAction) -> bool {
        self.user_pauses@.contains((user, a))
    }

    /// Whether `action` is refused: a global pause, a pause of the action,
    /// or a pause of the action for `user`.
    pub open spec fn paused_for(&self, action: PauseAction, user: Option<Address>) -> bool {
        ||| self.state_of(PauseAction::All) == PauseState::Paused
        ||| self.state_of(action) == PauseState::Paused
        ||| (user matches Some(u) && self.user_paused(u, action))
    }

    /// Nothing paused.
    pub fn new() -> (r: Self)
        ensures
            r.wf(),
            forall|a: PauseAction| r.state_of(a) == PauseState::NotPaused,
            forall|u: Address, a: PauseAction| !r.user_paused(u, a),
            r.user_pauses@.len() == 0,
    {
        let mut states: Vec<PauseState> = Vec::new();
        let mut i: usize = 0;
        while i < 8
            invariant
                0 <= i <= 8,
                states@.len() == i,
                forall|k: int| 0 <= k < i ==> states@[k] == PauseState::NotPaused,
            decreases 8 - i,
        {
            states.push(PauseState::NotPaused);
            i = i + 1;
        }
        PauseRegistry { states, user_pauses: Vec::new() }
    }

    /// Set the stored state of `action`.
    pub fn set_state(&mut self, action: PauseAction, state: PauseState)
        requires
            old(self).wf(),
        ensures
            final(self).wf(),
            final(self).states@ == old(self).states@.update(action_slot(action), state),
            final(self).user_pauses == old(self).user_pauses,
    {
        let i = slot_of(action);
        self.states.set(i, state);
    }

    /// Set every slot, the global flag included, to `state`.
    pub fn set_all(&mut self, state: PauseState)
        requires
            old(self).wf(),
        ensures
            final(self).wf(),
            forall|a: PauseAction| final(self).state_of(a) == state,
            final(self).user_pauses == old(self).user_pauses,
    {
        self.set_state(PauseAction::All, state);
        let actions = all_actions();
        let mut i: usize = 0;
        while i < 7
            invariant
                0 <= i <= 7,
                self.wf(),
                actions@.len() == 7,
                forall|k: int| 0 <= k < 7 ==> action_slot(#[trigger] actions@[k]) == k,
                self.states@[7] == state,
                forall|k: int| 0 <= k < i ==> self.states@[k] == state,
                self.user_pauses == old(self).user_pauses,
            decreases 7 - i,
        {
            self.set_state(actions[i], state);
            i = i + 1;
        }
        assert forall|a: PauseAction| self.state_of(a) == state by {
            assert(0 <= action_slot(a) < 8);
        };
    }

    /// Pause `action` for `user` only.
    pub fn add_user_pause(&mut self, user: Address, action: PauseAction)
        ensures
            final(self).states == old(self).states,
            forall|u: Address, a: PauseAction| final(self).user_paused(u, a) == (old(self).user_paused(u, a) || (u == user && a == action)),
    {
        if !self.has_user_pause(user, action) {
            self.user_pauses.push((user, action));
            assert forall|u: Address, a: PauseAction| self.user_paused(u, a) == (old(self).user_paused(u, a) || (u == user && a == action)) by {
                if old(self).user_paused(u, a) {
                    let k = choose|k: int| 0 <= k < old(self).user_pauses@.len() && old(self).user_pauses@[k] == (u, a);
                    assert(self.user_pauses@[k] == (u, a));
                }
                if u == user && a == action {
                    assert(self.user_pauses@[self.user_pauses@.len() - 1] == (u, a));
                }
                if self.user_paused(u, a) && !(u == user && a == action) {
                    let k = choose|k: int| 0 <= k < self.user_pauses@.len() && self.user_pauses@[k] == (u, a);
                    assert(old(self).user_pauses@[k] == (u, a));
                }
            };
        }
    }

    /// Lift the pause of `action` for `user`.
    pub fn remove_user_pause(&mut self, user: Address, action: PauseAction)
        ensures
            final(self).states == old(self).states,
            forall|u: Address, a: PauseAction| final(self).user_paused(u, a) == (old(self).user_paused(u, a) && !(u == user && a == action)),
    {
        let ghost before = self.user_pauses@;
        let mut kept: Vec<(Address, PauseAction)> = Vec::new();
        let mut i: usize = 0;
        while i < self.user_pauses.len()
            invariant
                0 <= i <= self.user_pauses@.len(),
                self.user_pauses@ == before,
                forall|k: int| 0 <= k < kept@.len() ==> before.contains(#[trigger] kept@[k]) && kept@[k] != (user, action),
                forall|k: int| 0 <= k < i && before[k] != (user, action) ==> kept@.contains(#[trigger] before[k]),
            decreases self.user_pauses@.len() - i,
        {
            let e = self.user_pauses[i];
            if !(e.0 == user && e.1 == action) {
                let ghost prev = kept@;
                kept.push(e);
                proof {
                    assert(kept@[kept@.len() - 1] == e);
                    assert forall|k: int| 0 <= k < i + 1 && before[k] != (user, action) implies kept@.contains(#[trigger] before[k]) by {
                        if k < i {
                            assert(prev.contains(before[k]));
                            let j = choose|j: int| 0 <= j < prev.len() && prev[j] == before[k];
                            assert(kept@[j] == before[k]);
                        } else {
                            assert(kept@[kept@.len() - 1] == before[k]);
                        }
                    };
                    assert forall|k: int| 0 <= k < kept@.len() implies before.contains(#[trigger] kept@[k]) && kept@[k] != (user, action) by {
                        if k < prev.len() {
                            assert(kept@[k] == prev[k]);
                        } else {
                            assert(before[i as int] == e);
                        }
                    };
                }
            }
            i = i + 1;
        }
        self.user_pauses = kept;
        assert forall|u: Address, a: PauseAction| self.user_paused(u, a) == (old(self).user_paused(u, a) && !(u == user && a == action)) by {
            if old(self).user_paused(u, a) && !(u == user && a == action) {
                let k = choose|k: int| 0 <= k < before.len() && before[k] == (u, a);
                assert(self.user_pauses@.contains(before[k]));
            }
            if self.user_paused(u, a) {
                let k = choose|k: int| 0 <= k < self.user_pauses@.len() && self.user_pauses@[k] == (u, a);
                assert(before.contains(self.user_pauses@[k]));
            }
        };
    }

    /// Whether `action` is paused for `user` specifically.
    pub fn has_user_pause(&self, user: Address, action: PauseAction) -> (r: bool)
        ensures
            r == self.user_paused(user, action),
    {
        let mut i: usize = 0;
        while i < self.user_pauses.len()
            invariant
                0 <= i <= self.user_pauses@.len(),
                forall|k: int| 0 <= k < i ==> self.user_pauses@[k] != (user, action),
            decreases self.user_pauses@.len() - i,
        {
            let e = self.user_pauses[i];
            if e.0 == user && e.1 == action {
                return true;
            }
            i = i + 1;
        }
        false
    }

    /// Whether the whole contract is suspended.
    pub fn is_globally_paused(&self) -> (r: bool)
        requires
            self.wf(),
        ensures
            r == (self.state_of(PauseAction::All) == PauseState::Paused),
    {
        self.states[7] == PauseState::Paused
    }

    /// Whether `action` is refused for `user`.
    pub fn is_paused(&self, action: PauseAction, user: Option<Address>) -> (r: bool)
        requires
            self.wf(),
        ensures
            r == self.paused_for(action, user),
    {
        if self.is_globally_paused() {
            return true;
        }
        if self.states[slot_of(action)] == PauseState::Paused {
            return true;
        }
        match user {
            Some(u) => self.has_user_pause(u, action),
            None => false,
        }
    }

    /// Refuse `action` for `user` when it is paused.
    pub fn require_not_paused(&self, action: PauseAction, user: Option<Address>) -> (r: Result<(), ContractError>)
        requires
            self.wf(),
        ensures
            r is Err <==> self.paused_for(action, user),
            r is Err ==> r == Err::<(), ContractError>(ContractError::ActionPaused),
    {
        if self.is_paused(action, user) {
            Err(ContractError::ActionPaused)
        } else {
            Ok(())
        }
    }

    /// The admin check of pause changes: `NotInitialized` without an admin,
    /// `NotAdmin` for anybody else.
    pub open spec fn pause_admin_outcome(caller: Address, admin: Option<Address>) -> Result<(), ContractError> {
        if admin is None {
            Err(ContractError::NotInitialized)
        } else if caller != admin->0 {
            Err(ContractError::NotAdmin)
        } else {
            Ok(())
        }
    }

    fn check_pause_admin(caller: Address, admin: Option<Address>) -> (r: Result<(), ContractError>)
        ensures
            r == Self::pause_admin_outcome(caller, admin),
    {
        match admin {
            None => Err(ContractError::NotInitialized),
            Some(a) => if caller != a { Err(ContractError::NotAdmin) } else { Ok(()) },
        }
    }

    /// The admin pauses `action` for everybody.
    pub fn pause(&mut self, caller: Address, admin: Option<Address>, action: PauseAction) -> (r: Result<(), ContractError>)
        requires
            old(self).wf(),
        ensures
            final(self).wf(),
            r == Self::pause_admin_outcome(caller, admin),
            r is Err ==> *final(self) == *old(self),
            r is Ok ==> final(self).states@ == old(self).states@.update(action_slot(action), PauseState::Paused)
                && final(self).user_pauses == old(self).user_pauses,
    {
        match Self::check_pause_admin(caller, admin) {
            Ok(()) => {},
            Err(e) => return Err(e),
        }
        self.set_state(action, PauseState::Paused);
        Ok(())
    }

    /// The admin lifts the pause of `action`.
    pub fn unpause(&mut self, caller: Address, admin: Option<Address>, action: PauseAction) -> (r: Result<(), ContractError>)
        requires
            old(self).wf(),
        ensures
            final(self).wf(),
            r == Self::pause_admin_outcome(caller, admin),
            r is Err ==> *final(self) == *old(self),
            r is Ok ==> final(self).states@ == old(self).states@.update(action_slot(action), PauseState::NotPaused)
                && final(self).user_pauses == old(self).user_pauses,
    {
        match Self::check_pause_admin(caller, admin) {
            Ok(()) => {},
            Err(e) => return Err(e),
        }
        self.set_state(action, PauseState::NotPaused);
        Ok(())
    }

    /// The admin suspends every action.
    pub fn pause_all(&mut self, caller: Address, admin: Option<Address>) -> (r: Result<(), ContractError>)
        requires
            old(self).wf(),
        ensures
            final(self).wf(),
            r == Self::pause_admin_outcome(caller, admin),
            r is Err ==> *final(self) == *old(self),
            r is Ok ==> (forall|a: PauseAction| final(self).state_of(a) == PauseState::Paused)
                && final(self).user_pauses == old(self).user_pauses,
    {
        match Self::check_pause_admin(caller, admin) {
            Ok(()) => {},
            Err(e) => return Err(e),
        }
        self.set_all(PauseState::Paused);
        Ok(())
    }

    /// The admin lifts every action-wide pause (user pauses stay).
    pub fn unpause_all(&mut self, caller: Address, admin: Option<Address>) -> (r: Result<(), ContractError>)
        requires
            old(self).wf(),
        ensures
            final(self).wf(),
            r == Self::pause_admin_outcome(caller, admin),
            r is Err ==> *final(self) == *old(self),
            r is Ok ==> (forall|a: PauseAction| final(self).state_of(a) == PauseState::NotPaused)
                && final(self).user_pauses == old(self).user_pauses,
    {
        match Self::check_pause_admin(caller, admin) {
            Ok(()) => {},
            Err(e) => return Err(e),
        }
        self.set_all(PauseState::NotPaused);
        Ok(())
    }

    /// The admin pauses `action` for `user` only.
    pub fn pause_for_user(&mut self, caller: Address, admin: Option<Address>, user: Address, action: PauseAction) -> (r: Result<(), ContractError>)
        requires
            old(self).wf(),
        ensures
            final(self).wf(),
            r == Self::pause_admin_outcome(caller, admin),
            r is Err ==> *final(self) == *old(self),
            r is Ok ==> final(self).states == old(self).states
                && forall|u: Address, a: PauseAction| final(self).user_paused(u, a) == (old(self).user_paused(u, a) || (u == user && a == action)),
    {
        match Self::check_pause_admin(caller, admin) {
            Ok(()) => {},
            Err(e) => return Err(e),
        }
        self.add_user_pause(user, action);
        Ok(())
    }

    /// The admin lifts the pause of `action` for `user`.
    pub fn unpause_for_user(&mut self, caller: Address, admin: Option<Address>, user: Address, action: PauseAction) -> (r: Result<(), ContractError>)
        requires
            old(self).wf(),
        ensures
            final(self).wf(),
            r == Self::pause_admin_outcome(caller, admin),
            r is Err ==> *final(self) == *old(self),
            r is Ok ==> final(self).states == old(self).states
                && forall|u: Address, a: PauseAction| final(self).user_paused(u, a) == (old(self).user_paused(u, a) && !(u == user && a == action)),
    {
        match Self::check_pause_admin(caller, admin) {
            Ok(()) => {},
            Err(e) => return Err(e),
        }
        self.remove_user_pause(user, action);
        Ok(())
    }
}

impl TaskManagerContract {
    /// The contract admin pauses `action` for everybody.
    pub fn pause(&mut self, caller: Address, action: PauseAction) -> (r: Result<(), ContractError>)
        requires
            old(self).wf(),
        ensures
            final(self).wf(),
            r == PauseRegistry::pause_admin_outcome(caller, old(self).admin_opt()),
            r is Err ==> *final(self) == *old(self),
            *final(self) == (TaskManagerContract { pauses: final(self).pauses, ..*old(self) }),
            r is Ok ==> final(self).pauses.states@ == old(self).pauses.states@.update(action_slot(action), PauseState::Paused)
                && final(self).pauses.user_pauses == old(self).pauses.user_pauses,
    {
        let admin = self.get_admin();
        self.pauses.pause(caller, admin, action)
    }

    /// The contract admin lifts the pause of `action`.
    pub fn unpause(&mut self, caller: Address, action: PauseAction) -> (r: Result<(), ContractError>)
        requires
            old(self).wf(),
        ensures
            final(self).wf(),
            r == PauseRegistry::pause_admin_outcome(caller, old(self).admin_opt()),
            r is Err ==> *final(self) == *old(self),
            *final(self) == (TaskManagerContract { pauses: final(self).pauses, ..*old(self) }),
            r is Ok ==> final(self).pauses.states@ == old(self).pauses.states@.update(action_slot(action), PauseState::NotPaused)
                && final(self).pauses.user_pauses == old(self).pauses.user_pauses,
    {
        let admin = self.get_admin();
        self.pauses.unpause(caller, admin, action)
    }

    /// The contract admin suspends every action.
    pub fn pause_all(&mut self, caller: Address) -> (r: Result<(), ContractError>)
        requires
            old(self).wf(),
        ensures
            final(self).wf(),
            r == PauseRegistry::pause_admin_outcome(caller, old(self).admin_opt()),
            r is Err ==> *final(self) == *old(self),
            *final(self) == (TaskManagerContract { pauses: final(self).pauses, ..*old(self) }),
            r is Ok ==> (forall|a: PauseAction| final(self).pauses.state_of(a) == PauseState::Paused)
                && final(self).pauses.user_pauses == old(self).pauses.user_pauses,
    {
        let admin = self.get_admin();
        self.pauses.pause_all(caller, admin)
    }

    /// The contract admin lifts every action-wide pause.
    pub fn unpause_all(&mut self, caller: Address) -> (r: Result<(), ContractError>)
        requires
            old(self).wf(),
        ensures
            final(self).wf(),
            r == PauseRegistry::pause_admin_outcome(caller, old(self).admin_opt()),
            r is Err ==> *final(self) == *old(self),
            *final(self) == (TaskManagerContract { pauses: final(self).pauses, ..*old(self) }),
            r is Ok ==> (forall|a: PauseAction| final(self).pauses.state_of(a) == PauseState::NotPaused)
                && final(self).pauses.user_pauses == old(self).pauses.user_pauses,
    {
        let admin = self.get_admin();
        self.pauses.unpause_all(caller, admin)
    }
}

} // verus!
