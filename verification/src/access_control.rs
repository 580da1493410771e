//! Role registry: the admin grants each user one role at a time and revokes
//! it; each role keeps the list of users it was granted to.

use vstd::prelude::*;
use std::collections::HashMap;
use crate::types::{Address, ContractError};
use crate::TaskManagerContract;

verus! {

broadcast use vstd::std_specs::hash::group_hash_axioms;

#[derive(Clone, Copy, Debug, PartialEq, Eq, Structural)]
pub enum Role {
    Admin,
    Manager,
    Moderator,
    Verifier,
    /// May veto a pending contract upgrade during its timelock.
    Guardian,
}

/// The name under which a role is reported.
pub open spec fn role_name(role: Role) -> Seq<char> {
    match role {
        Role::Admin => "Admin"@,
        Role::Manager => "Manager"@,
        Role::Moderator => "Moderator"@,
        Role::Verifier => "Verifier"@,
        Role::Guardian => "Guardian"@,
    }
}

/// The reported name of `role`.
pub fn format_role(role: Role) -> (r: String)
    ensures
        r@ == role_name(role),
{
    match role {
        Role::Admin => "Admin".to_owned(),
        Role::Manager => "Manager".to_owned(),
        Role::Moderator => "Moderator".to_owned(),
        Role::Verifier => "Verifier".to_owned(),
        Role::Guardian => "Guardian".to_owned(),
    }
}

#[derive(Clone, Copy, Debug, PartialEq, Eq, Structural)]
pub struct RoleData {
    pub role: Role,
    pub granted_at: u64,
    pub granted_by: Address,
}

/// Ledger storage keys of the role records.
#[derive(Clone, Copy, Debug, PartialEq, Eq, Structural)]
pub enum AccessControlKey {
    Role(Address),
    RoleMembers(Role),
    Admin,
}

/// The admin check of role changes: `NotInitialized` without an admin,
/// `NotAdmin` for anybody else.
pub open spec fn role_admin_outcome(caller: Address, admin: Option<Address>) -> Result<(), ContractError> {
    if admin is None {
        Err(ContractError::NotInitialized)
    } else if caller != admin->0 {
        Err(ContractError::NotAdmin)
    } else {
        Ok(())
    }
}

/// `list` with `user` appended unless already there.
pub open spec fn with_member(list: Seq<Address>, user: Address) -> Seq<Address> {
    if list.contains(user) { list } else { list.push(user) }
}

/// `list` without `user`.
pub open spec fn without_member(list: Seq<Address>, user: Address) -> Seq<Address> {
    list.filter(|m: Address| m != user)
}

fn add_member(list: &mut Vec<Address>, user: Address)
    ensures
        final(list)@ == with_member(old(list)@, user),
{
    let mut i: usize = 0;
    while i < list.len()
        invariant
            0 <= i <= list@.len(),
            list@ == old(list)@,
            forall|k: int| 0 <= k < i ==> list@[k] != user,
        decreases list@.len() - i,
    {
        if list[i] == user {
            return;
        }
        i = i + 1;
    }
    list.push(user);
}

fn remove_member(list: &mut Vec<Address>, user: Address)
    ensures
        final(list)@ == without_member(old(list)@, user),
{
    let mut kept: Vec<Address> = Vec::new();
    let mut i: usize = 0;
    while i < list.len()
        invariant
            0 <= i <= list@.len(),
            list@ == old(list)@,
            kept@ == without_member(list@.take(i as int), user),
        decreases list@.len() - i,
    {
        proof {
            reveal_with_fuel(Seq::filter, 1);
            assert(list@.take(i + 1).drop_last() == list@.take(i as int));
        }
        let m = list[i];
        if m != user {
            kept.push(m);
        }
        i = i + 1;
    }
    proof {
        assert(list@.take(list@.len() as int) == list@);
    }
    *list = kept;
}

/// Each user's role and the members recorded for each role.
#[derive(Clone)]
pub struct AccessControl {
    pub roles: HashMap<Address, RoleData>,
    pub admins: Vec<Address>,
    pub managers: Vec<Address>,
    pub moderators: Vec<Address>,
    pub verifiers: Vec<Address>,
    pub guardians: Vec<Address>,
}

impl AccessControl {
    /// Users recorded as members of `role`.
    pub open spec fn members_of(&self, role: Role) -> Seq<Address> {
        match role {
            Role::Admin => self.admins@,
            Role::Manager => self.managers@,
            Role::Moderator => self.moderators@,
            Role::Verifier => self.verifiers@,
            Role::Guardian => self.guardians@,
        }
    }

    /// Whether `user` currently holds `role`.
    pub open spec fn holds(&self, user: Address, role: Role) -> bool {
        self.roles@.contains_key(user) && self.roles@[user].role == role
    }

    pub fn new() -> (r: Self)
        ensures
            r.roles@ == Map::<Address, RoleData>::empty(),
            forall|role: Role| r.members_of(role).len() == 0,
    {
        AccessControl {
            roles: HashMap::new(),
            admins: Vec::new(),
            managers: Vec::new(),
            moderators: Vec::new(),
            verifiers: Vec::new(),
            guardians: Vec::new(),
        }
    }

    /// The admin grants `role` to `user` at `now`, replacing any role the
    /// user held; the user joins the role's member list once.
    pub fn grant_role(&mut self, caller: Address, admin: Option<Address>, user: Address, role: Role, now: u64) -> (r: Result<(), ContractError>)
        ensures
            r == role_admin_outcome(caller, admin),
            r is Err ==> *final(self) == *old(self),
            r is Ok ==> {
                &&& final(self).roles@ == old(self).roles@.insert(user, RoleData { role, granted_at: now, granted_by: caller })
                &&& final(self).members_of(role) == with_member(old(self).members_of(role), user)
                &&& forall|other: Role| other != role ==> final(self).members_of(other) == old(self).members_of(other)
            },
    {
        match admin {
            None => return Err(ContractError::NotInitialized),
            Some(a) => {
                if caller != a {
                    return Err(ContractError::NotAdmin);
                }
            },
        }
        self.roles.insert(user, RoleData { role, granted_at: now, granted_by: caller });
        match role {
            Role::Admin => add_member(&mut self.admins, user),
            Role::Manager => add_member(&mut self.managers, user),
            Role::Moderator => add_member(&mut self.moderators, user),
            Role::Verifier => add_member(&mut self.verifiers, user),
            Role::Guardian => add_member(&mut self.guardians, user),
        }
        Ok(())
    }

    /// The admin revokes `user`'s role, if any: the user leaves that role's
    /// member list.
    pub fn revoke_role(&mut self, caller: Address, admin: Option<Address>, user: Address) -> (r: Result<(), ContractError>)
        ensures
            r == role_admin_outcome(caller, admin),
            r is Err ==> *final(self) == *old(self),
            r is Ok ==> {
                &&& final(self).roles@ == old(self).roles@.remove(user)
                &&& old(self).roles@.contains_key(user) ==> {
                    let role = old(self).roles@[user].role;
                    &&& final(self).members_of(role) == without_member(old(self).members_of(role), user)
                    &&& forall|other: Role| other != role ==> final(self).members_of(other) == old(self).members_of(other)
                }
                &&& !old(self).roles@.contains_key(user) ==> forall|other: Role| final(self).members_of(other) == old(self).members_of(other)
            },
    {
        match admin {
            None => return Err(ContractError::NotInitialized),
            Some(a) => {
                if caller != a {
                    return Err(ContractError::NotAdmin);
                }
            },
        }
        let held = match self.roles.get(&user) {
            Some(d) => Some(d.role),
            None => None,
        };
        match held {
            Some(role) => {
                match role {
                    Role::Admin => remove_member(&mut self.admins, user),
                    Role::Manager => remove_member(&mut self.managers, user),
                    Role::Moderator => remove_member(&mut self.moderators, user),
                    Role::Verifier => remove_member(&mut self.verifiers, user),
                    Role::Guardian => remove_member(&mut self.guardians, user),
                }
                self.roles.remove(&user);
            },
            None => {
                proof {
                    assert(self.roles@ =~= old(self).roles@.remove(user));
                }
            },
        }
        Ok(())
    }

    /// Whether `user` holds `role`.
    pub fn has_role(&self, user: Address, role: Role) -> (r: bool)
        ensures
            r == self.holds(user, role),
    {
        match self.roles.get(&user) {
            Some(d) => d.role == role,
            None => false,
        }
    }

    /// `user`'s role record, if any.
    pub fn get_role(&self, user: Address) -> (r: Option<RoleData>)
        ensures
            r == (if self.roles@.contains_key(user) { Some(self.roles@[user]) } else { None::<RoleData> }),
    {
        match self.roles.get(&user) {
            Some(d) => Some(*d),
            None => None,
        }
    }

    /// Refuse unless `user` holds `role`.
    pub fn require_role(&self, user: Address, role: Role) -> (r: Result<(), ContractError>)
        ensures
            r is Ok <==> self.holds(user, role),
            r is Err ==> r == Err::<(), ContractError>(ContractError::RoleNotFound),
    {
        if self.has_role(user, role) { Ok(()) } else { Err(ContractError::RoleNotFound) }
    }

    /// Users recorded as members of `role`.
    pub fn get_role_members(&self, role: Role) -> (r: &Vec<Address>)
        ensures
            r@ == self.members_of(role),
    {
        match role {
            Role::Admin => &self.admins,
            Role::Manager => &self.managers,
            Role::Moderator => &self.moderators,
            Role::Verifier => &self.verifiers,
            Role::Guardian => &self.guardians,
        }
    }
}

impl TaskManagerContract {
    /// The contract admin grants `role` to `user` at `now`.
    pub fn grant_role(&mut self, caller: Address, user: Address, role: Role, now: u64) -> (r: Result<(), ContractError>)
        requires
            old(self).wf(),
        ensures
            final(self).wf(),
            r == role_admin_outcome(caller, old(self).admin_opt()),
            r is Err ==> *final(self) == *old(self),
            *final(self) == (TaskManagerContract { access: final(self).access, ..*old(self) }),
            r is Ok ==> {
                &&& final(self).access.roles@ == old(self).access.roles@.insert(user, RoleData { role, granted_at: now, granted_by: caller })
                &&& final(self).access.members_of(role) == with_member(old(self).access.members_of(role), user)
                &&& forall|other: Role| other != role ==> final(self).access.members_of(other) == old(self).access.members_of(other)
            },
    {
        let admin = self.get_admin();
        self.access.grant_role(caller, admin, user, role, now)
    }

    /// The contract admin revokes `user`'s role, if any.
    pub fn revoke_role(&mut self, caller: Address, user: Address) -> (r: Result<(), ContractError>)
        requires
            old(self).wf(),
        ensures
            final(self).wf(),
            r == role_admin_outcome(caller, old(self).admin_opt()),
            r is Err ==> *final(self) == *old(self),
            *final(self) == (TaskManagerContract { access: final(self).access, ..*old(self) }),
            r is Ok ==> {
                &&& final(self).access.roles@ == old(self).access.roles@.remove(user)
                &&& old(self).access.roles@.contains_key(user) ==> {
                    let role = old(self).access.roles@[user].role;
                    &&& final(self).access.members_of(role) == without_member(old(self).access.members_of(role), user)
                    &&& forall|other: Role| other != role ==> final(self).access.members_of(other) == old(self).access.members_of(other)
                }
                &&& !old(self).access.roles@.contains_key(user)
                    ==> forall|other: Role| final(self).access.members_of(other) == old(self).access.members_of(other)
            },
    {
        let admin = self.get_admin();
        self.access.revoke_role(caller, admin, user)
    }

    /// Whether `user` holds `role`.
    pub fn has_role(&self, user: Address, role: Role) -> (r: bool)
        ensures
            r == self.access.holds(user, role),
    {
        self.access.has_role(user, role)
    }
}

} // verus!
