//! User profiles: one per address, with a username, bio, avatar, a
//! contribution reputation, completed-task count and lifetime earnings.

use vstd::prelude::*;
use std::collections::HashMap;
use crate::types::{Address, ContractError};
use crate::TaskManagerContract;

verus! {

broadcast use vstd::std_specs::hash::group_hash_axioms;

/// Reputation a new profile starts with.
pub const STARTING_PROFILE_REPUTATION: u32 = 100;

#[derive(Clone, Debug)]
pub struct UserProfile {
    pub address: Address,
    pub username: String,
    pub reputation: u32,
    pub completed_tasks: u32,
    pub joined_at: u64,
    pub bio: String,
    pub avatar_url: Option<String>,
    pub total_earnings: i128,
    pub last_updated: u64,
}

/// `a` plus `b`, stopping at the largest `u32`.
pub open spec fn sat_add_u32(a: u32, b: u32) -> u32 {
    if a + b > u32::MAX { u32::MAX } else { (a + b) as u32 }
}

/// `a` minus `b`, stopping at zero.
pub open spec fn sat_sub_u32(a: u32, b: u32) -> u32 {
    if a < b { 0 } else { (a - b) as u32 }
}

/// `a` plus `b`, stopping at the bounds of `i128`.
pub open spec fn sat_add_i128(a: i128, b: i128) -> i128 {
    if a + b > i128::MAX { i128::MAX } else if a + b < i128::MIN { i128::MIN } else { (a + b) as i128 }
}

/// The profile of every user who created one.
#[derive(Clone)]
pub struct ProfileBook {
    pub profiles: HashMap<Address, UserProfile>,
}

impl ProfileBook {
    pub open spec fn has_profile(&self, user: Address) -> bool {
        self.profiles@.contains_key(user)
    }

    pub open spec fn profile(&self, user: Address) -> UserProfile {
        self.profiles@[user]
    }

    pub fn new() -> (r: Self)
        ensures
            r.profiles@ == Map::<Address, UserProfile>::empty(),
    {
        ProfileBook { profiles: HashMap::new() }
    }

    /// `user` creates their profile at `now`, once.
    pub fn create_profile(&mut self, user: Address, username: String, bio: String, now: u64) -> (r: Result<(), ContractError>)
        ensures
            r is Err <==> old(self).has_profile(user),
            r is Err ==> r == Err::<(), ContractError>(ContractError::ProfileExists) && *final(self) == *old(self),
            r is Ok ==> {
                let p = final(self).profile(user);
                &&& final(self).profiles@.dom() == old(self).profiles@.dom().insert(user)
                &&& forall|u: Address| u != user && old(self).has_profile(u) ==> final(self).profile(u) == old(self).profile(u)
                &&& p.address == user && p.username@ == username@ && p.bio@ == bio@
                &&& p.reputation == STARTING_PROFILE_REPUTATION && p.completed_tasks == 0
                &&& p.joined_at == now && p.last_updated == now
                &&& p.avatar_url is None && p.total_earnings == 0
            },
    {
        if self.profiles.contains_key(&user) {
            return Err(ContractError::ProfileExists);
        }
        let profile = UserProfile {
            address: user,
            username,
            reputation: STARTING_PROFILE_REPUTATION,
            completed_tasks: 0,
            joined_at: now,
            bio,
            avatar_url: None,
            total_earnings: 0,
            last_updated: now,
        };
        self.profiles.insert(user, profile);
        Ok(())
    }

    /// `user` replaces their bio.
    pub fn update_bio(&mut self, user: Address, new_bio: String, now: u64) -> (r: Result<(), ContractError>)
        ensures
            r is Err <==> !old(self).has_profile(user),
            r is Err ==> r == Err::<(), ContractError>(ContractError::ProfileNotFound) && *final(self) == *old(self),
            r is Ok ==> final(self).profiles@ == old(self).profiles@.insert(user,
                UserProfile { bio: new_bio, last_updated: now, ..old(self).profile(user) }),
    {
        if !self.profiles.contains_key(&user) {
            return Err(ContractError::ProfileNotFound);
        }
        let mut p = match self.profiles.remove(&user) {
            Some(p) => p,
            None => {
                assert(false);
                return Err(ContractError::ProfileNotFound);
            },
        };
        p.bio = new_bio;
        p.last_updated = now;
        self.profiles.insert(user, p);
        proof {
            assert(self.profiles@ =~= old(self).profiles@.insert(user,
                UserProfile { bio: new_bio, last_updated: now, ..old(self).profile(user) }));
        }
        Ok(())
    }

    /// `user` replaces their username.
    pub fn update_username(&mut self, user: Address, new_username: String, now: u64) -> (r: Result<(), ContractError>)
        ensures
            r is Err <==> !old(self).has_profile(user),
            r is Err ==> r == Err::<(), ContractError>(ContractError::ProfileNotFound) && *final(self) == *old(self),
            r is Ok ==> final(self).profiles@ == old(self).profiles@.insert(user,
                UserProfile { username: new_username, last_updated: now, ..old(self).profile(user) }),
    {
        if !self.profiles.contains_key(&user) {
            return Err(ContractError::ProfileNotFound);
        }
        let mut p = match self.profiles.remove(&user) {
            Some(p) => p,
            None => {
                assert(false);
                return Err(ContractError::ProfileNotFound);
            },
        };
        p.username = new_username;
        p.last_updated = now;
        self.profiles.insert(user, p);
        proof {
            assert(self.profiles@ =~= old(self).profiles@.insert(user,
                UserProfile { username: new_username, last_updated: now, ..old(self).profile(user) }));
        }
        Ok(())
    }

    /// `user` sets their avatar.
    pub fn update_avatar(&mut self, user: Address, avatar_url: String, now: u64) -> (r: Result<(), ContractError>)
        ensures
            r is Err <==> !old(self).has_profile(user),
            r is Err ==> r == Err::<(), ContractError>(ContractError::ProfileNotFound) && *final(self) == *old(self),
            r is Ok ==> final(self).profiles@ == old(self).profiles@.insert(user,
                UserProfile { avatar_url: Some(avatar_url), last_updated: now, ..old(self).profile(user) }),
    {
        if !self.profiles.contains_key(&user) {
            return Err(ContractError::ProfileNotFound);
        }
        let mut p = match self.profiles.remove(&user) {
            Some(p) => p,
            None => {
                assert(false);
                return Err(ContractError::ProfileNotFound);
            },
        };
        p.avatar_url = Some(avatar_url);
        p.last_updated = now;
        self.profiles.insert(user, p);
        proof {
            assert(self.profiles@ =~= old(self).profiles@.insert(user,
                UserProfile { avatar_url: Some(avatar_url), last_updated: now, ..old(self).profile(user) }));
        }
        Ok(())
    }

    /// The admin rewards `user`'s contribution: reputation grows by `points`
    /// (saturating) and one more completed task is counted.
    pub fn reward_contribution(&mut self, caller: Address, admin: Option<Address>, user: Address, points: u32, now: u64) -> (r: Result<(), ContractError>)
        ensures
            admin is None ==> r == Err::<(), ContractError>(ContractError::NotInitialized),
            admin matches Some(a) && caller != a ==> r == Err::<(), ContractError>(ContractError::NotAdmin),
            admin == Some(caller) && !old(self).has_profile(user) ==> r == Err::<(), ContractError>(ContractError::ProfileNotFound),
            admin == Some(caller) && old(self).has_profile(user) && old(self).profile(user).completed_tasks == u32::MAX
                ==> r == Err::<(), ContractError>(ContractError::ArithmeticOverflow),
            r is Ok <==> admin == Some(caller) && old(self).has_profile(user) && old(self).profile(user).completed_tasks < u32::MAX,
            r is Err ==> *final(self) == *old(self),
            r is Ok ==> {
                let o = old(self).profile(user);
                final(self).profiles@ == old(self).profiles@.insert(user, UserProfile {
                    reputation: sat_add_u32(o.reputation, points),
                    completed_tasks: (o.completed_tasks + 1) as u32,
                    last_updated: now,
                    ..o
                })
            },
    {
        match admin {
            None => return Err(ContractError::NotInitialized),
            Some(a) => {
                if caller != a {
                    return Err(ContractError::NotAdmin);
                }
            },
        }
        match self.profiles.get(&user) {
            Some(p) => {
                if p.completed_tasks == u32::MAX {
                    return Err(ContractError::ArithmeticOverflow);
                }
            },
            None => return Err(ContractError::ProfileNotFound),
        }
        let mut p = match self.profiles.remove(&user) {
            Some(p) => p,
            None => {
                assert(false);
                return Err(ContractError::ProfileNotFound);
            },
        };
        p.reputation = p.reputation.saturating_add(points);
        p.completed_tasks = p.completed_tasks + 1;
        p.last_updated = now;
        self.profiles.insert(user, p);
        proof {
            let o = old(self).profile(user);
            assert(self.profiles@ =~= old(self).profiles@.insert(user, UserProfile {
                reputation: sat_add_u32(o.reputation, points),
                completed_tasks: (o.completed_tasks + 1) as u32,
                last_updated: now,
                ..o
            }));
        }
        Ok(())
    }

    /// Add `amount` (saturating) to `user`'s lifetime earnings, if they have
    /// a profile; otherwise nothing changes.
    pub fn record_earnings(&mut self, user: Address, amount: i128, now: u64)
        ensures
            !old(self).has_profile(user) ==> *final(self) == *old(self),
            old(self).has_profile(user) ==> {
                let o = old(self).profile(user);
                final(self).profiles@ == old(self).profiles@.insert(user, UserProfile {
                    total_earnings: sat_add_i128(o.total_earnings, amount),
                    last_updated: now,
                    ..o
                })
            },
    {
        if !self.profiles.contains_key(&user) {
            return;
        }
        let mut p = match self.profiles.remove(&user) {
            Some(p) => p,
            None => {
                assert(false);
                return;
            },
        };
        p.total_earnings = match p.total_earnings.checked_add(amount) {
            Some(v) => v,
            None => if amount > 0 { i128::MAX } else { i128::MIN },
        };
        p.last_updated = now;
        self.profiles.insert(user, p);
        proof {
            let o = old(self).profile(user);
            assert(self.profiles@ =~= old(self).profiles@.insert(user, UserProfile {
                total_earnings: sat_add_i128(o.total_earnings, amount),
                last_updated: now,
                ..o
            }));
        }
    }

    /// The admin lowers `user`'s reputation by `penalty`, not below zero.
    pub fn slash_reputation(&mut self, caller: Address, admin: Option<Address>, user: Address, penalty: u32, now: u64) -> (r: Result<(), ContractError>)
        ensures
            admin is None ==> r == Err::<(), ContractError>(ContractError::NotInitialized),
            admin matches Some(a) && caller != a ==> r == Err::<(), ContractError>(ContractError::NotAdmin),
            admin == Some(caller) && !old(self).has_profile(user) ==> r == Err::<(), ContractError>(ContractError::ProfileNotFound),
            r is Ok <==> admin == Some(caller) && old(self).has_profile(user),
            r is Err ==> *final(self) == *old(self),
            r is Ok ==> {
                let o = old(self).profile(user);
                final(self).profiles@ == old(self).profiles@.insert(user, UserProfile {
                    reputation: sat_sub_u32(o.reputation, penalty),
                    last_updated: now,
                    ..o
                })
            },
    {
        match admin {
            None => return Err(ContractError::NotInitialized),
            Some(a) => {
                if caller != a {
                    return Err(ContractError::NotAdmin);
                }
            },
        }
        if !self.profiles.contains_key(&user) {
            return Err(ContractError::ProfileNotFound);
        }
        let mut p = match self.profiles.remove(&user) {
            Some(p) => p,
            None => {
                assert(false);
                return Err(ContractError::ProfileNotFound);
            },
        };
        p.reputation = p.reputation.saturating_sub(penalty);
        p.last_updated = now;
        self.profiles.insert(user, p);
        proof {
            let o = old(self).profile(user);
            assert(self.profiles@ =~= old(self).profiles@.insert(user, UserProfile {
                reputation: sat_sub_u32(o.reputation, penalty),
                last_updated: now,
                ..o
            }));
        }
        Ok(())
    }

    /// `user`'s profile, if any.
    pub fn get_profile(&self, user: Address) -> (r: Option<&UserProfile>)
        ensures
            r is None <==> !self.has_profile(user),
            r matches Some(p) ==> *p == self.profile(user),
    {
        self.profiles.get(&user)
    }
}

impl TaskManagerContract {
    /// `user` creates their profile at `now`, once.
    pub fn create_profile(&mut self, user: Address, username: String, bio: String, now: u64) -> (r: Result<(), ContractError>)
        requires
            old(self).wf(),
        ensures
            final(self).wf(),
            r is Err <==> old(self).profiles.has_profile(user),
            r is Err ==> r == Err::<(), ContractError>(ContractError::ProfileExists) && *final(self) == *old(self),
            *final(self) == (TaskManagerContract { profiles: final(self).profiles, ..*old(self) }),
            r is Ok ==> {
                let p = final(self).profiles.profile(user);
                &&& final(self).profiles.profiles@.dom() == old(self).profiles.profiles@.dom().insert(user)
                &&& forall|u: Address| u != user && old(self).profiles.has_profile(u)
                    ==> final(self).profiles.profile(u) == old(self).profiles.profile(u)
                &&& p.address == user && p.username@ == username@ && p.bio@ == bio@
                &&& p.reputation == STARTING_PROFILE_REPUTATION && p.completed_tasks == 0
                &&& p.joined_at == now && p.last_updated == now
                &&& p.avatar_url is None && p.total_earnings == 0
            },
    {
        self.profiles.create_profile(user, username, bio, now)
    }

    /// `user` replaces their bio.
    pub fn update_bio(&mut self, user: Address, new_bio: String, now: u64) -> (r: Result<(), ContractError>)
        requires
            old(self).wf(),
        ensures
            final(self).wf(),
            r is Err <==> !old(self).profiles.has_profile(user),
            r is Err ==> r == Err::<(), ContractError>(ContractError::ProfileNotFound) && *final(self) == *old(self),
            *final(self) == (TaskManagerContract { profiles: final(self).profiles, ..*old(self) }),
            r is Ok ==> final(self).profiles.profiles@ == old(self).profiles.profiles@.insert(user,
                UserProfile { bio: new_bio, last_updated: now, ..old(self).profiles.profile(user) }),
    {
        self.profiles.update_bio(user, new_bio, now)
    }

    /// The contract admin rewards `user`'s contribution with `points` of
    /// profile reputation (saturating) and one more completed task.
    pub fn reward_contribution(&mut self, caller: Address, user: Address, points: u32, now: u64) -> (r: Result<(), ContractError>)
        requires
            old(self).wf(),
        ensures
            final(self).wf(),
            !old(self).initialized ==> r == Err::<(), ContractError>(ContractError::NotInitialized),
            old(self).initialized && caller != old(self).admin ==> r == Err::<(), ContractError>(ContractError::NotAdmin),
            old(self).initialized && caller == old(self).admin && !old(self).profiles.has_profile(user)
                ==> r == Err::<(), ContractError>(ContractError::ProfileNotFound),
            r is Ok <==> old(self).initialized && caller == old(self).admin && old(self).profiles.has_profile(user)
                && old(self).profiles.profile(user).completed_tasks < u32::MAX,
            r is Err ==> *final(self) == *old(self),
            *final(self) == (TaskManagerContract { profiles: final(self).profiles, ..*old(self) }),
            r is Ok ==> {
                let o = old(self).profiles.profile(user);
                final(self).profiles.profiles@ == old(self).profiles.profiles@.insert(user, UserProfile {
                    reputation: sat_add_u32(o.reputation, points),
                    completed_tasks: (o.completed_tasks + 1) as u32,
                    last_updated: now,
                    ..o
                })
            },
    {
        let admin = self.get_admin();
        self.profiles.reward_contribution(caller, admin, user, points, now)
    }

    /// `user`'s profile, if any.
    pub fn get_profile(&self, user: Address) -> (r: Option<&UserProfile>)
        ensures
            r is None <==> !self.profiles.has_profile(user),
            r matches Some(p) ==> *p == self.profiles.profile(user),
    {
        self.profiles.get_profile(user)
    }
}

} // verus!
