//! Dual-state storage records: TTL tiers, contract statistics, task
//! categories and the short-lived records (active assignments, session
//! nonces, cached submission URLs).

use vstd::prelude::*;
use std::collections::HashMap;
use crate::types::{Address, ContractError};

verus! {

broadcast use vstd::std_specs::hash::group_hash_axioms;

/// Maximum TTL for persistent storage (~31 days at 5s ledger close time).
pub const MAX_PERSISTENT_TTL: u32 = 5_200_000;

/// Default TTL for persistent storage (~24 days).
pub const DEFAULT_PERSISTENT_TTL: u32 = 2_073_600;

/// TTL for temporary storage (~7 days).
pub const TEMP_STORAGE_TTL: u32 = 120_960;

/// TTL for session/nonce data (~1 day).
pub const SESSION_TTL: u32 = 17_280;

/// TTL threshold for triggering extensions.
pub const TTL_EXTENSION_THRESHOLD: u32 = 100_000;

/// Keys for persistent storage (low-churn, long-lived data).
#[derive(Clone, Copy, Debug, PartialEq, Eq, Structural)]
pub enum PersistentKey {
    UserProfile(Address),
    Statistics,
    Categories,
    Tags,
    Reputation(Address),
    ReputationEventCount(Address),
    Leaderboard,
}

/// Keys for temporary storage (high-churn, short-lived data).
#[derive(Clone, Copy, Debug, PartialEq, Eq, Structural)]
pub enum TemporaryKey {
    ActiveTask(u32),
    PendingMilestone(u32, u32),
    SessionNonce(Address),
    ActiveBid(u32, Address),
    SubmissionCache(u32),
}

/// Keys for instance storage (contract configuration).
#[derive(Clone, Copy, Debug, PartialEq, Eq, Structural)]
pub enum InstanceKey {
    Admin,
    PlatformFeeBps,
    TokenContract,
    FeeRecipient,
    Initialized,
    TaskCount,
    GovernanceConfig,
}

/// Legacy storage keys.
#[derive(Clone, Copy, Debug, PartialEq, Eq, Structural)]
pub enum StorageKey {
    Metadata,
    TaskList,
    Categories,
    Tags,
    Statistics,
}

/// Storage access counters for benchmarking.
#[derive(Clone, Copy, Debug, PartialEq, Eq, Structural)]
pub struct StorageMetrics {
    pub temp_reads: u64,
    pub temp_writes: u64,
    pub persistent_reads: u64,
    pub persistent_writes: u64,
    pub last_ttl_extension: u64,
}

/// Category for task classification.
#[derive(Clone, Debug)]
pub struct Category {
    pub id: u32,
    pub name: String,
    pub description: String,
    pub task_count: u32,
    pub created_at: u64,
}

/// Global contract statistics.
#[derive(Clone, Copy, Debug, PartialEq, Eq, Structural)]
pub struct ContractStatistics {
    pub total_tasks_created: u32,
    pub total_tasks_completed: u32,
    pub total_tasks_cancelled: u32,
    pub total_tasks_disputed: u32,
    pub total_value_locked: i128,
    pub total_value_paid: i128,
    pub total_platform_fees: i128,
    pub unique_users: u32,
    pub total_milestones: u32,
}

/// Active task assignment data (temporary).
#[derive(Clone, Copy, Debug, PartialEq, Eq, Structural)]
pub struct ActiveAssignment {
    pub task_id: u32,
    pub assignee: Address,
    pub assigned_at: u64,
    pub last_activity: u64,
}

/// Session nonce for authentication.
#[derive(Clone, Copy, Debug, PartialEq, Eq, Structural)]
pub struct SessionData {
    pub nonce: u64,
    pub expires_at: u64,
}

pub open spec fn zero_statistics() -> ContractStatistics {
    ContractStatistics {
        total_tasks_created: 0,
        total_tasks_completed: 0,
        total_tasks_cancelled: 0,
        total_tasks_disputed: 0,
        total_value_locked: 0,
        total_value_paid: 0,
        total_platform_fees: 0,
        unique_users: 0,
        total_milestones: 0,
    }
}

/// `new` is `old` with the task counters raised by `created`, `completed`,
/// `cancelled` and `disputed` and the value totals by `locked`, `paid` and
/// `fees`; the user and milestone counts are as they were.
pub open spec fn statistics_moved(
    old: ContractStatistics,
    new: ContractStatistics,
    created: int,
    completed: int,
    cancelled: int,
    disputed: int,
    locked: int,
    paid: int,
    fees: int,
) -> bool {
    &&& new.total_tasks_created == old.total_tasks_created + created
    &&& new.total_tasks_completed == old.total_tasks_completed + completed
    &&& new.total_tasks_cancelled == old.total_tasks_cancelled + cancelled
    &&& new.total_tasks_disputed == old.total_tasks_disputed + disputed
    &&& new.total_value_locked == old.total_value_locked + locked
    &&& new.total_value_paid == old.total_value_paid + paid
    &&& new.total_platform_fees == old.total_platform_fees + fees
    &&& new.unique_users == old.unique_users
    &&& new.total_milestones == old.total_milestones
}

/// Statistics before anything happened.
pub fn empty_statistics() -> (r: ContractStatistics)
    ensures
        r == zero_statistics(),
{
    ContractStatistics {
        total_tasks_created: 0,
        total_tasks_completed: 0,
        total_tasks_cancelled: 0,
        total_tasks_disputed: 0,
        total_value_locked: 0,
        total_value_paid: 0,
        total_platform_fees: 0,
        unique_users: 0,
        total_milestones: 0,
    }
}

/// TTL for a record: the maximum persistent TTL for permanent data, the
/// temporary TTL otherwise.
pub fn calculate_ttl(is_permanent: bool) -> (r: u32)
    ensures
        r == (if is_permanent { MAX_PERSISTENT_TTL } else { TEMP_STORAGE_TTL }),
{
    if is_permanent { MAX_PERSISTENT_TTL } else { TEMP_STORAGE_TTL }
}

/// Storage metrics: the counters are not tracked and read zero; the last
/// TTL extension is stamped with `now`.
pub fn get_storage_metrics(now: u64) -> (r: StorageMetrics)
    ensures
        r == (StorageMetrics { temp_reads: 0, temp_writes: 0, persistent_reads: 0, persistent_writes: 0, last_ttl_extension: now }),
{
    StorageMetrics { temp_reads: 0, temp_writes: 0, persistent_reads: 0, persistent_writes: 0, last_ttl_extension: now }
}

/// Session lifetime in seconds: five seconds per ledger of `SESSION_TTL`.
pub open spec fn session_lifetime() -> int {
    SESSION_TTL * 5
}

/// Categories and short-lived records.
#[derive(Clone)]
pub struct TieredStore {
    pub categories: Vec<Category>,
    pub active_assignments: HashMap<u32, ActiveAssignment>,
    pub sessions: HashMap<u64, SessionData>,
    pub submissions: HashMap<u32, String>,
}

impl TieredStore {
    /// Category ids are their 1-based positions.
    pub open spec fn wf(&self) -> bool {
        &&& self.categories@.len() < u32::MAX
        &&& forall|i: int| 0 <= i < self.categories@.len() ==> (#[trigger] self.categories@[i]).id == i + 1
    }

    pub fn new() -> (r: Self)
        ensures
            r.wf(),
            r.categories@.len() == 0,
            r.active_assignments@ == Map::<u32, ActiveAssignment>::empty(),
            r.sessions@ == Map::<u64, SessionData>::empty(),
            r.submissions@ == Map::<u32, String>::empty(),
    {
        TieredStore {
            categories: Vec::new(),
            active_assignments: HashMap::new(),
            sessions: HashMap::new(),
            submissions: HashMap::new(),
        }
    }

    /// Append a category with no tasks; returns its id.
    pub fn add_category(&mut self, name: String, description: String, now: u64) -> (r: Result<u32, ContractError>)
        requires
            old(self).wf(),
        ensures
            final(self).wf(),
            final(self).active_assignments == old(self).active_assignments,
            final(self).sessions == old(self).sessions,
            final(self).submissions == old(self).submissions,
            r is Err <==> old(self).categories@.len() + 1 >= u32::MAX,
            r is Err ==> *final(self) == *old(self),
            r matches Ok(id) ==> {
                &&& id == old(self).categories@.len() + 1
                &&& final(self).categories@.len() == id
                &&& final(self).categories@.subrange(0, id - 1) == old(self).categories@
                &&& final(self).categories@[id - 1].name@ == name@
                &&& final(self).categories@[id - 1].description@ == description@
                &&& final(self).categories@[id - 1].task_count == 0
                &&& final(self).categories@[id - 1].created_at == now
            },
    {
        if self.categories.len() >= u32::MAX as usize - 1 {
            return Err(ContractError::ArithmeticOverflow);
        }
        let id = (self.categories.len() + 1) as u32;
        self.categories.push(Category { id, name, description, task_count: 0, created_at: now });
        assert(self.categories@.subrange(0, id - 1) =~= old(self).categories@);
        Ok(id)
    }

    /// All categories in id order.
    pub fn get_categories(&self) -> (r: &Vec<Category>)
        ensures
            r@ == self.categories@,
    {
        &self.categories
    }

    /// Count one more task in category `category_id` (no effect for an
    /// unknown id).
    pub fn increment_category_task_count(&mut self, category_id: u32) -> (r: Result<(), ContractError>)
        requires
            old(self).wf(),
        ensures
            final(self).wf(),
            final(self).active_assignments == old(self).active_assignments,
            final(self).sessions == old(self).sessions,
            final(self).submissions == old(self).submissions,
            final(self).categories@.len() == old(self).categories@.len(),
            (1 <= category_id <= old(self).categories@.len() && old(self).categories@[category_id - 1].task_count == u32::MAX)
                <==> r is Err,
            r is Err ==> *final(self) == *old(self),
            r is Ok ==> forall|i: int| 0 <= i < final(self).categories@.len() ==> {
                let c = #[trigger] final(self).categories@[i];
                let o = old(self).categories@[i];
                &&& c.task_count == (if i + 1 == category_id { o.task_count + 1 } else { o.task_count as int })
                &&& c.id == o.id && c.name == o.name && c.description == o.description && c.created_at == o.created_at
            },
    {
        if category_id == 0 || category_id as usize > self.categories.len() {
            return Ok(());
        }
        let idx = (category_id - 1) as usize;
        if self.categories[idx].task_count == u32::MAX {
            return Err(ContractError::ArithmeticOverflow);
        }
        self.categories[idx].task_count = self.categories[idx].task_count + 1;
        Ok(())
    }

    /// Record `assignee` as actively working on `task_id`.
    pub fn set_active_assignment(&mut self, task_id: u32, assignee: Address, now: u64)
        ensures
            final(self).categories == old(self).categories,
            final(self).sessions == old(self).sessions,
            final(self).submissions == old(self).submissions,
            final(self).active_assignments@ == old(self).active_assignments@.insert(task_id,
                ActiveAssignment { task_id, assignee, assigned_at: now, last_activity: now }),
    {
        self.active_assignments.insert(task_id, ActiveAssignment { task_id, assignee, assigned_at: now, last_activity: now });
    }

    /// The active assignment of `task_id`, if any.
    pub fn get_active_assignment(&self, task_id: u32) -> (r: Option<ActiveAssignment>)
        ensures
            r == (if self.active_assignments@.contains_key(task_id) { Some(self.active_assignments@[task_id]) } else { None }),
    {
        match self.active_assignments.get(&task_id) {
            Some(a) => Some(*a),
            None => None,
        }
    }

    /// Stamp the last activity of `task_id`'s assignment with `now`.
    pub fn touch_active_assignment(&mut self, task_id: u32, now: u64)
        ensures
            final(self).categories == old(self).categories,
            final(self).sessions == old(self).sessions,
            final(self).submissions == old(self).submissions,
            final(self).active_assignments@ == (if old(self).active_assignments@.contains_key(task_id) {
                old(self).active_assignments@.insert(task_id,
                    ActiveAssignment { last_activity: now, ..old(self).active_assignments@[task_id] })
            } else {
                old(self).active_assignments@
            }),
    {
        match self.get_active_assignment(task_id) {
            Some(a) => {
                self.active_assignments.insert(task_id, ActiveAssignment { last_activity: now, ..a });
            },
            None => {},
        }
    }

    /// Forget the assignment of `task_id`.
    pub fn clear_active_assignment(&mut self, task_id: u32)
        ensures
            final(self).categories == old(self).categories,
            final(self).sessions == old(self).sessions,
            final(self).submissions == old(self).submissions,
            final(self).active_assignments@ == old(self).active_assignments@.remove(task_id),
    {
        self.active_assignments.remove(&task_id);
    }

    /// Open or renew `user`'s session with `nonce`; it expires
    /// `SESSION_TTL * 5` seconds after `now`.
    pub fn set_session_nonce(&mut self, user: Address, nonce: u64, now: u64) -> (r: Result<(), ContractError>)
        ensures
            final(self).categories == old(self).categories,
            final(self).active_assignments == old(self).active_assignments,
            final(self).submissions == old(self).submissions,
            r is Err <==> now + session_lifetime() > u64::MAX,
            r is Err ==> *final(self) == *old(self),
            r is Ok ==> final(self).sessions@ == old(self).sessions@.insert(user,
                SessionData { nonce, expires_at: (now + session_lifetime()) as u64 }),
    {
        let lifetime: u64 = (SESSION_TTL as u64) * 5;
        let expires_at = match now.checked_add(lifetime) {
            Some(v) => v,
            None => return Err(ContractError::ArithmeticOverflow),
        };
        self.sessions.insert(user, SessionData { nonce, expires_at });
        Ok(())
    }

    /// `user`'s session, if any.
    pub fn get_session_nonce(&self, user: Address) -> (r: Option<SessionData>)
        ensures
            r == (if self.sessions@.contains_key(user) { Some(self.sessions@[user]) } else { None }),
    {
        match self.sessions.get(&user) {
            Some(s) => Some(*s),
            None => None,
        }
    }

    /// End `user`'s session.
    pub fn clear_session_nonce(&mut self, user: Address)
        ensures
            final(self).categories == old(self).categories,
            final(self).active_assignments == old(self).active_assignments,
            final(self).submissions == old(self).submissions,
            final(self).sessions@ == old(self).sessions@.remove(user),
    {
        self.sessions.remove(&user);
    }

    /// Cache the submission URL of `task_id`.
    pub fn cache_submission_url(&mut self, task_id: u32, url: String)
        ensures
            final(self).categories == old(self).categories,
            final(self).active_assignments == old(self).active_assignments,
            final(self).sessions == old(self).sessions,
            final(self).submissions@ == old(self).submissions@.insert(task_id, url),
    {
        self.submissions.insert(task_id, url);
    }

    /// The cached submission URL of `task_id`, if any.
    pub fn get_cached_submission_url(&self, task_id: u32) -> (r: Option<&String>)
        ensures
            r is None <==> !self.submissions@.contains_key(task_id),
            r matches Some(u) ==> *u == self.submissions@[task_id],
    {
        self.submissions.get(&task_id)
    }

    /// Drop the cached submission URL of `task_id`.
    pub fn clear_submission_cache(&mut self, task_id: u32)
        ensures
            final(self).categories == old(self).categories,
            final(self).active_assignments == old(self).active_assignments,
            final(self).sessions == old(self).sessions,
            final(self).submissions@ == old(self).submissions@.remove(task_id),
    {
        self.submissions.remove(&task_id);
    }
}

} // verus!
