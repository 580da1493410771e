//! Points-based reputation: per-user scores floored at zero, a per-user
//! event counter, the tier table (Newcomer .. Legend) and a leaderboard kept
//! in address order.

use vstd::prelude::*;
use std::collections::HashMap;
use crate::types::{Address, ContractError};
use crate::TaskManagerContract;

verus! {

broadcast use vstd::std_specs::hash::group_hash_axioms;

/// Reputation every user starts with before any event is recorded.
pub const STARTING_REPUTATION: i32 = 100;

/// A recorded change of a user's reputation.
#[derive(Clone, Debug)]
pub struct ReputationEvent {
    pub user: Address,
    pub points: i32,
    pub event_type: ReputationEventType,
    pub timestamp: u64,
    pub reference_id: Option<u32>,
    pub description: String,
}

#[derive(Clone, Copy, Debug, PartialEq, Eq, Structural)]
pub enum ReputationEventType {
    TaskCompleted,
    TaskVerified,
    TaskCancelled,
    DisputeWon,
    DisputeLost,
    MilestoneApproved,
    BonusReward,
    Penalty,
    ManualAdjustment,
}

/// A named band of reputation points, both bounds inclusive.
#[derive(Clone, Debug)]
pub struct ReputationTier {
    pub name: String,
    pub min_points: u32,
    pub max_points: u32,
    pub badge_url: Option<String>,
}

/// Per-user reputation overview.
#[derive(Clone, Debug)]
pub struct UserReputationSummary {
    pub user: Address,
    pub total_points: u32,
    pub tier: String,
    pub tasks_completed: u32,
    pub tasks_verified: u32,
    pub disputes_won: u32,
    pub disputes_lost: u32,
    pub milestones_completed: u32,
    pub total_events: u32,
}

/// Ledger storage keys of the reputation records.
#[derive(Clone, Copy, Debug, PartialEq, Eq, Structural)]
pub enum ReputationKey {
    UserPoints(Address),
    UserEvents(Address),
    EventCount(Address),
    ReputationTiers,
    Leaderboard,
}

/// Points awarded (or deducted) for each kind of event.
pub open spec fn event_points(event_type: ReputationEventType) -> i32 {
    match event_type {
        ReputationEventType::TaskCompleted => 25i32,
        ReputationEventType::TaskVerified => 50i32,
        ReputationEventType::TaskCancelled => -10i32,
        ReputationEventType::DisputeWon => 30i32,
        ReputationEventType::DisputeLost => -25i32,
        ReputationEventType::MilestoneApproved => 15i32,
        ReputationEventType::BonusReward => 100i32,
        ReputationEventType::Penalty => -50i32,
        ReputationEventType::ManualAdjustment => 0i32,
    }
}

/// Points awarded for different actions.
pub fn points_for_event(event_type: ReputationEventType) -> (r: i32)
    ensures
        r == event_points(event_type),
{
    match event_type {
        ReputationEventType::TaskCompleted => 25,
        ReputationEventType::TaskVerified => 50,
        ReputationEventType::TaskCancelled => -10,
        ReputationEventType::DisputeWon => 30,
        ReputationEventType::DisputeLost => -25,
        ReputationEventType::MilestoneApproved => 15,
        ReputationEventType::BonusReward => 100,
        ReputationEventType::Penalty => -50,
        ReputationEventType::ManualAdjustment => 0,
    }
}

/// The default tier table as `(min, max)` bounds, in order.
pub open spec fn default_tier_bounds() -> Seq<(u32, u32)> {
    seq![(0u32, 99u32), (100u32, 499u32), (500u32, 999u32), (1000u32, 2499u32), (2500u32, u32::MAX)]
}

/// Names of the default tiers, in order.
pub open spec fn default_tier_names() -> Seq<Seq<char>> {
    seq!["Newcomer"@, "Contributor"@, "Expert"@, "Master"@, "Legend"@]
}

/// The default tier table: the five default tiers in order, with their
/// names and bounds and no badge.
pub open spec fn is_default_tier_table(t: Seq<ReputationTier>) -> bool {
    &&& t.len() == 5
    &&& tier_bounds(t) == default_tier_bounds()
    &&& forall|i: int| 0 <= i < 5 ==> (#[trigger] t[i]).name@ == default_tier_names()[i] && t[i].badge_url is None
}

/// Bounds of a tier table.
pub open spec fn tier_bounds(tiers: Seq<ReputationTier>) -> Seq<(u32, u32)> {
    tiers.map_values(|t: ReputationTier| (t.min_points, t.max_points))
}

/// Index of the first tier whose bounds contain `points`, if any.
pub open spec fn first_tier_index(bounds: Seq<(u32, u32)>, points: u32) -> Option<int>
    decreases bounds.len(),
{
    if bounds.len() == 0 {
        None
    } else if bounds[0].0 <= points && points <= bounds[0].1 {
        Some(0)
    } else {
        match first_tier_index(bounds.drop_first(), points) {
            Some(i) => Some(i + 1),
            None => None,
        }
    }
}

/// Index of a tier in the default table: 0 Newcomer, 1 Contributor, 2 Expert,
/// 3 Master, 4 Legend.
pub open spec fn default_tier_index(points: u32) -> int {
    if points <= 99 { 0 } else if points <= 499 { 1 } else if points <= 999 { 2 } else if points <= 2499 { 3 } else { 4 }
}

/// In the default table, the first tier containing any point count is the
/// one `default_tier_index` names.
pub proof fn lemma_default_tier_lookup(points: u32)
    ensures
        first_tier_index(default_tier_bounds(), points) == Some(default_tier_index(points)),
{
    let b = default_tier_bounds();
    reveal_with_fuel(first_tier_index, 6);
    assert(b.drop_first() =~= seq![(100u32, 499u32), (500u32, 999u32), (1000u32, 2499u32), (2500u32, u32::MAX)]);
    assert(b.drop_first().drop_first() =~= seq![(500u32, 999u32), (1000u32, 2499u32), (2500u32, u32::MAX)]);
    assert(b.drop_first().drop_first().drop_first() =~= seq![(1000u32, 2499u32), (2500u32, u32::MAX)]);
    assert(b.drop_first().drop_first().drop_first().drop_first() =~= seq![(2500u32, u32::MAX)]);
}

/// Keys of a leaderboard are strictly increasing.
pub open spec fn board_sorted(board: Seq<(Address, u32)>) -> bool {
    forall|i: int, j: int| 0 <= i < j < board.len() ==> board[i].0 < board[j].0
}

/// `new` is `old` with `user`'s entry set to `points`: sorted, holding
/// `(user, points)` as `user`'s only entry, and every other entry of `old`.
pub open spec fn board_updated(old: Seq<(Address, u32)>, new: Seq<(Address, u32)>, user: Address, points: u32) -> bool {
    &&& board_sorted(new)
    &&& new.contains((user, points))
    &&& forall|i: int| 0 <= i < old.len() && old[i].0 != user ==> new.contains(old[i])
    &&& forall|i: int| 0 <= i < new.len() && new[i].0 != user ==> old.contains(new[i])
    &&& forall|i: int| 0 <= i < new.len() && new[i].0 == user ==> new[i].1 == points
    &&& new.len() == old.len() + (if board_has(old, user) { 0int } else { 1int })
}

/// Whether `user` has a leaderboard entry.
pub open spec fn board_has(board: Seq<(Address, u32)>, user: Address) -> bool {
    exists|i: int| 0 <= i < board.len() && board[i].0 == user
}

/// A tier index found by `first_tier_index` is a position of the table.
proof fn lemma_first_tier_index_in_range(bounds: Seq<(u32, u32)>, points: u32)
    ensures
        match first_tier_index(bounds, points) {
            Some(j) => 0 <= j < bounds.len(),
            None => true,
        },
    decreases bounds.len(),
{
    if bounds.len() > 0 {
        lemma_first_tier_index_in_range(bounds.drop_first(), points);
    }
}

/// Position of the first tier of `tiers` whose bounds contain `points`.
fn find_tier(tiers: &Vec<ReputationTier>, points: u32) -> (r: Option<usize>)
    ensures
        r is None <==> first_tier_index(tier_bounds(tiers@), points) is None,
        r matches Some(i) ==> first_tier_index(tier_bounds(tiers@), points) == Some(i as int) && i < tiers@.len(),
{
    let ghost bounds = tier_bounds(tiers@);
    proof {
        lemma_first_tier_index_in_range(bounds, points);
        assert(bounds.subrange(0, bounds.len() as int) =~= bounds);
    }
    let mut i: usize = 0;
    while i < tiers.len()
        invariant
            0 <= i <= tiers@.len(),
            bounds == tier_bounds(tiers@),
            bounds.len() == tiers@.len(),
            first_tier_index(bounds, points) == match first_tier_index(bounds.subrange(i as int, bounds.len() as int), points) {
                Some(k) => Some(k + i),
                None => None,
            },
        decreases tiers@.len() - i,
    {
        let t = &tiers[i];
        proof {
            let rest = bounds.subrange(i as int, bounds.len() as int);
            assert(rest.drop_first() =~= bounds.subrange(i + 1, bounds.len() as int));
            assert(rest[0] == (t.min_points, t.max_points));
            reveal_with_fuel(first_tier_index, 1);
        }
        if points >= t.min_points && points <= t.max_points {
            return Some(i);
        }
        i = i + 1;
    }
    proof {
        assert(bounds.subrange(i as int, bounds.len() as int) =~= Seq::<(u32, u32)>::empty());
    }
    None
}

/// Reputation records of all users.
#[derive(Clone)]
pub struct ReputationBook {
    pub points: HashMap<u64, i32>,
    pub event_counts: HashMap<u64, u32>,
    pub tiers: Option<Vec<ReputationTier>>,
    pub leaderboard: Vec<(Address, u32)>,
}

impl ReputationBook {
    /// Stored scores are never negative, and the leaderboard is in address order.
    pub open spec fn wf(&self) -> bool {
        &&& forall|u: u64| #[trigger] self.points@.contains_key(u) ==> self.points@[u] >= 0
        &&& board_sorted(self.leaderboard@)
    }

    /// Current score of `user` (the starting score before any event).
    pub open spec fn points_of(&self, user: Address) -> i32 {
        if self.points@.contains_key(user) { self.points@[user] } else { STARTING_REPUTATION }
    }

    /// Number of events recorded for `user`.
    pub open spec fn events_of(&self, user: Address) -> u32 {
        if self.event_counts@.contains_key(user) { self.event_counts@[user] } else { 0 }
    }

    /// Score after adding `points` to `user`'s score, floored at zero.
    pub open spec fn awarded(&self, user: Address, points: i32) -> int {
        let sum = self.points_of(user) + points;
        if sum < 0 { 0 } else { sum }
    }

    /// `self` is `old` after `points` were awarded to `user`: the new
    /// score (floored at zero), one more event, the leaderboard entry set
    /// to the new score, the tier table as it was.
    pub open spec fn award_applied(&self, old: &Self, user: Address, points: i32) -> bool {
        &&& self.points@ == old.points@.insert(user, old.awarded(user, points) as i32)
        &&& self.event_counts@ == old.event_counts@.insert(user, (old.events_of(user) + 1) as u32)
        &&& board_updated(old.leaderboard@, self.leaderboard@, user, old.awarded(user, points) as u32)
        &&& self.tiers == old.tiers
    }

    /// What awarding `points` to `user` gives.
    pub open spec fn award_outcome(&self, user: Address, points: i32) -> Result<(), ContractError> {
        if !(i32::MIN <= self.points_of(user) + points <= i32::MAX) || self.events_of(user) == u32::MAX {
            Err(ContractError::ArithmeticOverflow)
        } else {
            Ok(())
        }
    }

    /// The outcome `award_reputation` would have, without changing anything.
    pub fn check_award(&self, user: Address, points: i32) -> (r: Result<(), ContractError>)
        ensures
            r == self.award_outcome(user, points),
    {
        let current: i32 = match self.points.get(&user) {
            Some(p) => *p,
            None => STARTING_REPUTATION,
        };
        match current.checked_add(points) {
            Some(_) => {},
            None => return Err(ContractError::ArithmeticOverflow),
        }
        if self.get_event_count(user) == u32::MAX {
            return Err(ContractError::ArithmeticOverflow);
        }
        Ok(())
    }

    /// An empty book with no tier table yet.
    pub fn new() -> (r: Self)
        ensures
            r.wf(),
            r.points@ == Map::<u64, i32>::empty(),
            r.event_counts@ == Map::<u64, u32>::empty(),
            r.tiers is None,
            r.leaderboard@ == Seq::<(Address, u32)>::empty(),
    {
        ReputationBook {
            points: HashMap::new(),
            event_counts: HashMap::new(),
            tiers: None,
            leaderboard: Vec::new(),
        }
    }

    /// Install the default tier table.
    pub fn init_reputation_tiers(&mut self)
        requires
            old(self).wf(),
        ensures
            final(self).wf(),
            final(self).tiers matches Some(t) && is_default_tier_table(t@),
            final(self).points == old(self).points,
            final(self).event_counts == old(self).event_counts,
            final(self).leaderboard == old(self).leaderboard,
    {
        let mut v: Vec<ReputationTier> = Vec::new();
        v.push(ReputationTier { name: "Newcomer".to_owned(), min_points: 0, max_points: 99, badge_url: None });
        v.push(ReputationTier { name: "Contributor".to_owned(), min_points: 100, max_points: 499, badge_url: None });
        v.push(ReputationTier { name: "Expert".to_owned(), min_points: 500, max_points: 999, badge_url: None });
        v.push(ReputationTier { name: "Master".to_owned(), min_points: 1000, max_points: 2499, badge_url: None });
        v.push(ReputationTier { name: "Legend".to_owned(), min_points: 2500, max_points: u32::MAX, badge_url: None });
        assert(tier_bounds(v@) =~= default_tier_bounds());
        self.tiers = Some(v);
    }

    /// Current reputation of `user`.
    pub fn get_user_reputation(&self, user: Address) -> (r: u32)
        requires
            self.wf(),
        ensures
            r == self.points_of(user),
    {
        match self.points.get(&user) {
            Some(p) => *p as u32,
            None => STARTING_REPUTATION as u32,
        }
    }

    /// Number of reputation events recorded for `user`.
    pub fn get_event_count(&self, user: Address) -> (r: u32)
        ensures
            r == self.events_of(user),
    {
        match self.event_counts.get(&user) {
            Some(c) => *c,
            None => 0,
        }
    }

    /// Name of the first tier of the table that contains `user`'s score, or
    /// "Unknown"; installs the default table first when none is stored.
    pub fn get_user_tier(&mut self, user: Address) -> (r: String)
        requires
            old(self).wf(),
        ensures
            final(self).wf(),
            final(self).points == old(self).points,
            final(self).event_counts == old(self).event_counts,
            final(self).leaderboard == old(self).leaderboard,
            old(self).tiers is Some ==> final(self).tiers == old(self).tiers,
            final(self).tiers matches Some(t) && match first_tier_index(tier_bounds(t@), old(self).points_of(user) as u32) {
                Some(i) => r@ == t@[i].name@,
                None => r@ == "Unknown"@,
            },
            old(self).tiers is None ==> r@ == default_tier_names()[default_tier_index(old(self).points_of(user) as u32)],
    {
        proof {
            lemma_default_tier_lookup(old(self).points_of(user) as u32);
        }
        let points = self.get_user_reputation(user);
        proof {
            if old(self).points@.contains_key(user) {
                assert(old(self).points@[user] >= 0);
            }
            assert(points == old(self).points_of(user) as u32);
        }
        if self.tiers.is_none() {
            self.init_reputation_tiers();
        }
        match &self.tiers {
            Some(tiers) => match find_tier(tiers, points) {
                Some(i) => {
                    tiers[i].name.clone()
                },
                None => {
                    let r = "Unknown".to_owned();
                    proof {
                        reveal_strlit("Unknown");
                    }
                    r
                },
            },
            None => {
                assert(false);
                "Unknown".to_owned()
            },
        }
    }

    /// Leaderboard entries in account-number order (the host reorders them
    /// by ledger address).
    pub fn get_leaderboard(&self) -> (r: Vec<(Address, u32)>)
        ensures
            r@ == self.leaderboard@,
    {
        let mut out: Vec<(Address, u32)> = Vec::new();
        let mut i: usize = 0;
        while i < self.leaderboard.len()
            invariant
                0 <= i <= self.leaderboard@.len(),
                out@ == self.leaderboard@.subrange(0, i as int),
            decreases self.leaderboard@.len() - i,
        {
            out.push(self.leaderboard[i]);
            i = i + 1;
        }
        assert(out@ =~= self.leaderboard@);
        out
    }

    /// Set `user`'s leaderboard entry to `points`, keeping address order.
    pub fn update_leaderboard(&mut self, user: Address, points: u32)
        requires
            board_sorted(old(self).leaderboard@),
        ensures
            board_updated(old(self).leaderboard@, final(self).leaderboard@, user, points),
            final(self).points == old(self).points,
            final(self).event_counts == old(self).event_counts,
            final(self).tiers == old(self).tiers,
    {
        let ghost old_board = self.leaderboard@;
        let n = self.leaderboard.len();
        let mut i: usize = 0;
        while i < n && self.leaderboard[i].0 < user
            invariant
                n == self.leaderboard@.len(),
                self.leaderboard@ == old_board,
                board_sorted(old_board),
                0 <= i <= n,
                forall|k: int| 0 <= k < i ==> old_board[k].0 < user,
            decreases n - i,
        {
            i = i + 1;
        }
        if i < n && self.leaderboard[i].0 == user {
            self.leaderboard.set(i, (user, points));
            proof {
                let b = self.leaderboard@;
                assert forall|x: int, y: int| 0 <= x < y < b.len() implies b[x].0 < b[y].0 by {
                    if x != i && y != i {
                        assert(b[x] == old_board[x]);
                        assert(b[y] == old_board[y]);
                    }
                };
                assert(b[i as int] == (user, points));
                assert forall|k: int| 0 <= k < old_board.len() && old_board[k].0 != user implies b.contains(old_board[k]) by {
                    assert(b[k] == old_board[k]);
                };
                assert forall|k: int| 0 <= k < b.len() && b[k].0 != user implies old_board.contains(b[k]) by {
                    assert(b[k] == old_board[k]);
                };
                assert forall|k: int| 0 <= k < b.len() && b[k].0 == user implies b[k].1 == points by {
                    if k != i {
                        assert(old_board[k].0 == user);
                        assert(k < i || k > i);
                    }
                };
                assert(board_has(old_board, user));
            }
        } else {
            self.leaderboard.insert(i, (user, points));
            proof {
                let b = self.leaderboard@;
                assert forall|k: int| 0 <= k < old_board.len() implies old_board[k].0 != user by {
                    if k >= i {
                        assert(old_board[i as int].0 > user);
                    }
                };
                assert forall|x: int, y: int| 0 <= x < y < b.len() implies b[x].0 < b[y].0 by {
                    if x < i && y > i {
                        assert(b[y] == old_board[y - 1]);
                        if (i as int) < old_board.len() {
                            assert(old_board[i as int].0 > user);
                        }
                    }
                    if x == i && y > i {
                        assert(b[y] == old_board[y - 1]);
                        assert(old_board[i as int].0 > user);
                    }
                    if x > i {
                        assert(b[x] == old_board[x - 1]);
                        assert(b[y] == old_board[y - 1]);
                    }
                };
                assert(b[i as int] == (user, points));
                assert forall|k: int| 0 <= k < old_board.len() && old_board[k].0 != user implies b.contains(old_board[k]) by {
                    if k < i {
                        assert(b[k] == old_board[k]);
                    } else {
                        assert(b[k + 1] == old_board[k]);
                    }
                };
                assert forall|k: int| 0 <= k < b.len() && b[k].0 != user implies old_board.contains(b[k]) by {
                    if k < i {
                        assert(b[k] == old_board[k]);
                    } else if k > i {
                        assert(b[k] == old_board[k - 1]);
                    }
                };
                assert forall|k: int| 0 <= k < b.len() && b[k].0 == user implies b[k].1 == points by {
                    if k < i {
                        assert(b[k] == old_board[k]);
                    } else if k > i {
                        assert(b[k] == old_board[k - 1]);
                    }
                };
                assert(!board_has(old_board, user));
            }
        }
    }

    /// Add `points` (possibly negative) to `user`'s score, floored at zero,
    /// count the event and refresh the leaderboard. Rejected, with nothing
    /// changed, when the sum or the event counter would overflow.
    pub fn award_reputation(
        &mut self,
        user: Address,
        points: i32,
        event_type: ReputationEventType,
        reference_id: Option<u32>,
        description: String,
        now: u64,
    ) -> (r: Result<(), ContractError>)
        requires
            old(self).wf(),
        ensures
            final(self).wf(),
            r == old(self).award_outcome(user, points),
            r is Err ==> *final(self) == *old(self),
            r is Ok ==> final(self).award_applied(old(self), user, points),
    {
        let current: i32 = match self.points.get(&user) {
            Some(p) => *p,
            None => STARTING_REPUTATION,
        };
        let sum = match current.checked_add(points) {
            Some(s) => s,
            None => return Err(ContractError::ArithmeticOverflow),
        };
        let event_count: u32 = match self.event_counts.get(&user) {
            Some(c) => *c,
            None => 0,
        };
        if event_count == u32::MAX {
            return Err(ContractError::ArithmeticOverflow);
        }
        let new_points: i32 = if sum < 0 { 0 } else { sum };
        let _event = ReputationEvent {
            user,
            points,
            event_type,
            timestamp: now,
            reference_id,
            description,
        };
        self.points.insert(user, new_points);
        self.event_counts.insert(user, event_count + 1);
        self.update_leaderboard(user, new_points as u32);
        Ok(())
    }
}

impl TaskManagerContract {
    /// Current reputation of `user`.
    pub fn get_user_reputation(&self, user: Address) -> (r: u32)
        requires
            self.wf(),
        ensures
            r == self.reputation.points_of(user),
    {
        self.reputation.get_user_reputation(user)
    }

    /// Name of the tier that holds `user`'s reputation (see
    /// `ReputationBook::get_user_tier`); installs the default tier table
    /// when none is stored.
    pub fn get_user_tier(&mut self, user: Address) -> (r: String)
        requires
            old(self).wf(),
        ensures
            final(self).wf(),
            *final(self) == (TaskManagerContract { reputation: final(self).reputation, ..*old(self) }),
            final(self).reputation.points == old(self).reputation.points,
            final(self).reputation.event_counts == old(self).reputation.event_counts,
            final(self).reputation.leaderboard == old(self).reputation.leaderboard,
            old(self).reputation.tiers is Some ==> final(self).reputation.tiers == old(self).reputation.tiers,
            final(self).reputation.tiers matches Some(t)
                && match first_tier_index(tier_bounds(t@), old(self).reputation.points_of(user) as u32) {
                    Some(i) => r@ == t@[i].name@,
                    None => r@ == "Unknown"@,
                },
            old(self).reputation.tiers is None
                ==> r@ == default_tier_names()[default_tier_index(old(self).reputation.points_of(user) as u32)],
    {
        self.reputation.get_user_tier(user)
    }

    /// Leaderboard entries in account-number order (the host reorders them
    /// by ledger address).
    pub fn get_leaderboard(&self) -> (r: Vec<(Address, u32)>)
        ensures
            r@ == self.reputation.leaderboard@,
    {
        self.reputation.get_leaderboard()
    }
}

} // verus!
