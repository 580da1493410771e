//! Reputation-weighted community governance: proposals open for a voting
//! period, each voter votes once with a weight, and after the period a
//! proposal passes when the votes reach its quorum and the share of "for"
//! among non-abstaining votes reaches its threshold.

use vstd::prelude::*;
use crate::types::{Address, ContractError};
use crate::TaskManagerContract;

verus! {

#[derive(Clone, Copy, Debug, PartialEq, Eq, Structural)]
pub enum ProposalStatus {
    Active,
    Executed,
    Rejected,
    Expired,
    Cancelled,
}

#[derive(Clone, Copy, Debug, PartialEq, Eq, Structural)]
pub enum VoteType {
    For,
    Against,
    Abstain,
}

#[derive(Clone, Debug)]
pub struct Proposal {
    pub id: u32,
    pub title: String,
    pub description: String,
    pub proposer: Address,
    pub status: ProposalStatus,
    pub created_at: u64,
    pub voting_ends_at: u64,
    pub votes_for: u32,
    pub votes_against: u32,
    pub votes_abstain: u32,
    /// Least total vote weight for a decision.
    pub quorum: u32,
    /// Least percentage of "for" among non-abstaining weight to pass.
    pub threshold: u32,
    pub executed_at: Option<u64>,
}

#[derive(Clone, Copy, Debug, PartialEq, Eq, Structural)]
pub struct Vote {
    pub voter: Address,
    pub proposal_id: u32,
    pub vote_type: VoteType,
    pub weight: u32,
    pub voted_at: u64,
}

/// Ledger storage keys of the governance records.
#[derive(Clone, Copy, Debug, PartialEq, Eq, Structural)]
pub enum GovernanceKey {
    Proposal(u32),
    ProposalCount,
    Vote(u32, Address),
    Config,
    Delegations(Address),
}

#[derive(Clone, Copy, Debug, PartialEq, Eq, Structural)]
pub struct GovernanceConfig {
    pub voting_period: u64,
    pub quorum: u32,
    pub threshold: u32,
    pub min_reputation_to_propose: u32,
    pub min_reputation_to_vote: u32,
}

/// The configuration used until one is set: a seven-day vote, a quorum of
/// 10, a 51% threshold, 100 reputation to propose and 50 to vote.
pub open spec fn default_config() -> GovernanceConfig {
    GovernanceConfig {
        voting_period: 604800,
        quorum: 10,
        threshold: 51,
        min_reputation_to_propose: 100,
        min_reputation_to_vote: 50,
    }
}

/// Total weight of the votes of kind `kind` cast on proposal `id`.
pub open spec fn tally(votes: Seq<Vote>, id: u32, kind: VoteType) -> int
    decreases votes.len(),
{
    if votes.len() == 0 {
        0
    } else {
        let v = votes.last();
        tally(votes.drop_last(), id, kind) + if v.proposal_id == id && v.vote_type == kind { v.weight as int } else { 0 }
    }
}

/// Whether `voter` has voted on proposal `id`.
pub open spec fn has_voted(votes: Seq<Vote>, id: u32, voter: Address) -> bool {
    exists|i: int| 0 <= i < votes.len() && (#[trigger] votes[i]).proposal_id == id && votes[i].voter == voter
}

proof fn lemma_tally_no_votes(votes: Seq<Vote>, id: u32, kind: VoteType)
    requires
        forall|i: int| 0 <= i < votes.len() ==> (#[trigger] votes[i]).proposal_id != id,
    ensures
        tally(votes, id, kind) == 0,
    decreases votes.len(),
{
    if votes.len() > 0 {
        lemma_tally_no_votes(votes.drop_last(), id, kind);
    }
}

/// What a proposal decides once its vote has closed: `None` when a sum
/// overflows 32 bits, else whether it passes.
pub open spec fn decision(p: Proposal) -> Option<bool> {
    let total = p.votes_for + p.votes_against + p.votes_abstain;
    let non_abstain = p.votes_for + p.votes_against;
    if total > u32::MAX {
        None
    } else if total < p.quorum {
        Some(false)
    } else if non_abstain == 0 {
        Some(false)
    } else if p.votes_for * 100 > u32::MAX {
        None
    } else {
        Some((p.votes_for * 100) / non_abstain >= p.threshold)
    }
}

/// Proposals, votes and the configuration.
#[derive(Clone)]
pub struct Governance {
    pub config: Option<GovernanceConfig>,
    pub proposals: Vec<Proposal>,
    pub votes: Vec<Vote>,
}

impl Governance {
    /// Ids are creation ranks; every vote is for an existing proposal, no
    /// voter votes twice on one proposal, and each proposal's counts are the
    /// weights of the votes cast on it.
    pub open spec fn wf(&self) -> bool {
        &&& self.proposals@.len() < u32::MAX
        &&& forall|i: int| 0 <= i < self.proposals@.len() ==> (#[trigger] self.proposals@[i]).id == i + 1
        &&& forall|i: int| 0 <= i < self.votes@.len() ==>
            1 <= (#[trigger] self.votes@[i]).proposal_id <= self.proposals@.len()
        &&& forall|i: int, j: int| 0 <= i < j < self.votes@.len() ==>
            !((#[trigger] self.votes@[i]).proposal_id == (#[trigger] self.votes@[j]).proposal_id
                && self.votes@[i].voter == self.votes@[j].voter)
        &&& forall|i: int| 0 <= i < self.proposals@.len() ==> {
            let p = #[trigger] self.proposals@[i];
            &&& p.votes_for == tally(self.votes@, p.id, VoteType::For)
            &&& p.votes_against == tally(self.votes@, p.id, VoteType::Against)
            &&& p.votes_abstain == tally(self.votes@, p.id, VoteType::Abstain)
        }
    }

    pub open spec fn has_proposal(&self, id: u32) -> bool {
        1 <= id <= self.proposals@.len()
    }

    pub open spec fn proposal(&self, id: u32) -> Proposal {
        self.proposals@[id - 1]
    }

    /// The configuration in force.
    pub open spec fn config_in_force(&self) -> GovernanceConfig {
        match self.config {
            Some(c) => c,
            None => default_config(),
        }
    }

    pub fn new() -> (r: Self)
        ensures
            r.wf(),
            r.config is None,
            r.proposals@.len() == 0,
            r.votes@.len() == 0,
    {
        Governance { config: None, proposals: Vec::new(), votes: Vec::new() }
    }

    /// The configuration in force.
    pub fn get_config(&self) -> (r: GovernanceConfig)
        ensures
            r == self.config_in_force(),
    {
        match self.config {
            Some(c) => c,
            None => GovernanceConfig {
                voting_period: 604800,
                quorum: 10,
                threshold: 51,
                min_reputation_to_propose: 100,
                min_reputation_to_vote: 50,
            },
        }
    }

    /// Replace the configuration. (The caller's authority is checked by
    /// the host's authorization, not here.)
    pub fn set_config(&mut self, admin: Address, config: GovernanceConfig)
        requires
            old(self).wf(),
        ensures
            final(self).wf(),
            *final(self) == (Governance { config: Some(config), ..*old(self) }),
    {
        self.config = Some(config);
    }

    /// `proposer`, whose reputation is `proposer_reputation`, opens a
    /// proposal at `now`, voting until one voting period later, with the
    /// given quorum and threshold or the configured ones. A proposer below
    /// `min_reputation` is refused.
    pub fn create_proposal(
        &mut self,
        proposer: Address,
        title: String,
        description: String,
        quorum: Option<u32>,
        threshold: Option<u32>,
        min_reputation: u32,
        proposer_reputation: u32,
        now: u64,
    ) -> (r: Result<u32, ContractError>)
        requires
            old(self).wf(),
        ensures
            final(self).wf(),
            proposer_reputation < min_reputation ==> r == Err::<u32, ContractError>(ContractError::InsufficientReputation),
            proposer_reputation >= min_reputation ==> (r is Err <==> old(self).proposals@.len() + 1 >= u32::MAX
                || now + old(self).config_in_force().voting_period > u64::MAX),
            proposer_reputation >= min_reputation && r is Err ==> r == Err::<u32, ContractError>(ContractError::ArithmeticOverflow),
            r is Ok ==> proposer_reputation >= min_reputation,
            r is Err ==> *final(self) == *old(self),
            r matches Ok(id) ==> {
                let p = final(self).proposal(id);
                let c = old(self).config_in_force();
                &&& id == old(self).proposals@.len() + 1
                &&& final(self).proposals@.len() == id
                &&& final(self).proposals@.drop_last() == old(self).proposals@
                &&& p.id == id && p.title@ == title@ && p.description@ == description@ && p.proposer == proposer
                &&& p.status == ProposalStatus::Active && p.created_at == now && p.voting_ends_at == now + c.voting_period
                &&& p.votes_for == 0 && p.votes_against == 0 && p.votes_abstain == 0
                &&& p.quorum == (match quorum { Some(q) => q, None => c.quorum })
                &&& p.threshold == (match threshold { Some(t) => t, None => c.threshold })
                &&& p.executed_at is None
                &&& final(self).votes == old(self).votes
                &&& final(self).config == old(self).config
            },
    {
        if proposer_reputation < min_reputation {
            return Err(ContractError::InsufficientReputation);
        }
        let config = self.get_config();
        if self.proposals.len() >= (u32::MAX - 1) as usize {
            return Err(ContractError::ArithmeticOverflow);
        }
        let voting_ends_at = match now.checked_add(config.voting_period) {
            Some(e) => e,
            None => return Err(ContractError::ArithmeticOverflow),
        };
        let id = (self.proposals.len() + 1) as u32;
        let proposal = Proposal {
            id,
            title,
            description,
            proposer,
            status: ProposalStatus::Active,
            created_at: now,
            voting_ends_at,
            votes_for: 0,
            votes_against: 0,
            votes_abstain: 0,
            quorum: match quorum {
                Some(q) => q,
                None => config.quorum,
            },
            threshold: match threshold {
                Some(t) => t,
                None => config.threshold,
            },
            executed_at: None,
        };
        self.proposals.push(proposal);
        proof {
            assert forall|k: VoteType| tally(self.votes@, id, k) == 0 by {
                lemma_tally_no_votes(self.votes@, id, k);
            };
            assert forall|i: int| 0 <= i < self.proposals@.len() implies {
                let p = #[trigger] self.proposals@[i];
                &&& p.votes_for == tally(self.votes@, p.id, VoteType::For)
                &&& p.votes_against == tally(self.votes@, p.id, VoteType::Against)
                &&& p.votes_abstain == tally(self.votes@, p.id, VoteType::Abstain)
            } by {
                if i < self.proposals@.len() - 1 {
                    assert(self.proposals@[i] == old(self).proposals@[i]);
                }
            };
        }
        Ok(id)
    }

    fn find_vote(&self, id: u32, voter: Address) -> (r: Option<usize>)
        ensures
            r is None <==> !has_voted(self.votes@, id, voter),
            r matches Some(i) ==> i < self.votes@.len() && self.votes@[i as int].proposal_id == id && self.votes@[i as int].voter == voter,
    {
        let mut i: usize = 0;
        while i < self.votes.len()
            invariant
                0 <= i <= self.votes@.len(),
                forall|k: int| 0 <= k < i ==> !((#[trigger] self.votes@[k]).proposal_id == id && self.votes@[k].voter == voter),
            decreases self.votes@.len() - i,
        {
            if self.votes[i].proposal_id == id && self.votes[i].voter == voter {
                return Some(i);
            }
            i = i + 1;
        }
        None
    }

    /// What casting a vote gives.
    pub open spec fn vote_outcome(&self, voter: Address, id: u32, vote_type: VoteType, weight: u32, now: u64) -> Result<(), ContractError> {
        let p = self.proposal(id);
        if !self.has_proposal(id) {
            Err(ContractError::ProposalNotFound)
        } else if p.status != ProposalStatus::Active {
            Err(ContractError::ProposalNotActive)
        } else if now > p.voting_ends_at {
            Err(ContractError::VotingClosed)
        } else if has_voted(self.votes@, id, voter) {
            Err(ContractError::AlreadyVoted)
        } else if (match vote_type {
            VoteType::For => p.votes_for + weight,
            VoteType::Against => p.votes_against + weight,
            VoteType::Abstain => p.votes_abstain + weight,
        }) > u32::MAX {
            Err(ContractError::ArithmeticOverflow)
        } else {
            Ok(())
        }
    }

    /// `voter` casts a vote of `weight` on an active proposal whose voting
    /// period has not ended; each voter votes once per proposal.
    pub fn cast_vote(&mut self, voter: Address, id: u32, vote_type: VoteType, weight: u32, now: u64) -> (r: Result<(), ContractError>)
        requires
            old(self).wf(),
        ensures
            final(self).wf(),
            r == old(self).vote_outcome(voter, id, vote_type, weight, now),
            r is Err ==> *final(self) == *old(self),
            r is Ok ==> {
                let o = old(self).proposal(id);
                let p = final(self).proposal(id);
                &&& final(self).votes@ == old(self).votes@.push(Vote { voter, proposal_id: id, vote_type, weight, voted_at: now })
                &&& p.votes_for == o.votes_for + (if vote_type == VoteType::For { weight } else { 0 })
                &&& p.votes_against == o.votes_against + (if vote_type == VoteType::Against { weight } else { 0 })
                &&& p.votes_abstain == o.votes_abstain + (if vote_type == VoteType::Abstain { weight } else { 0 })
                &&& p.status == o.status && p.voting_ends_at == o.voting_ends_at && p.quorum == o.quorum && p.threshold == o.threshold
                &&& final(self).proposals@.len() == old(self).proposals@.len()
                &&& forall|k: u32| k != id && old(self).has_proposal(k) ==> final(self).proposal(k) == old(self).proposal(k)
                &&& final(self).config == old(self).config
            },
    {
        if id == 0 || id as usize > self.proposals.len() {
            return Err(ContractError::ProposalNotFound);
        }
        let idx = (id - 1) as usize;
        if self.proposals[idx].status != ProposalStatus::Active {
            return Err(ContractError::ProposalNotActive);
        }
        if now > self.proposals[idx].voting_ends_at {
            return Err(ContractError::VotingClosed);
        }
        if self.find_vote(id, voter).is_some() {
            return Err(ContractError::AlreadyVoted);
        }
        match vote_type {
            VoteType::For => {
                let v = match self.proposals[idx].votes_for.checked_add(weight) {
                    Some(v) => v,
                    None => return Err(ContractError::ArithmeticOverflow),
                };
                self.proposals[idx].votes_for = v;
            },
            VoteType::Against => {
                let v = match self.proposals[idx].votes_against.checked_add(weight) {
                    Some(v) => v,
                    None => return Err(ContractError::ArithmeticOverflow),
                };
                self.proposals[idx].votes_against = v;
            },
            VoteType::Abstain => {
                let v = match self.proposals[idx].votes_abstain.checked_add(weight) {
                    Some(v) => v,
                    None => return Err(ContractError::ArithmeticOverflow),
                };
                self.proposals[idx].votes_abstain = v;
            },
        }
        let vote = Vote { voter, proposal_id: id, vote_type, weight, voted_at: now };
        self.votes.push(vote);
        proof {
            let n = old(self).votes@.len() as int;
            assert(self.votes@.drop_last() == old(self).votes@);
            assert forall|i: int, j: int| 0 <= i < j < self.votes@.len() implies
                !((#[trigger] self.votes@[i]).proposal_id == (#[trigger] self.votes@[j]).proposal_id
                    && self.votes@[i].voter == self.votes@[j].voter) by {
                if j == n {
                    assert(self.votes@[i] == old(self).votes@[i]);
                }
            };
            assert forall|i: int| 0 <= i < self.proposals@.len() implies {
                let p = #[trigger] self.proposals@[i];
                &&& p.votes_for == tally(self.votes@, p.id, VoteType::For)
                &&& p.votes_against == tally(self.votes@, p.id, VoteType::Against)
                &&& p.votes_abstain == tally(self.votes@, p.id, VoteType::Abstain)
            } by {
                if i != idx {
                    assert(self.proposals@[i] == old(self).proposals@[i]);
                }
            };
        }
        Ok(())
    }

    /// What executing proposal `id` at `now` gives: whether it passed.
    pub open spec fn execute_outcome(&self, id: u32, now: u64) -> Result<bool, ContractError> {
        let p = self.proposal(id);
        if !self.has_proposal(id) {
            Err(ContractError::ProposalNotFound)
        } else if p.status != ProposalStatus::Active {
            Err(ContractError::ProposalNotActive)
        } else if now <= p.voting_ends_at {
            Err(ContractError::VotingStillOpen)
        } else {
            match decision(p) {
                None => Err(ContractError::ArithmeticOverflow),
                Some(b) => Ok(b),
            }
        }
    }

    /// Decide proposal `id` once its vote has closed: it is executed when it
    /// passes and rejected otherwise. Returns whether it passed.
    pub fn execute_proposal(&mut self, caller: Address, id: u32, now: u64) -> (r: Result<bool, ContractError>)
        requires
            old(self).wf(),
        ensures
            final(self).wf(),
            r == old(self).execute_outcome(id, now),
            r is Err ==> *final(self) == *old(self),
            r matches Ok(passed) ==> {
                let o = old(self).proposal(id);
                &&& final(self).proposals@ == old(self).proposals@.update(id - 1, Proposal {
                    status: if passed { ProposalStatus::Executed } else { ProposalStatus::Rejected },
                    executed_at: if passed { Some(now) } else { o.executed_at },
                    ..o
                })
                &&& final(self).votes == old(self).votes
                &&& final(self).config == old(self).config
            },
    {
        if id == 0 || id as usize > self.proposals.len() {
            return Err(ContractError::ProposalNotFound);
        }
        let idx = (id - 1) as usize;
        if self.proposals[idx].status != ProposalStatus::Active {
            return Err(ContractError::ProposalNotActive);
        }
        if now <= self.proposals[idx].voting_ends_at {
            return Err(ContractError::VotingStillOpen);
        }
        let vf = self.proposals[idx].votes_for;
        let va = self.proposals[idx].votes_against;
        let vb = self.proposals[idx].votes_abstain;
        let total = match vf.checked_add(va) {
            Some(x) => match x.checked_add(vb) {
                Some(t) => t,
                None => return Err(ContractError::ArithmeticOverflow),
            },
            None => return Err(ContractError::ArithmeticOverflow),
        };
        let passed: bool;
        if total < self.proposals[idx].quorum {
            passed = false;
        } else {
            let non_abstain = vf + va;
            if non_abstain == 0 {
                passed = false;
            } else {
                let scaled = match vf.checked_mul(100) {
                    Some(s) => s,
                    None => return Err(ContractError::ArithmeticOverflow),
                };
                passed = scaled / non_abstain >= self.proposals[idx].threshold;
            }
        }
        if passed {
            self.proposals[idx].status = ProposalStatus::Executed;
            self.proposals[idx].executed_at = Some(now);
        } else {
            self.proposals[idx].status = ProposalStatus::Rejected;
        }
        proof {
            assert(self.proposals@ =~= old(self).proposals@.update(id - 1, Proposal {
                status: if passed { ProposalStatus::Executed } else { ProposalStatus::Rejected },
                executed_at: if passed { Some(now) } else { old(self).proposals@[id - 1].executed_at },
                ..old(self).proposals@[id - 1]
            }));
            assert forall|i: int| 0 <= i < self.proposals@.len() implies {
                let p = #[trigger] self.proposals@[i];
                &&& p.votes_for == tally(self.votes@, p.id, VoteType::For)
                &&& p.votes_against == tally(self.votes@, p.id, VoteType::Against)
                &&& p.votes_abstain == tally(self.votes@, p.id, VoteType::Abstain)
            } by {
                if i != idx {
                    assert(self.proposals@[i] == old(self).proposals@[i]);
                }
            };
        }
        Ok(passed)
    }

    /// The proposer cancels their proposal while it is active.
    pub fn cancel_proposal(&mut self, proposer: Address, id: u32) -> (r: Result<(), ContractError>)
        requires
            old(self).wf(),
        ensures
            final(self).wf(),
            !old(self).has_proposal(id) ==> r == Err::<(), ContractError>(ContractError::ProposalNotFound),
            old(self).has_proposal(id) && old(self).proposal(id).proposer != proposer ==> r == Err::<(), ContractError>(ContractError::NotAuthorized),
            old(self).has_proposal(id) && old(self).proposal(id).proposer == proposer && old(self).proposal(id).status != ProposalStatus::Active
                ==> r == Err::<(), ContractError>(ContractError::ProposalNotActive),
            r is Ok <==> old(self).has_proposal(id) && old(self).proposal(id).proposer == proposer && old(self).proposal(id).status == ProposalStatus::Active,
            r is Err ==> *final(self) == *old(self),
            r is Ok ==> {
                &&& final(self).proposals@ == old(self).proposals@.update(id - 1, Proposal { status: ProposalStatus::Cancelled, ..old(self).proposal(id) })
                &&& final(self).votes == old(self).votes
                &&& final(self).config == old(self).config
            },
    {
        if id == 0 || id as usize > self.proposals.len() {
            return Err(ContractError::ProposalNotFound);
        }
        let idx = (id - 1) as usize;
        if self.proposals[idx].proposer != proposer {
            return Err(ContractError::NotAuthorized);
        }
        if self.proposals[idx].status != ProposalStatus::Active {
            return Err(ContractError::ProposalNotActive);
        }
        self.proposals[idx].status = ProposalStatus::Cancelled;
        proof {
            assert(self.proposals@ =~= old(self).proposals@.update(id - 1, Proposal { status: ProposalStatus::Cancelled, ..old(self).proposals@[id - 1] }));
            assert forall|i: int| 0 <= i < self.proposals@.len() implies {
                let p = #[trigger] self.proposals@[i];
                &&& p.votes_for == tally(self.votes@, p.id, VoteType::For)
                &&& p.votes_against == tally(self.votes@, p.id, VoteType::Against)
                &&& p.votes_abstain == tally(self.votes@, p.id, VoteType::Abstain)
            } by {
                if i != idx {
                    assert(self.proposals@[i] == old(self).proposals@[i]);
                }
            };
        }
        Ok(())
    }

    /// Proposal `id`, if it exists.
    pub fn get_proposal(&self, id: u32) -> (r: Option<&Proposal>)
        ensures
            r is None <==> !self.has_proposal(id),
            r matches Some(p) ==> *p == self.proposal(id),
    {
        if id == 0 || id as usize > self.proposals.len() {
            None
        } else {
            Some(&self.proposals[(id - 1) as usize])
        }
    }

    /// The vote of `voter` on proposal `id`, if any.
    pub fn get_vote(&self, id: u32, voter: Address) -> (r: Option<Vote>)
        ensures
            r is None <==> !has_voted(self.votes@, id, voter),
            r matches Some(v) ==> v.proposal_id == id && v.voter == voter && self.votes@.contains(v),
    {
        match self.find_vote(id, voter) {
            Some(i) => Some(self.votes[i]),
            None => None,
        }
    }

    /// The active proposals, in id order.
    pub fn get_active_proposals(&self) -> (r: Vec<&Proposal>)
        ensures
            r@.map_values(|p: &Proposal| *p) == self.proposals@.filter(|p: Proposal| p.status == ProposalStatus::Active),
    {
        let mut out: Vec<&Proposal> = Vec::new();
        let mut i: usize = 0;
        while i < self.proposals.len()
            invariant
                0 <= i <= self.proposals@.len(),
                out@.map_values(|p: &Proposal| *p) == self.proposals@.take(i as int).filter(|p: Proposal| p.status == ProposalStatus::Active),
            decreases self.proposals@.len() - i,
        {
            proof {
                reveal_with_fuel(Seq::filter, 1);
                assert(self.proposals@.take(i + 1).drop_last() == self.proposals@.take(i as int));
            }
            let p = &self.proposals[i];
            let ghost before = out@;
            if p.status == ProposalStatus::Active {
                out.push(p);
                proof {
                    assert(out@.map_values(|p: &Proposal| *p) == before.map_values(|p: &Proposal| *p).push(*p));
                }
            }
            i = i + 1;
        }
        proof {
            assert(self.proposals@.take(self.proposals@.len() as int) == self.proposals@);
        }
        out
    }
}

impl TaskManagerContract {
    /// `proposer` opens a governance proposal at `now` with the configured
    /// quorum and threshold; a proposer whose reputation is below the
    /// configured minimum is refused.
    pub fn create_proposal(&mut self, proposer: Address, title: String, description: String, now: u64) -> (r: Result<u32, ContractError>)
        requires
            old(self).wf(),
        ensures
            final(self).wf(),
            old(self).reputation.points_of(proposer) < old(self).governance.config_in_force().min_reputation_to_propose
                ==> r == Err::<u32, ContractError>(ContractError::InsufficientReputation),
            old(self).reputation.points_of(proposer) >= old(self).governance.config_in_force().min_reputation_to_propose
                ==> (r is Err <==> old(self).governance.proposals@.len() + 1 >= u32::MAX
                    || now + old(self).governance.config_in_force().voting_period > u64::MAX),
            old(self).reputation.points_of(proposer) >= old(self).governance.config_in_force().min_reputation_to_propose
                && r is Err ==> r == Err::<u32, ContractError>(ContractError::ArithmeticOverflow),
            r is Ok ==> old(self).reputation.points_of(proposer) >= old(self).governance.config_in_force().min_reputation_to_propose,
            r is Err ==> *final(self) == *old(self),
            *final(self) == (TaskManagerContract { governance: final(self).governance, ..*old(self) }),
            r matches Ok(id) ==> {
                let g = final(self).governance;
                let p = g.proposal(id);
                let c = old(self).governance.config_in_force();
                &&& id == old(self).governance.proposals@.len() + 1
                &&& g.proposals@.len() == id
                &&& g.proposals@.drop_last() == old(self).governance.proposals@
                &&& p.id == id && p.title@ == title@ && p.description@ == description@ && p.proposer == proposer
                &&& p.status == ProposalStatus::Active && p.created_at == now && p.voting_ends_at == now + c.voting_period
                &&& p.votes_for == 0 && p.votes_against == 0 && p.votes_abstain == 0
                &&& p.quorum == c.quorum && p.threshold == c.threshold
                &&& p.executed_at is None
                &&& g.votes == old(self).governance.votes
                &&& g.config == old(self).governance.config
            },
    {
        let config = self.governance.get_config();
        let standing = self.reputation.get_user_reputation(proposer);
        self.governance.create_proposal(
            proposer,
            title,
            description,
            Some(config.quorum),
            Some(config.threshold),
            config.min_reputation_to_propose,
            standing,
            now,
        )
    }

    /// Decide governance proposal `id` once its vote has closed; returns
    /// whether it passed.
    pub fn execute_proposal(&mut self, caller: Address, id: u32, now: u64) -> (r: Result<bool, ContractError>)
        requires
            old(self).wf(),
        ensures
            final(self).wf(),
            r == old(self).governance.execute_outcome(id, now),
            r is Err ==> *final(self) == *old(self),
            *final(self) == (TaskManagerContract { governance: final(self).governance, ..*old(self) }),
            r matches Ok(passed) ==> {
                let o = old(self).governance.proposal(id);
                &&& final(self).governance.proposals@ == old(self).governance.proposals@.update(id - 1, Proposal {
                    status: if passed { ProposalStatus::Executed } else { ProposalStatus::Rejected },
                    executed_at: if passed { Some(now) } else { o.executed_at },
                    ..o
                })
                &&& final(self).governance.votes == old(self).governance.votes
                &&& final(self).governance.config == old(self).governance.config
            },
    {
        self.governance.execute_proposal(caller, id, now)
    }

    /// Governance proposal `id`, if it exists.
    pub fn get_proposal(&self, id: u32) -> (r: Option<&Proposal>)
        ensures
            r is None <==> !self.governance.has_proposal(id),
            r matches Some(p) ==> *p == self.governance.proposal(id),
    {
        self.governance.get_proposal(id)
    }

    /// The active governance proposals, in id order.
    pub fn get_active_proposals(&self) -> (r: Vec<&Proposal>)
        ensures
            r@.map_values(|p: &Proposal| *p)
                == self.governance.proposals@.filter(|p: Proposal| p.status == ProposalStatus::Active),
    {
        self.governance.get_active_proposals()
    }

    /// `voter` votes on governance proposal `id` with their reputation as weight.
    pub fn cast_vote(&mut self, voter: Address, id: u32, vote_type: VoteType, now: u64) -> (r: Result<(), ContractError>)
        requires
            old(self).wf(),
        ensures
            final(self).wf(),
            r == old(self).governance.vote_outcome(voter, id, vote_type, old(self).reputation.points_of(voter) as u32, now),
            r is Err ==> *final(self) == *old(self),
            r is Ok ==> final(self).governance.votes@ == old(self).governance.votes@.push(Vote {
                voter,
                proposal_id: id,
                vote_type,
                weight: old(self).reputation.points_of(voter) as u32,
                voted_at: now,
            }),
            *final(self) == (TaskManagerContract { governance: final(self).governance, ..*old(self) }),
    {
        let weight = self.reputation.get_user_reputation(voter);
        self.governance.cast_vote(voter, id, vote_type, weight, now)
    }
}

} // verus!
