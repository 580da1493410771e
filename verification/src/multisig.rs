//! Multisig ledger for admin transactions: registered signers propose
//! parameter changes and treasury movements, each signer approves a
//! proposal at most once, and reaching the threshold (snapshotted at
//! creation, counted over the current signer set) performs the action.
//!
//! ```text
//!   Pending --(threshold reached)--> Approved --(execute)--> Executed
//!      |                                |
//!      +-----------(cancel)-------------+--> Cancelled
//! ```

use vstd::prelude::*;
use crate::types::{Address, ContractError, Transfer, MAX_PLATFORM_FEE_BPS};
use crate::TaskManagerContract;

verus! {

/// Lifetime of a proposal when none is configured (seven days).
pub const DEFAULT_PROPOSAL_TTL: u64 = 604_800;

/// Most signers a multisig may have.
pub const MAX_SIGNERS: usize = 20;

#[derive(Clone, Copy, Debug, PartialEq, Eq, Structural)]
pub enum MultisigProposalStatus {
    Pending,
    Approved,
    Executed,
    Cancelled,
}

/// What a proposal does once approved.
#[derive(Clone, Debug)]
pub enum MultisigAction {
    SetPlatformFee(u32),
    SetFeeRecipient(Address),
    SetTokenContract(Address),
    /// Pay `amount` of `token` from the contract to the recipient.
    TreasuryTransfer(Address, Address, i128),
    /// Replace the signer set and threshold.
    SetSigners(Vec<Address>, u32),
    /// Settle a disputed task by paying its reward out in shares (basis points).
    ResolveDisputeSplit(u32, Vec<Address>, Vec<u32>),
}

#[derive(Clone, Copy, Debug, PartialEq, Eq, Structural)]
pub struct MultisigApproval {
    pub signer: Address,
    pub approved_at: u64,
}

#[derive(Clone, Debug)]
pub struct MultisigProposal {
    pub id: u32,
    pub proposer: Address,
    pub description: String,
    pub action: MultisigAction,
    pub status: MultisigProposalStatus,
    pub approvals: Vec<MultisigApproval>,
    pub threshold: u32,
    pub created_at: u64,
    pub expires_at: u64,
    pub executed_at: Option<u64>,
}

#[derive(Clone, Debug)]
pub struct MultisigConfig {
    pub signers: Vec<Address>,
    pub threshold: u32,
    pub proposal_ttl: u64,
    pub auto_execute: bool,
}

/// Ledger storage keys of the multisig records.
#[derive(Clone, Copy, Debug, PartialEq, Eq, Structural)]
pub enum MultisigKey {
    Config,
    Proposal(u32),
    ProposalCount,
}

/// Whether two actions do the same thing (same variant, same values).
pub open spec fn same_action(a: MultisigAction, b: MultisigAction) -> bool {
    match (a, b) {
        (MultisigAction::SetPlatformFee(x), MultisigAction::SetPlatformFee(y)) => x == y,
        (MultisigAction::SetFeeRecipient(x), MultisigAction::SetFeeRecipient(y)) => x == y,
        (MultisigAction::SetTokenContract(x), MultisigAction::SetTokenContract(y)) => x == y,
        (MultisigAction::TreasuryTransfer(t1, r1, a1), MultisigAction::TreasuryTransfer(t2, r2, a2)) =>
            t1 == t2 && r1 == r2 && a1 == a2,
        (MultisigAction::SetSigners(s1, t1), MultisigAction::SetSigners(s2, t2)) => s1@ == s2@ && t1 == t2,
        (MultisigAction::ResolveDisputeSplit(i1, r1, s1), MultisigAction::ResolveDisputeSplit(i2, r2, s2)) =>
            i1 == i2 && r1@ == r2@ && s1@ == s2@,
        _ => false,
    }
}

impl MultisigAction {
    /// A copy of this action.
    pub fn copy_action(&self) -> (r: Self)
        ensures
            same_action(r, *self),
    {
        match self {
            MultisigAction::SetPlatformFee(b) => MultisigAction::SetPlatformFee(*b),
            MultisigAction::SetFeeRecipient(a) => MultisigAction::SetFeeRecipient(*a),
            MultisigAction::SetTokenContract(a) => MultisigAction::SetTokenContract(*a),
            MultisigAction::TreasuryTransfer(t, to, amount) => MultisigAction::TreasuryTransfer(*t, *to, *amount),
            MultisigAction::SetSigners(signers, threshold) => {
                let c = signers.clone();
                proof {
                    assert(c@ =~= signers@);
                }
                MultisigAction::SetSigners(c, *threshold)
            },
            MultisigAction::ResolveDisputeSplit(task_id, recipients, shares) => {
                let rc = recipients.clone();
                let sc = shares.clone();
                proof {
                    assert(rc@ =~= recipients@);
                    assert(sc@ =~= shares@);
                }
                MultisigAction::ResolveDisputeSplit(*task_id, rc, sc)
            },
        }
    }
}

/// Whether `s` repeats no address.
pub open spec fn no_duplicates(s: Seq<Address>) -> bool {
    forall|i: int, j: int| 0 <= i < j < s.len() ==> s[i] != s[j]
}

/// A usable signer set: one to `MAX_SIGNERS` distinct signers and a
/// threshold between one and their number.
pub open spec fn signer_set_valid(signers: Seq<Address>, threshold: u32) -> bool {
    &&& 0 < signers.len() <= MAX_SIGNERS
    &&& 0 < threshold <= signers.len()
    &&& no_duplicates(signers)
}

/// Sum of the shares.
pub open spec fn shares_total(s: Seq<u32>) -> int
    decreases s.len(),
{
    if s.len() == 0 { 0 } else { shares_total(s.drop_last()) + s.last() }
}

/// Whether a proposal may carry `action`.
pub open spec fn action_valid(action: MultisigAction) -> bool {
    match action {
        MultisigAction::SetPlatformFee(bps) => bps <= MAX_PLATFORM_FEE_BPS,
        MultisigAction::TreasuryTransfer(_, _, amount) => amount > 0,
        MultisigAction::SetSigners(signers, threshold) => signer_set_valid(signers@, threshold),
        MultisigAction::ResolveDisputeSplit(_, recipients, shares) =>
            recipients@.len() > 0 && recipients@.len() == shares@.len() && shares_total(shares@) == 10000,
        _ => true,
    }
}

/// Number of `approvals` given by members of `signers`.
pub open spec fn valid_approvals(approvals: Seq<MultisigApproval>, signers: Seq<Address>) -> nat
    decreases approvals.len(),
{
    if approvals.len() == 0 {
        0
    } else {
        valid_approvals(approvals.drop_last(), signers) + if signers.contains(approvals.last().signer) { 1nat } else { 0nat }
    }
}

/// Whether no signer appears twice among `approvals`.
pub open spec fn distinct_approvers(approvals: Seq<MultisigApproval>) -> bool {
    forall|a: int, b: int| 0 <= a < b < approvals.len() ==> (#[trigger] approvals[a]).signer != (#[trigger] approvals[b]).signer
}

/// Whether `signer` appears among `approvals`.
pub open spec fn approved_by(approvals: Seq<MultisigApproval>, signer: Address) -> bool {
    exists|i: int| 0 <= i < approvals.len() && (#[trigger] approvals[i]).signer == signer
}

proof fn lemma_valid_approvals_le(approvals: Seq<MultisigApproval>, signers: Seq<Address>)
    ensures
        valid_approvals(approvals, signers) <= approvals.len(),
    decreases approvals.len(),
{
    if approvals.len() > 0 {
        lemma_valid_approvals_le(approvals.drop_last(), signers);
    }
}

/// Check a signer set.
pub fn validate_signer_set(signers: &Vec<Address>, threshold: u32) -> (r: Result<(), ContractError>)
    ensures
        r is Ok <==> signer_set_valid(signers@, threshold),
        r is Err ==> r == Err::<(), ContractError>(ContractError::InvalidSignerSet),
{
    let count = signers.len();
    if count == 0 || count > MAX_SIGNERS || threshold == 0 || threshold as usize > count {
        return Err(ContractError::InvalidSignerSet);
    }
    let mut i: usize = 0;
    while i < count
        invariant
            count == signers@.len(),
            0 <= i <= count,
            forall|a: int, b: int| 0 <= a < b < signers@.len() && a < i ==> signers@[a] != signers@[b],
        decreases count - i,
    {
        let mut j: usize = i + 1;
        while j < count
            invariant
                count == signers@.len(),
                i < count,
                i + 1 <= j <= count,
                forall|a: int, b: int| 0 <= a < b < signers@.len() && a < i ==> signers@[a] != signers@[b],
                forall|b: int| i < b < j ==> signers@[i as int] != signers@[b],
            decreases count - j,
        {
            if signers[j] == signers[i] {
                return Err(ContractError::InvalidSignerSet);
            }
            j = j + 1;
        }
        i = i + 1;
    }
    Ok(())
}

/// Check the action a proposal would carry.
pub fn validate_action(action: &MultisigAction) -> (r: Result<(), ContractError>)
    ensures
        r is Ok <==> action_valid(*action),
        r is Err ==> r == Err::<(), ContractError>(ContractError::InvalidAction),
{
    match action {
        MultisigAction::SetPlatformFee(bps) => {
            if *bps > MAX_PLATFORM_FEE_BPS {
                return Err(ContractError::InvalidAction);
            }
        },
        MultisigAction::TreasuryTransfer(_, _, amount) => {
            if *amount <= 0 {
                return Err(ContractError::InvalidAction);
            }
        },
        MultisigAction::SetSigners(signers, threshold) => {
            if validate_signer_set(signers, *threshold).is_err() {
                return Err(ContractError::InvalidAction);
            }
        },
        MultisigAction::ResolveDisputeSplit(_, recipients, shares) => {
            if recipients.len() == 0 || recipients.len() != shares.len() {
                return Err(ContractError::InvalidAction);
            }
            let mut total: u32 = 0;
            let mut i: usize = 0;
            while i < shares.len()
                invariant
                    0 <= i <= shares@.len(),
                    total == shares_total(shares@.take(i as int)),
                    match *action {
                        MultisigAction::ResolveDisputeSplit(_, _, sh) => sh@ == shares@,
                        _ => false,
                    },
                decreases shares@.len() - i,
            {
                proof {
                    assert(shares@.take(i + 1).drop_last() == shares@.take(i as int));
                }
                total = match total.checked_add(shares[i]) {
                    Some(t) => t,
                    None => {
                        proof {
                            assert(shares@.take(i + 1).last() == shares@[i as int]);
                            assert(shares_total(shares@.take(i + 1)) == total + shares@[i as int]);
                            lemma_shares_total_grows(shares@, i as int + 1);
                        }
                        return Err(ContractError::InvalidAction);
                    },
                };
                i = i + 1;
            }
            proof {
                assert(shares@.take(shares@.len() as int) == shares@);
            }
            if total != 10000 {
                return Err(ContractError::InvalidAction);
            }
        },
        MultisigAction::SetFeeRecipient(_) => {},
        MultisigAction::SetTokenContract(_) => {},
    }
    Ok(())
}

/// A prefix's share total never exceeds the whole total.
pub(crate) proof fn lemma_shares_total_grows(s: Seq<u32>, n: int)
    requires
        0 <= n <= s.len(),
    ensures
        shares_total(s.take(n)) <= shares_total(s),
    decreases s.len() - n,
{
    if n < s.len() {
        assert(s.take(n + 1).drop_last() == s.take(n));
        lemma_shares_total_grows(s, n + 1);
    } else {
        assert(s.take(n) == s);
    }
}

/// Count the approvals given by current signers.
fn count_valid_approvals(approvals: &Vec<MultisigApproval>, signers: &Vec<Address>) -> (r: u32)
    requires
        approvals@.len() < u32::MAX,
    ensures
        r == valid_approvals(approvals@, signers@),
{
    let mut valid: u32 = 0;
    let mut i: usize = 0;
    while i < approvals.len()
        invariant
            0 <= i <= approvals@.len(),
            approvals@.len() < u32::MAX,
            valid == valid_approvals(approvals@.take(i as int), signers@),
            valid <= i,
        decreases approvals@.len() - i,
    {
        proof {
            assert(approvals@.take(i + 1).drop_last() == approvals@.take(i as int));
        }
        if contains_address(signers, approvals[i].signer) {
            valid = valid + 1;
        }
        i = i + 1;
    }
    proof {
        assert(approvals@.take(approvals@.len() as int) == approvals@);
    }
    valid
}

/// Whether `who` is in `list`.
pub fn contains_address(list: &Vec<Address>, who: Address) -> (r: bool)
    ensures
        r == list@.contains(who),
{
    let mut i: usize = 0;
    while i < list.len()
        invariant
            0 <= i <= list@.len(),
            forall|k: int| 0 <= k < i ==> list@[k] != who,
        decreases list@.len() - i,
    {
        if list[i] == who {
            return true;
        }
        i = i + 1;
    }
    false
}

fn has_approval(approvals: &Vec<MultisigApproval>, signer: Address) -> (r: bool)
    ensures
        r == approved_by(approvals@, signer),
{
    let mut i: usize = 0;
    while i < approvals.len()
        invariant
            0 <= i <= approvals@.len(),
            forall|k: int| 0 <= k < i ==> (#[trigger] approvals@[k]).signer != signer,
        decreases approvals@.len() - i,
    {
        if approvals[i].signer == signer {
            return true;
        }
        i = i + 1;
    }
    false
}

/// The signer configuration and every proposal ever made.
#[derive(Clone)]
pub struct MultisigLedger {
    pub config: Option<MultisigConfig>,
    pub proposals: Vec<MultisigProposal>,
}

impl MultisigLedger {
    /// Ids are creation ranks; proposals exist only under a configuration,
    /// which always holds a valid signer set; approval lists stay countable
    /// and no signer approves a proposal twice.
    pub open spec fn wf(&self) -> bool {
        &&& self.proposals@.len() < u32::MAX
        &&& forall|i: int| 0 <= i < self.proposals@.len() ==> (#[trigger] self.proposals@[i]).id == i + 1
        &&& forall|i: int| 0 <= i < self.proposals@.len() ==> (#[trigger] self.proposals@[i]).approvals@.len() < u32::MAX
        &&& forall|i: int| 0 <= i < self.proposals@.len() ==> distinct_approvers((#[trigger] self.proposals@[i]).approvals@)
        &&& self.proposals@.len() > 0 ==> self.config is Some
        &&& self.config matches Some(c) ==> signer_set_valid(c.signers@, c.threshold)
    }

    pub open spec fn has_proposal(&self, id: u32) -> bool {
        1 <= id <= self.proposals@.len()
    }

    pub open spec fn proposal(&self, id: u32) -> MultisigProposal {
        self.proposals@[id - 1]
    }

    /// Whether `who` is a current signer.
    pub open spec fn is_signer(&self, who: Address) -> bool {
        self.config matches Some(c) && c.signers@.contains(who)
    }

    /// Approvals of proposal `id` that count under the current signer set.
    pub open spec fn approval_count(&self, id: u32) -> nat {
        if !self.has_proposal(id) {
            0
        } else {
            valid_approvals(self.proposal(id).approvals@, self.config->0.signers@)
        }
    }

    pub fn new() -> (r: Self)
        ensures
            r.wf(),
            r.config is None,
            r.proposals@.len() == 0,
    {
        MultisigLedger { config: None, proposals: Vec::new() }
    }

    /// Whether `who` is a current signer.
    pub fn is_multisig_signer(&self, who: Address) -> (r: bool)
        ensures
            r == self.is_signer(who),
    {
        match &self.config {
            Some(c) => contains_address(&c.signers, who),
            None => false,
        }
    }

    /// Proposal `id`, if it exists.
    pub fn get_proposal(&self, id: u32) -> (r: Option<&MultisigProposal>)
        ensures
            r is None <==> !self.has_proposal(id),
            r matches Some(p) ==> *p == self.proposal(id),
    {
        if id == 0 || id as usize > self.proposals.len() {
            None
        } else {
            Some(&self.proposals[(id - 1) as usize])
        }
    }

    /// Number of proposals made.
    pub fn get_proposal_count(&self) -> (r: u32)
        requires
            self.wf(),
        ensures
            r == self.proposals@.len(),
    {
        self.proposals.len() as u32
    }

    /// The configuration.
    pub fn get_config(&self) -> (r: &MultisigConfig)
        requires
            self.config is Some,
        ensures
            *r == self.config->0,
    {
        match &self.config {
            Some(c) => c,
            None => vstd::pervasive::unreached(),
        }
    }

    /// Approvals of proposal `id` that count under the current signer set
    /// (zero for an unknown proposal).
    pub fn get_approval_count(&self, id: u32) -> (r: u32)
        requires
            self.wf(),
        ensures
            r == self.approval_count(id),
    {
        if id == 0 || id as usize > self.proposals.len() {
            return 0;
        }
        let p = &self.proposals[(id - 1) as usize];
        let c = self.get_config();
        count_valid_approvals(&p.approvals, &c.signers)
    }

    /// Whether `signer` has approved proposal `id`.
    pub fn has_approved(&self, id: u32, signer: Address) -> (r: bool)
        ensures
            r == (self.has_proposal(id) && approved_by(self.proposal(id).approvals@, signer)),
    {
        if id == 0 || id as usize > self.proposals.len() {
            return false;
        }
        has_approval(&self.proposals[(id - 1) as usize].approvals, signer)
    }

    /// Proposals still pending and not expired at `now`, in id order.
    pub fn get_pending_proposals(&self, now: u64) -> (r: Vec<&MultisigProposal>)
        ensures
            r@.map_values(|p: &MultisigProposal| *p) == self.proposals@.filter(|p: MultisigProposal| p.status == MultisigProposalStatus::Pending && now <= p.expires_at),
    {
        let mut out: Vec<&MultisigProposal> = Vec::new();
        let mut i: usize = 0;
        while i < self.proposals.len()
            invariant
                0 <= i <= self.proposals@.len(),
                out@.map_values(|p: &MultisigProposal| *p) == self.proposals@.take(i as int).filter(|p: MultisigProposal| p.status == MultisigProposalStatus::Pending && now <= p.expires_at),
            decreases self.proposals@.len() - i,
        {
            proof {
                reveal_with_fuel(Seq::filter, 1);
                assert(self.proposals@.take(i + 1).drop_last() == self.proposals@.take(i as int));
            }
            let p = &self.proposals[i];
            let ghost before = out@;
            if p.status == MultisigProposalStatus::Pending && now <= p.expires_at {
                out.push(p);
                proof {
                    assert(out@.map_values(|p: &MultisigProposal| *p) == before.map_values(|p: &MultisigProposal| *p).push(*p));
                }
            }
            i = i + 1;
        }
        proof {
            assert(self.proposals@.take(self.proposals@.len() as int) == self.proposals@);
        }
        out
    }
}

impl TaskManagerContract {
    /// What `configure_multisig` gives.
    pub open spec fn configure_multisig_outcome(&self, caller: Address, signers: Seq<Address>, threshold: u32) -> Result<(), ContractError> {
        if self.admin_outcome(caller) is Err {
            self.admin_outcome(caller)
        } else if !signer_set_valid(signers, threshold) {
            Err(ContractError::InvalidSignerSet)
        } else {
            Ok(())
        }
    }

    /// The admin installs the signer set and threshold; the proposal
    /// lifetime defaults to seven days and automatic execution to on.
    pub fn configure_multisig(
        &mut self,
        caller: Address,
        signers: Vec<Address>,
        threshold: u32,
        proposal_ttl: Option<u64>,
        auto_execute: Option<bool>,
    ) -> (r: Result<(), ContractError>)
        requires
            old(self).wf(),
        ensures
            final(self).wf(),
            r == old(self).configure_multisig_outcome(caller, signers@, threshold),
            r is Err ==> *final(self) == *old(self),
            r is Ok ==> {
                let c = final(self).multisig.config->0;
                &&& final(self).multisig.config is Some
                &&& c.signers@ == signers@
                &&& c.threshold == threshold
                &&& c.proposal_ttl == (match proposal_ttl { Some(t) => t, None => DEFAULT_PROPOSAL_TTL })
                &&& c.auto_execute == (match auto_execute { Some(b) => b, None => true })
                &&& final(self).multisig.proposals == old(self).multisig.proposals
                &&& final(self).only_multisig_changed(old(self))
            },
    {
        match self.require_admin(caller) {
            Ok(()) => {},
            Err(e) => return Err(e),
        }
        match validate_signer_set(&signers, threshold) {
            Ok(()) => {},
            Err(e) => return Err(e),
        }
        let ttl = match proposal_ttl {
            Some(t) => t,
            None => DEFAULT_PROPOSAL_TTL,
        };
        let auto = match auto_execute {
            Some(b) => b,
            None => true,
        };
        self.multisig.config = Some(MultisigConfig { signers, threshold, proposal_ttl: ttl, auto_execute: auto });
        Ok(())
    }

    /// `self` is `other` with only the multisig ledger replaced.
    pub open spec fn only_multisig_changed(&self, other: &Self) -> bool {
        *self == (TaskManagerContract { multisig: self.multisig, ..*other })
    }

    /// What `multisig_propose` gives.
    pub open spec fn propose_outcome(&self, proposer: Address, action: MultisigAction, now: u64) -> Result<(), ContractError> {
        if !self.multisig.is_signer(proposer) {
            Err(ContractError::NotSigner)
        } else if !action_valid(action) {
            Err(ContractError::InvalidAction)
        } else if self.multisig.proposals@.len() + 1 >= u32::MAX || now + self.multisig.config->0.proposal_ttl > u64::MAX {
            Err(ContractError::ArithmeticOverflow)
        } else {
            Ok(())
        }
    }

    /// A signer proposes `action`; it starts pending, with the current
    /// threshold and an expiry of one proposal lifetime after `now`.
    pub fn propose(&mut self, proposer: Address, description: String, action: MultisigAction, now: u64) -> (r: Result<u32, ContractError>)
        requires
            old(self).wf(),
        ensures
            final(self).wf(),
            match old(self).propose_outcome(proposer, action, now) {
                Err(e) => r == Err::<u32, ContractError>(e),
                Ok(()) => r == Ok::<u32, ContractError>((old(self).multisig.proposals@.len() + 1) as u32),
            },
            r is Err ==> *final(self) == *old(self),
            r matches Ok(id) ==> {
                let p = final(self).multisig.proposal(id);
                let c = old(self).multisig.config->0;
                &&& final(self).multisig.proposals@.len() == id
                &&& final(self).multisig.proposals@.drop_last() == old(self).multisig.proposals@
                &&& p.id == id && p.proposer == proposer && p.description@ == description@ && p.action == action
                &&& p.status == MultisigProposalStatus::Pending && p.approvals@.len() == 0
                &&& p.threshold == c.threshold && p.created_at == now && p.expires_at == now + c.proposal_ttl
                &&& p.executed_at is None
                &&& final(self).multisig.config == old(self).multisig.config
                &&& final(self).only_multisig_changed(old(self))
            },
    {
        if !self.multisig.is_multisig_signer(proposer) {
            return Err(ContractError::NotSigner);
        }
        match validate_action(&action) {
            Ok(()) => {},
            Err(e) => return Err(e),
        }
        let (threshold, ttl) = {
            let c = self.multisig.get_config();
            (c.threshold, c.proposal_ttl)
        };
        if self.multisig.proposals.len() >= (u32::MAX - 1) as usize {
            return Err(ContractError::ArithmeticOverflow);
        }
        let expires_at = match now.checked_add(ttl) {
            Some(e) => e,
            None => return Err(ContractError::ArithmeticOverflow),
        };
        let id = (self.multisig.proposals.len() + 1) as u32;
        let proposal = MultisigProposal {
            id,
            proposer,
            description,
            action,
            status: MultisigProposalStatus::Pending,
            approvals: Vec::new(),
            threshold,
            created_at: now,
            expires_at,
            executed_at: None,
        };
        self.multisig.proposals.push(proposal);
        Ok(id)
    }

    /// What performing `action` gives.
    pub open spec fn apply_outcome(&self, action: MultisigAction) -> Result<(), ContractError> {
        match action {
            MultisigAction::SetPlatformFee(bps) => if bps > MAX_PLATFORM_FEE_BPS { Err(ContractError::FeeTooHigh) } else { Ok(()) },
            MultisigAction::TreasuryTransfer(_, _, amount) => if amount <= 0 { Err(ContractError::InvalidAmount) } else { Ok(()) },
            MultisigAction::SetSigners(signers, threshold) =>
                if !signer_set_valid(signers@, threshold) {
                    Err(ContractError::InvalidSignerSet)
                } else if self.multisig.config is None {
                    Err(ContractError::MultisigNotConfigured)
                } else {
                    Ok(())
                },
            MultisigAction::ResolveDisputeSplit(task_id, recipients, shares) =>
                self.split_outcome(task_id, recipients@, shares@),
            _ => Ok(()),
        }
    }

    /// What performing `action` at `now` leaves, with the token movements
    /// `transfers`.
    pub open spec fn action_applied(&self, old: &Self, action: MultisigAction, transfers: Seq<Transfer>, now: u64) -> bool {
        match action {
            MultisigAction::SetPlatformFee(bps) => transfers.len() == 0
                && *self == (TaskManagerContract { platform_fee_bps: bps, ..*old }),
            MultisigAction::SetFeeRecipient(a) => transfers.len() == 0
                && *self == (TaskManagerContract { fee_recipient: a, ..*old }),
            MultisigAction::SetTokenContract(a) => transfers.len() == 0
                && *self == (TaskManagerContract { token_contract: a, ..*old }),
            MultisigAction::TreasuryTransfer(token, to, amount) =>
                transfers == seq![Transfer { token, from: old.contract_address, to, amount }]
                && *self == *old,
            MultisigAction::SetSigners(signers, threshold) => transfers.len() == 0 && {
                let c = self.multisig.config->0;
                &&& self.multisig.config is Some
                &&& c.signers@ == signers@ && c.threshold == threshold
                &&& c.proposal_ttl == old.multisig.config->0.proposal_ttl
                &&& c.auto_execute == old.multisig.config->0.auto_execute
                &&& self.multisig.proposals == old.multisig.proposals
                &&& self.only_multisig_changed(old)
            },
            MultisigAction::ResolveDisputeSplit(task_id, recipients, shares) =>
                self.split_applied(old, task_id, recipients@, shares@, transfers, now),
        }
    }

    /// Perform an approved action at `now`; returns the token movements.
    pub fn apply_action(&mut self, action: &MultisigAction, now: u64) -> (r: Result<Vec<Transfer>, ContractError>)
        requires
            old(self).wf(),
        ensures
            final(self).wf(),
            match old(self).apply_outcome(*action) {
                Err(e) => r == Err::<Vec<Transfer>, ContractError>(e),
                Ok(()) => r is Ok,
            },
            r is Err ==> *final(self) == *old(self),
            r matches Ok(transfers) ==> final(self).action_applied(old(self), *action, transfers@, now),
    {
        match action {
            MultisigAction::SetPlatformFee(bps) => {
                if *bps > MAX_PLATFORM_FEE_BPS {
                    return Err(ContractError::FeeTooHigh);
                }
                self.platform_fee_bps = *bps;
                Ok(Vec::new())
            },
            MultisigAction::SetFeeRecipient(a) => {
                self.fee_recipient = *a;
                Ok(Vec::new())
            },
            MultisigAction::SetTokenContract(a) => {
                self.token_contract = *a;
                Ok(Vec::new())
            },
            MultisigAction::TreasuryTransfer(token, to, amount) => {
                if *amount <= 0 {
                    return Err(ContractError::InvalidAmount);
                }
                let mut transfers: Vec<Transfer> = Vec::new();
                transfers.push(Transfer { token: *token, from: self.contract_address, to: *to, amount: *amount });
                Ok(transfers)
            },
            MultisigAction::SetSigners(signers, threshold) => {
                match validate_signer_set(signers, *threshold) {
                    Ok(()) => {},
                    Err(e) => return Err(e),
                }
                let (ttl, auto) = match &self.multisig.config {
                    Some(c) => (c.proposal_ttl, c.auto_execute),
                    None => return Err(ContractError::MultisigNotConfigured),
                };
                let new_signers = signers.clone();
                proof {
                    assert(new_signers@ == signers@);
                }
                self.multisig.config = Some(MultisigConfig { signers: new_signers, threshold: *threshold, proposal_ttl: ttl, auto_execute: auto });
                Ok(Vec::new())
            },
            MultisigAction::ResolveDisputeSplit(task_id, recipients, shares) => {
                self.resolve_dispute_split(*task_id, recipients, shares, now)
            },
        }
    }

    /// What `vote_proposal` gives, up to performing the action.
    pub open spec fn vote_outcome(&self, signer: Address, id: u32, now: u64) -> Result<(), ContractError> {
        let p = self.multisig.proposal(id);
        if !self.multisig.is_signer(signer) {
            Err(ContractError::NotSigner)
        } else if !self.multisig.has_proposal(id) {
            Err(ContractError::ProposalNotFound)
        } else if p.status != MultisigProposalStatus::Pending {
            Err(ContractError::ProposalNotPending)
        } else if now > p.expires_at {
            Err(ContractError::ProposalExpired)
        } else if approved_by(p.approvals@, signer) {
            Err(ContractError::AlreadyVoted)
        } else if p.approvals@.len() + 1 >= u32::MAX {
            Err(ContractError::ArithmeticOverflow)
        } else {
            Ok(())
        }
    }

    /// Whether the vote of `signer` on proposal `id` brings it to its threshold.
    pub open spec fn vote_reaches_threshold(&self, signer: Address, id: u32, now: u64) -> bool {
        let p = self.multisig.proposal(id);
        valid_approvals(p.approvals@.push(MultisigApproval { signer, approved_at: now }), self.multisig.config->0.signers@) >= p.threshold
    }

    /// A signer approves a pending, unexpired proposal once. Reaching the
    /// threshold approves it, and with automatic execution performs its
    /// action at once (a failing action refuses the whole vote). Returns the
    /// proposal's new status and the token movements of the action.
    pub fn vote_proposal(&mut self, signer: Address, id: u32, now: u64) -> (r: Result<(MultisigProposalStatus, Vec<Transfer>), ContractError>)
        requires
            old(self).wf(),
        ensures
            final(self).wf(),
            old(self).vote_outcome(signer, id, now) matches Err(e) ==> r == Err::<(MultisigProposalStatus, Vec<Transfer>), ContractError>(e),
            r is Ok ==> old(self).vote_outcome(signer, id, now) is Ok,
            r is Err ==> *final(self) == *old(self),
            r matches Ok((status, transfers)) ==> {
                let o = old(self).multisig.proposal(id);
                let p = final(self).multisig.proposal(id);
                let executes = old(self).vote_reaches_threshold(signer, id, now) && old(self).multisig.config->0.auto_execute;
                &&& p.approvals@ == o.approvals@.push(MultisigApproval { signer, approved_at: now })
                &&& status == p.status
                &&& status == (if executes {
                        MultisigProposalStatus::Executed
                    } else if old(self).vote_reaches_threshold(signer, id, now) {
                        MultisigProposalStatus::Approved
                    } else {
                        MultisigProposalStatus::Pending
                    })
                &&& p.executed_at == (if executes { Some(now) } else { o.executed_at })
                &&& p.id == o.id && p.proposer == o.proposer && p.action == o.action && p.threshold == o.threshold
                &&& p.created_at == o.created_at && p.expires_at == o.expires_at
                &&& final(self).multisig.proposals@ == old(self).multisig.proposals@.update(id - 1, p)
                &&& executes ==> (TaskManagerContract {
                        multisig: MultisigLedger { proposals: old(self).multisig.proposals, ..final(self).multisig },
                        ..*final(self)
                    }).action_applied(old(self), o.action, transfers@, now)
                &&& !executes ==> transfers@.len() == 0 && final(self).multisig.config == old(self).multisig.config
                    && final(self).only_multisig_changed(old(self))
            },
            r is Err && old(self).vote_outcome(signer, id, now) is Ok ==> old(self).vote_reaches_threshold(signer, id, now)
                && old(self).multisig.config->0.auto_execute
                && old(self).apply_outcome(old(self).multisig.proposal(id).action) is Err,
    {
        if !self.multisig.is_multisig_signer(signer) {
            return Err(ContractError::NotSigner);
        }
        if id == 0 || id as usize > self.multisig.proposals.len() {
            return Err(ContractError::ProposalNotFound);
        }
        let idx = (id - 1) as usize;
        if self.multisig.proposals[idx].status != MultisigProposalStatus::Pending {
            return Err(ContractError::ProposalNotPending);
        }
        if now > self.multisig.proposals[idx].expires_at {
            return Err(ContractError::ProposalExpired);
        }
        if has_approval(&self.multisig.proposals[idx].approvals, signer) {
            return Err(ContractError::AlreadyVoted);
        }
        if self.multisig.proposals[idx].approvals.len() >= (u32::MAX - 1) as usize {
            return Err(ContractError::ArithmeticOverflow);
        }
        let mut approvals = self.multisig.proposals[idx].approvals.clone();
        proof {
            assert(approvals@ =~= old(self).multisig.proposals@[idx as int].approvals@);
        }
        approvals.push(MultisigApproval { signer, approved_at: now });
        proof {
            let o = old(self).multisig.proposals@[idx as int].approvals@;
            assert forall|a: int, b: int| 0 <= a < b < approvals@.len() implies
                (#[trigger] approvals@[a]).signer != (#[trigger] approvals@[b]).signer by {
                if b == o.len() {
                    assert(approvals@[a] == o[a]);
                    assert(!approved_by(o, signer));
                }
            };
        }
        let (valid, auto) = {
            let c = self.multisig.get_config();
            (count_valid_approvals(&approvals, &c.signers), c.auto_execute)
        };
        let threshold = self.multisig.proposals[idx].threshold;
        let reached = valid >= threshold;
        let mut transfers: Vec<Transfer> = Vec::new();
        let ghost before = *self;
        if reached && auto {
            let action = self.multisig.proposals[idx].action.copy_action();
            transfers = match self.apply_action(&action, now) {
                Ok(t) => t,
                Err(e) => return Err(e),
            };
        }
        let status = if reached && auto {
            MultisigProposalStatus::Executed
        } else if reached {
            MultisigProposalStatus::Approved
        } else {
            MultisigProposalStatus::Pending
        };
        self.multisig.proposals[idx].approvals = approvals;
        self.multisig.proposals[idx].status = status;
        if reached && auto {
            self.multisig.proposals[idx].executed_at = Some(now);
        }
        Ok((status, transfers))
    }

    /// What `multisig_execute_proposal` gives, up to performing the action.
    pub open spec fn execute_outcome(&self, caller: Address, id: u32, now: u64) -> Result<(), ContractError> {
        let p = self.multisig.proposal(id);
        if !self.multisig.is_signer(caller) {
            Err(ContractError::NotSigner)
        } else if !self.multisig.has_proposal(id) {
            Err(ContractError::ProposalNotFound)
        } else if p.status != MultisigProposalStatus::Approved {
            Err(ContractError::ProposalNotApproved)
        } else if now > p.expires_at {
            Err(ContractError::ProposalExpired)
        } else if self.multisig.approval_count(id) < p.threshold {
            Err(ContractError::ThresholdNotMet)
        } else {
            self.apply_outcome(p.action)
        }
    }

    /// A signer executes an approved, unexpired proposal whose approvals
    /// from current signers still reach its threshold.
    pub fn multisig_execute_proposal(&mut self, caller: Address, id: u32, now: u64) -> (r: Result<(MultisigProposalStatus, Vec<Transfer>), ContractError>)
        requires
            old(self).wf(),
        ensures
            final(self).wf(),
            match old(self).execute_outcome(caller, id, now) {
                Err(e) => r == Err::<(MultisigProposalStatus, Vec<Transfer>), ContractError>(e),
                Ok(()) => r is Ok,
            },
            r is Err ==> *final(self) == *old(self),
            r matches Ok((status, transfers)) ==> {
                let o = old(self).multisig.proposal(id);
                let p = final(self).multisig.proposal(id);
                &&& status == MultisigProposalStatus::Executed
                &&& p == (MultisigProposal { status: MultisigProposalStatus::Executed, executed_at: Some(now), ..o })
                &&& final(self).multisig.proposals@ == old(self).multisig.proposals@.update(id - 1, p)
                &&& (TaskManagerContract {
                        multisig: MultisigLedger { proposals: old(self).multisig.proposals, ..final(self).multisig },
                        ..*final(self)
                    }).action_applied(old(self), o.action, transfers@, now)
            },
    {
        if !self.multisig.is_multisig_signer(caller) {
            return Err(ContractError::NotSigner);
        }
        if id == 0 || id as usize > self.multisig.proposals.len() {
            return Err(ContractError::ProposalNotFound);
        }
        let idx = (id - 1) as usize;
        if self.multisig.proposals[idx].status != MultisigProposalStatus::Approved {
            return Err(ContractError::ProposalNotApproved);
        }
        if now > self.multisig.proposals[idx].expires_at {
            return Err(ContractError::ProposalExpired);
        }
        let valid = self.multisig.get_approval_count(id);
        if valid < self.multisig.proposals[idx].threshold {
            return Err(ContractError::ThresholdNotMet);
        }
        let action = self.multisig.proposals[idx].action.copy_action();
        let transfers = match self.apply_action(&action, now) {
            Ok(t) => t,
            Err(e) => return Err(e),
        };
        self.multisig.proposals[idx].status = MultisigProposalStatus::Executed;
        self.multisig.proposals[idx].executed_at = Some(now);
        Ok((MultisigProposalStatus::Executed, transfers))
    }

    /// What `multisig_cancel_proposal` gives.
    pub open spec fn cancel_proposal_outcome(&self, caller: Address, id: u32) -> Result<(), ContractError> {
        let p = self.multisig.proposal(id);
        if !self.multisig.has_proposal(id) {
            Err(ContractError::ProposalNotFound)
        } else if p.status == MultisigProposalStatus::Executed || p.status == MultisigProposalStatus::Cancelled {
            Err(ContractError::ProposalNotActive)
        } else if !self.initialized {
            Err(ContractError::NotInitialized)
        } else if caller != p.proposer && caller != self.admin {
            Err(ContractError::NotAuthorized)
        } else {
            Ok(())
        }
    }

    /// The proposer or the admin cancels a proposal not yet executed.
    pub fn multisig_cancel_proposal(&mut self, caller: Address, id: u32) -> (r: Result<(), ContractError>)
        requires
            old(self).wf(),
        ensures
            final(self).wf(),
            r == old(self).cancel_proposal_outcome(caller, id),
            r is Err ==> *final(self) == *old(self),
            r is Ok ==> {
                let o = old(self).multisig.proposal(id);
                &&& final(self).multisig.proposals@ == old(self).multisig.proposals@.update(id - 1,
                    MultisigProposal { status: MultisigProposalStatus::Cancelled, ..o })
                &&& final(self).multisig.config == old(self).multisig.config
                &&& final(self).only_multisig_changed(old(self))
            },
    {
        if id == 0 || id as usize > self.multisig.proposals.len() {
            return Err(ContractError::ProposalNotFound);
        }
        let idx = (id - 1) as usize;
        let status = self.multisig.proposals[idx].status;
        if status == MultisigProposalStatus::Executed || status == MultisigProposalStatus::Cancelled {
            return Err(ContractError::ProposalNotActive);
        }
        if !self.initialized {
            return Err(ContractError::NotInitialized);
        }
        if caller != self.multisig.proposals[idx].proposer && caller != self.admin {
            return Err(ContractError::NotAuthorized);
        }
        self.multisig.proposals[idx].status = MultisigProposalStatus::Cancelled;
        proof {
            assert(self.multisig.proposals@ =~= old(self).multisig.proposals@.update(id - 1,
                MultisigProposal { status: MultisigProposalStatus::Cancelled, ..old(self).multisig.proposals@[id - 1] }));
        }
        Ok(())
    }

    /// The contract's endpoint for `propose`.
    pub fn multisig_propose(&mut self, proposer: Address, description: String, action: MultisigAction, now: u64) -> (r: Result<u32, ContractError>)
        requires
            old(self).wf(),
        ensures
            final(self).wf(),
            match old(self).propose_outcome(proposer, action, now) {
                Err(e) => r == Err::<u32, ContractError>(e),
                Ok(()) => r == Ok::<u32, ContractError>((old(self).multisig.proposals@.len() + 1) as u32),
            },
            r is Err ==> *final(self) == *old(self),
            r matches Ok(id) ==> {
                let p = final(self).multisig.proposal(id);
                let c = old(self).multisig.config->0;
                &&& final(self).multisig.proposals@.len() == id
                &&& final(self).multisig.proposals@.drop_last() == old(self).multisig.proposals@
                &&& p.id == id && p.proposer == proposer && p.description@ == description@ && p.action == action
                &&& p.status == MultisigProposalStatus::Pending && p.approvals@.len() == 0
                &&& p.threshold == c.threshold && p.created_at == now && p.expires_at == now + c.proposal_ttl
                &&& p.executed_at is None
                &&& final(self).multisig.config == old(self).multisig.config
                &&& final(self).only_multisig_changed(old(self))
            },
    {
        self.propose(proposer, description, action, now)
    }

    /// Multisig proposal `id`, if it exists.
    pub fn get_multisig_proposal(&self, id: u32) -> (r: Option<&MultisigProposal>)
        ensures
            r is None <==> !self.multisig.has_proposal(id),
            r matches Some(p) ==> *p == self.multisig.proposal(id),
    {
        self.multisig.get_proposal(id)
    }

    /// The multisig configuration.
    pub fn get_multisig_config(&self) -> (r: &MultisigConfig)
        requires
            self.multisig.config is Some,
        ensures
            *r == self.multisig.config->0,
    {
        self.multisig.get_config()
    }

    /// Whether `who` is a current multisig signer.
    pub fn is_multisig_signer(&self, who: Address) -> (r: bool)
        ensures
            r == self.multisig.is_signer(who),
    {
        self.multisig.is_multisig_signer(who)
    }

    /// Approvals of multisig proposal `id` from current signers.
    pub fn get_multisig_approval_count(&self, id: u32) -> (r: u32)
        requires
            self.wf(),
        ensures
            r == self.multisig.approval_count(id),
    {
        self.multisig.get_approval_count(id)
    }

    /// Whether `signer` has approved multisig proposal `id`.
    pub fn has_approved_proposal(&self, id: u32, signer: Address) -> (r: bool)
        ensures
            r == (self.multisig.has_proposal(id) && approved_by(self.multisig.proposal(id).approvals@, signer)),
    {
        self.multisig.has_approved(id, signer)
    }

    /// Multisig proposals pending and unexpired at `now`.
    pub fn get_pending_multisig_proposals(&self, now: u64) -> (r: Vec<&MultisigProposal>)
        ensures
            r@.map_values(|p: &MultisigProposal| *p) == self.multisig.proposals@.filter(|p: MultisigProposal| p.status == MultisigProposalStatus::Pending && now <= p.expires_at),
    {
        self.multisig.get_pending_proposals(now)
    }
}

} // verus!
