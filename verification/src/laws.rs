//! Properties of the contract that span several calls or every state.

use vstd::prelude::*;
use crate::types::{Address, MAX_PLATFORM_FEE_BPS};
use crate::fee_for;
use crate::escrow::EscrowLedger;
use crate::vault::Vault;
use crate::multisig::{MultisigAction, MultisigProposalStatus};
use crate::governance::{Governance, VoteType, has_voted};
use crate::upgrade::{UpgradeManager, UpgradeStatus};
use crate::vesting_vault::{VestingVaultBook, VestingVaultStatus};
use crate::treasury::{Treasury, VestingSchedule, sum_unclaimed, schedule_valid, vested_at, periods_since, retained_after, lemma_retained_monotonic, lemma_retained_bounds};
use crate::types::{ContractError, Transfer};
use crate::pausable::PauseAction;
use crate::{TaskStatus, unsettled};
use crate::lifecycle::{moved, payment, split_transfers, split_fits};
use crate::multisig::shares_total;
use crate::types::{fits_i128, trunc_div};
use crate::twap_oracle::{PriceObservation, PairId, TwapOracle, screen, screened, deviation_of, in_window, outlier_filter,
    all_within, lemma_in_window_within, lemma_outlier_filter_bounds, positions_within, lemma_window_positions,
    lemma_outlier_filter_picks};
use crate::zkp_attestation::{ZkAttestationRegistry, IdentityAttestation, VerificationKey};
use crate::TaskManagerContract;
use crate::merkle::{merkle_climb, node_views, lex_le, sha256_digest};
use crate::governance::ProposalStatus;
use crate::zkp_attestation::{commitment_of, signals_bytes};

verus! {

/// The platform fee on a non-negative reward, at an admissible rate, is
/// between zero and a tenth of the reward, and fee plus payout is the reward.
pub proof fn law_fee_split(reward: i128, bps: u32)
    requires
        reward >= 0,
        bps <= MAX_PLATFORM_FEE_BPS,
    ensures
        0 <= fee_for(reward, bps),
        fee_for(reward, bps) * 10 <= reward,
        fee_for(reward, bps) + (reward - fee_for(reward, bps)) == reward,
{
    assert(0 <= reward * bps <= reward * 1000) by (nonlinear_arith)
        requires reward >= 0, bps <= 1000;
    let f = (reward * bps) / 10000;
    assert(f * 10000 <= reward * bps) by (nonlinear_arith)
        requires f == (reward * bps) / 10000, reward * bps >= 0;
    assert(f * 10 <= reward) by (nonlinear_arith)
        requires f * 10000 <= reward * 1000, reward >= 0;
    assert(f >= 0) by (nonlinear_arith)
        requires f == (reward * bps) / 10000, reward * bps >= 0;
}

/// Locking an amount in escrow and then releasing it leaves every task's
/// locked balance as it was.
pub proof fn law_escrow_lock_release_roundtrip(e0: EscrowLedger, e1: EscrowLedger, e2: EscrowLedger, task_id: u32, amount: i128)
    requires
        e0.lock_outcome(task_id, amount) is Ok,
        e1.task_escrow@ == e0.task_escrow@.insert(task_id, (e0.locked_of(task_id) + amount) as i128),
        e2.task_escrow@ == e1.task_escrow@.insert(task_id, (e1.locked_of(task_id) - amount) as i128),
    ensures
        forall|t: u32| e2.locked_of(t) == e0.locked_of(t),
{
}

/// Depositing into the vault and claiming the same amount back leaves every
/// token total and every depositor credit as it was; the claim is owed.
pub proof fn law_vault_deposit_claim_roundtrip(v0: Vault, v1: Vault, v2: Vault, depositor: Address, token: Address, amount: i128)
    requires
        v0.wf(),
        v0.deposit_outcome(depositor, token, amount) is Ok,
        v1.deposit_applied(&v0, depositor, token, amount),
        v2.claim_applied(&v1, depositor, token, amount),
    ensures
        v1.claim_outcome(depositor, token, amount) is Ok,
        forall|t: Address| v2.total_of(t) == v0.total_of(t),
        forall|d: Address, t: Address| v2.credit_of(d, t) == v0.credit_of(d, t),
{
    let k = crate::swap_router::balance_key(depositor, token);
    assert(v0.credits@.contains_key(k) ==> v0.credits@[k] >= 0);
}

/// Executed and cancelled multisig proposals are final: no vote, execution
/// or cancellation is accepted on them.
pub proof fn law_multisig_terminal(c: TaskManagerContract, caller: Address, id: u32, now: u64)
    requires
        c.multisig.has_proposal(id),
        c.multisig.proposal(id).status == MultisigProposalStatus::Executed
            || c.multisig.proposal(id).status == MultisigProposalStatus::Cancelled,
    ensures
        c.vote_outcome(caller, id, now) is Err,
        c.execute_outcome(caller, id, now) is Err,
        c.cancel_proposal_outcome(caller, id) is Err,
{
}

/// A voter who has voted on a proposal cannot vote on it again.
pub proof fn law_one_vote_per_voter(g: Governance, voter: Address, id: u32, vote_type: VoteType, weight: u32, now: u64)
    requires
        has_voted(g.votes@, id, voter),
    ensures
        g.vote_outcome(voter, id, vote_type, weight, now) is Err,
{
}

/// An upgrade executes only once its timelock has elapsed and only from the
/// pending state; a vetoed or executed proposal never executes.
pub proof fn law_upgrade_timelock(u: UpgradeManager, caller: Address, admin: Option<Address>, now: u64)
    requires
        u.pending is Some,
        now < u.pending->0.ready_at || u.pending->0.status != UpgradeStatus::Pending,
    ensures
        u.execute_outcome(caller, admin, now) is Err,
{
}

/// A vesting vault pays out only when active and after its window; a
/// disputed vault is never released.
pub proof fn law_vesting_release_guard(b: VestingVaultBook, caller: Address, vault_id: u32, admin: Option<Address>, now: u64)
    requires
        b.has_vault(vault_id),
        b.vault(vault_id).status != VestingVaultStatus::Active || now < b.vault(vault_id).vesting_end,
    ensures
        b.release_outcome(caller, vault_id, admin, now) is Err,
{
}

/// The treasury never owes more than it holds, and no schedule pays out
/// more than its total.
pub proof fn law_treasury_solvent(t: Treasury)
    requires
        t.wf(),
    ensures
        sum_unclaimed(t.schedules@) <= t.balance,
        forall|i: int| 0 <= i < t.schedules@.len() ==>
            0 <= (#[trigger] t.schedules@[i]).claimed_amount <= t.schedules@[i].total_amount,
{
    assert forall|i: int| 0 <= i < t.schedules@.len() implies
        0 <= (#[trigger] t.schedules@[i]).claimed_amount <= t.schedules@[i].total_amount by {
        assert(crate::treasury::schedule_valid(t.schedules@[i]));
    };
}

/// Every observation that survives outlier screening lies within the
/// tolerance of the median.
pub proof fn law_screen_within_tolerance(obs: Seq<PriceObservation>, median: i128, max_dev: u32)
    requires
        screen(obs, median, max_dev) is Some,
    ensures
        forall|k: int| 0 <= k < screened(obs, median, max_dev).len() ==>
            (deviation_of((#[trigger] screened(obs, median, max_dev)[k]).price, median) matches Some(d) && d <= max_dev),
    decreases obs.len(),
{
    if obs.len() > 0 {
        law_screen_within_tolerance(obs.drop_last(), median, max_dev);
    }
}

/// A spent nullifier never attests again.
pub proof fn law_nullifier_single_use(reg: ZkAttestationRegistry, att: IdentityAttestation, vk: VerificationKey)
    requires
        reg.nullifier_used(att.nullifier),
    ensures
        reg.verify_outcome(&att, &vk) is Err,
{
}

/// A task that is verified, cancelled, under dispute or resolved accepts no
/// completion, no cancellation and no new dispute.
pub proof fn law_task_settled_states(c: TaskManagerContract, caller: Address, task_id: u32)
    requires
        c.has_task(task_id),
        c.task(task_id).status == TaskStatus::Verified || c.task(task_id).status == TaskStatus::Cancelled
            || c.task(task_id).status == TaskStatus::Disputed || c.task(task_id).status == TaskStatus::Resolved,
    ensures
        c.complete_outcome(caller, task_id) is Err,
        c.cancel_outcome(caller, task_id) is Err,
        c.dispute_outcome(caller, task_id) is Err,
{
}

/// While an action is paused for a caller, that caller's completion,
/// cancellation or dispute of any task is refused as paused.
pub proof fn law_paused_actions_refused(c: TaskManagerContract, caller: Address, task_id: u32)
    ensures
        c.pauses.paused_for(PauseAction::CompleteTask, Some(caller))
            ==> c.complete_outcome(caller, task_id) == Err::<(), ContractError>(ContractError::ActionPaused),
        c.pauses.paused_for(PauseAction::CancelTask, Some(caller))
            ==> c.cancel_outcome(caller, task_id) == Err::<(), ContractError>(ContractError::ActionPaused),
        c.pauses.paused_for(PauseAction::DisputeTask, Some(caller))
            ==> c.dispute_outcome(caller, task_id) == Err::<(), ContractError>(ContractError::ActionPaused),
{
}

/// A multisig proposal is executed only at a current signer's request, while
/// approved and unexpired, and only when the approvals of current signers
/// reach the threshold fixed when it was proposed.
pub proof fn law_multisig_threshold(c: TaskManagerContract, caller: Address, id: u32, now: u64)
    requires
        c.execute_outcome(caller, id, now) is Ok,
    ensures
        c.multisig.is_signer(caller),
        c.multisig.has_proposal(id),
        c.multisig.proposal(id).status == MultisigProposalStatus::Approved,
        now <= c.multisig.proposal(id).expires_at,
        c.multisig.approval_count(id) >= c.multisig.proposal(id).threshold,
{
}

/// The vested amount of a schedule never decreases as time passes.
pub proof fn law_vested_monotonic(s: VestingSchedule, t1: u64, t2: u64)
    requires
        schedule_valid(s),
        t1 <= t2,
        vested_at(s, t1) is Some,
        vested_at(s, t2) is Some,
    ensures
        vested_at(s, t1)->0 <= vested_at(s, t2)->0,
{
    let cliff_end = s.start_time + s.cliff_seconds;
    let total = s.total_amount as int;
    let rate = s.decay_rate_bps as int;
    if t2 >= cliff_end {
        let p2 = periods_since(t2 - cliff_end, s.period_seconds as int);
        lemma_retained_bounds(rate, p2);
        let r2 = retained_after(rate, p2);
        assert(total * (10000 - r2) >= 0) by (nonlinear_arith)
            requires total > 0, r2 <= 10000;
        if t1 >= cliff_end {
            let e1 = t1 - cliff_end;
            let e2 = t2 - cliff_end;
            let d = s.period_seconds as int;
            vstd::arithmetic::div_mod::lemma_div_is_ordered(e1, e2, d);
            let p1 = periods_since(e1, d);
            assert(p1 <= p2);
            lemma_retained_monotonic(rate, p1, p2);
            let r1 = retained_after(rate, p1);
            lemma_retained_bounds(rate, p1);
            assert(total * (10000 - r1) <= total * (10000 - r2)) by (nonlinear_arith)
                requires total > 0, r2 <= r1;
            assert(total * (10000 - r1) >= 0) by (nonlinear_arith)
                requires total > 0, r1 <= 10000;
            vstd::arithmetic::div_mod::lemma_div_is_ordered(total * (10000 - r1), total * (10000 - r2), 10000);
        } else {
            vstd::arithmetic::div_mod::lemma_div_pos_is_pos(total * (10000 - r2), 10000);
        }
    }
}

/// Rotating the signer set leaves the threshold of every live proposal as
/// it was fixed when the proposal was made.
pub proof fn law_multisig_threshold_snapshot(
    c0: TaskManagerContract,
    c1: TaskManagerContract,
    signers: Vec<Address>,
    threshold: u32,
    transfers: Seq<Transfer>,
    now: u64,
)
    requires
        c1.action_applied(&c0, MultisigAction::SetSigners(signers, threshold), transfers, now),
    ensures
        forall|id: u32| c0.multisig.has_proposal(id) ==> c1.multisig.has_proposal(id)
            && (#[trigger] c1.multisig.proposal(id)).threshold == c0.multisig.proposal(id).threshold,
{
}

proof fn lemma_moved_concat(a: Seq<Transfer>, b: Seq<Transfer>)
    ensures
        moved(a + b) == moved(a) + moved(b),
    decreases b.len(),
{
    if b.len() == 0 {
        assert(a + b =~= a);
    } else {
        lemma_moved_concat(a, b.drop_last());
        assert((a + b).drop_last() =~= a + b.drop_last());
    }
}

proof fn lemma_moved_payment(token: Address, from: Address, to: Address, amount: i128)
    ensures
        moved(payment(token, from, to, amount)) == (if amount > 0 { amount as int } else { 0 }),
{
    let p = payment(token, from, to, amount);
    if amount > 0 {
        assert(p.len() == 1);
        assert(p.drop_last() =~= Seq::<Transfer>::empty());
        assert(moved(p.drop_last()) == 0);
        assert(p.last().amount == amount);
    } else {
        assert(p.len() == 0);
    }
}

/// Completing a task pays out exactly its reward: the fee to the fee
/// recipient and the rest to the assignee.
pub proof fn law_completion_pays_the_reward(
    token: Address,
    contract: Address,
    fee_recipient: Address,
    assignee: Address,
    reward: i128,
    bps: u32,
    fee: i128,
    payout: i128,
)
    requires
        reward >= 0,
        bps <= MAX_PLATFORM_FEE_BPS,
        fee == fee_for(reward, bps),
        payout == reward - fee,
    ensures
        moved(payment(token, contract, fee_recipient, fee) + payment(token, contract, assignee, payout)) == reward,
{
    law_fee_split(reward, bps);
    lemma_moved_concat(payment(token, contract, fee_recipient, fee), payment(token, contract, assignee, payout));
    lemma_moved_payment(token, contract, fee_recipient, fee);
    lemma_moved_payment(token, contract, assignee, payout);
}

proof fn lemma_split_bounded(token: Address, from: Address, recipients: Seq<Address>, shares: Seq<u32>, reward: i128)
    requires
        reward >= 0,
        recipients.len() <= shares.len(),
        split_fits(shares, reward),
    ensures
        0 <= moved(split_transfers(token, from, recipients, shares, reward)),
        moved(split_transfers(token, from, recipients, shares, reward)) * 10000
            <= reward * shares_total(shares.take(recipients.len() as int)),
    decreases recipients.len(),
{
    let n = recipients.len() as int;
    if n == 0 {
        assert(shares.take(0) =~= Seq::<u32>::empty());
    } else {
        let k = n - 1;
        let head = split_transfers(token, from, recipients.drop_last(), shares.take(k), reward);
        let x = reward * shares[k];
        assert(fits_i128(x));
        let amount = trunc_div(x, 10000);
        assert(0 <= x) by (nonlinear_arith)
            requires x == reward * shares[k], reward >= 0, shares[k] >= 0;
        assert(amount == x / 10000);
        assert(amount * 10000 <= x && amount >= 0) by (nonlinear_arith)
            requires amount == x / 10000, x >= 0;
        assert(split_fits(shares.take(k), reward)) by {
            assert forall|j: int| 0 <= j < shares.take(k).len() implies fits_i128(reward * #[trigger] shares.take(k)[j]) by {
                assert(shares.take(k)[j] == shares[j]);
            };
        };
        lemma_split_bounded(token, from, recipients.drop_last(), shares.take(k), reward);
        assert(shares.take(k).take(k) =~= shares.take(k));
        lemma_moved_concat(head, payment(token, from, recipients.last(), amount as i128));
        lemma_moved_payment(token, from, recipients.last(), amount as i128);
        assert(shares.take(n).drop_last() =~= shares.take(k));
        assert(shares_total(shares.take(n)) == shares_total(shares.take(k)) + shares[k]);
        let m = moved(head);
        let t = shares_total(shares.take(k));
        assert(m * 10000 + amount * 10000 <= reward * (t + shares[k])) by (nonlinear_arith)
            requires m * 10000 <= reward * t, amount * 10000 <= reward * shares[k];
    }
}

/// A split resolution never pays out more than the task's reward.
pub proof fn law_split_within_reward(token: Address, from: Address, recipients: Seq<Address>, shares: Seq<u32>, reward: i128)
    requires
        reward >= 0,
        recipients.len() == shares.len(),
        shares_total(shares) == 10000,
        split_fits(shares, reward),
    ensures
        0 <= moved(split_transfers(token, from, recipients, shares, reward)) <= reward,
{
    lemma_split_bounded(token, from, recipients, shares, reward);
    assert(shares.take(shares.len() as int) =~= shares);
    let m = moved(split_transfers(token, from, recipients, shares, reward));
    assert(m <= reward) by (nonlinear_arith)
        requires m * 10000 <= reward * 10000;
}

/// In every reachable state the escrow holds exactly the reward of each
/// open, in-progress, submitted or disputed task, nothing for a settled
/// task, and nothing for an id that names no task.
pub proof fn law_escrow_backs_unsettled_tasks(c: TaskManagerContract, task_id: u32)
    requires
        c.wf(),
    ensures
        c.has_task(task_id) && unsettled(c.task(task_id).status) ==> c.escrow.locked_of(task_id) == c.task(task_id).reward,
        c.has_task(task_id) && !unsettled(c.task(task_id).status) ==> c.escrow.locked_of(task_id) == 0,
        !c.has_task(task_id) ==> c.escrow.locked_of(task_id) == 0,
{
    if c.has_task(task_id) {
        assert(c.tasks@[task_id - 1] == c.task(task_id));
    }
}

/// A TWAP is either the fallback price or computed from at least one and at
/// most all of the pair's observations, all taken within the configured
/// window ending at `now`, with an average deviation no larger than the
/// configured maximum.
pub proof fn law_twap_within_window(o: TwapOracle, pair: PairId, now: u64)
    requires
        o.wf(),
        o.twap_outcome(pair, now) is Ok,
    ensures
        o.twap_outcome(pair, now) matches Ok(t) && {
            let cfg = o.config->0;
            let start: u64 = if now >= cfg.observation_window_secs { (now - cfg.observation_window_secs) as u64 } else { 0 };
            &&& t.used_fallback ==> o.twap_outcome(pair, now) == o.fallback_outcome(pair)
            &&& !t.used_fallback ==> {
                &&& start <= t.oldest_timestamp && t.oldest_timestamp <= now
                &&& start <= t.newest_timestamp && t.newest_timestamp <= now
                &&& 1 <= t.observation_count <= o.observations_of(pair).len()
                &&& t.avg_deviation_bps <= cfg.max_deviation_bps
            }
        },
{
    let cfg = o.config->0;
    let all = o.observations_of(pair);
    let start: u64 = if now >= cfg.observation_window_secs { (now - cfg.observation_window_secs) as u64 } else { 0 };
    let w = in_window(all, start, now);
    lemma_in_window_within(all, start, now);
    if all.len() >= cfg.min_observation_count && w.len() >= cfg.min_observation_count {
        if outlier_filter(w, cfg.max_deviation_bps) is Some {
            lemma_outlier_filter_bounds(w, cfg.max_deviation_bps, start, now);
            let (kept, avg) = outlier_filter(w, cfg.max_deviation_bps)->0;
            if kept.len() > 0 {
                assert(kept[0] == kept[0]);
                assert(kept.last() == kept[kept.len() - 1]);
                assert(o.observations@.contains_key(pair) ==> all.len() < u32::MAX);
            }
        }
    }
}

/// A computed TWAP (not the fallback price) is only given when at least the
/// configured minimum number of the pair's observations were taken within
/// the window `[start, now]`, where `start` is `now - observation_window_secs`
/// (0 when the window reaches back past it).
pub proof fn law_twap_needs_enough_window_observations(o: TwapOracle, pair: PairId, now: u64, start: u64)
    requires
        o.wf(),
        o.config is Some ==> start == (if now >= o.config->0.observation_window_secs { (now - o.config->0.observation_window_secs) as u64 } else { 0u64 }),
        o.twap_outcome(pair, now) matches Ok(t) && !t.used_fallback,
    ensures
        o.config is Some,
        exists|idx: Seq<int>| #[trigger] positions_within(o.observations_of(pair), idx, start, now)
            && idx.len() >= o.config->0.min_observation_count,
{
    let all = o.observations_of(pair);
    let idx = lemma_window_positions(all, start, now);
    assert(positions_within(all, idx, start, now));
}

/// When fewer than the configured minimum number of the pair's
/// observations were taken within the window `[start, now]` (`start` as
/// above), the TWAP is the fallback price if a secondary oracle is
/// configured, and `InsufficientObservations` otherwise.
pub proof fn law_twap_thin_window_falls_back(o: TwapOracle, pair: PairId, now: u64, start: u64)
    requires
        o.wf(),
        o.config is Some,
        start == (if now >= o.config->0.observation_window_secs { (now - o.config->0.observation_window_secs) as u64 } else { 0u64 }),
        forall|idx: Seq<int>| #[trigger] positions_within(o.observations_of(pair), idx, start, now)
            ==> idx.len() < o.config->0.min_observation_count,
    ensures
        o.twap_outcome(pair, now) == (if o.config->0.secondary_oracle is Some {
            o.fallback_outcome(pair)
        } else {
            Err::<crate::twap_oracle::TwapResult, ContractError>(ContractError::InsufficientObservations)
        }),
{
    let all = o.observations_of(pair);
    let idx = lemma_window_positions(all, start, now);
    assert(positions_within(all, idx, start, now));
}

/// A computed TWAP (not the fallback price) is the slope of the cumulative
/// price between two of the pair's observations taken within the window
/// `[start, now]` (`start` as above), the first at or before the second:
/// the price is their cumulative-price difference divided, truncating, by
/// the seconds between them (by 1 when taken at the same second), and the
/// reported oldest and newest timestamps are theirs.
pub proof fn law_twap_is_cumulative_slope(o: TwapOracle, pair: PairId, now: u64, start: u64)
    requires
        o.wf(),
        o.config is Some,
        start == (if now >= o.config->0.observation_window_secs { (now - o.config->0.observation_window_secs) as u64 } else { 0u64 }),
        o.twap_outcome(pair, now) matches Ok(t) && !t.used_fallback,
    ensures
        o.twap_outcome(pair, now) matches Ok(t) && exists|a: int, b: int|
            #![trigger o.observations_of(pair)[a], o.observations_of(pair)[b]]
            0 <= a <= b < o.observations_of(pair).len()
            && start <= o.observations_of(pair)[a].timestamp && o.observations_of(pair)[a].timestamp <= now
            && start <= o.observations_of(pair)[b].timestamp && o.observations_of(pair)[b].timestamp <= now
            && t.oldest_timestamp == o.observations_of(pair)[a].timestamp
            && t.newest_timestamp == o.observations_of(pair)[b].timestamp
            && t.price == trunc_div(
                o.observations_of(pair)[b].cumulative_price - o.observations_of(pair)[a].cumulative_price,
                if o.observations_of(pair)[b].timestamp > o.observations_of(pair)[a].timestamp {
                    o.observations_of(pair)[b].timestamp - o.observations_of(pair)[a].timestamp
                } else {
                    1
                }),
{
    let cfg = o.config->0;
    let all = o.observations_of(pair);
    let w = in_window(all, start, now);
    let idx1 = lemma_window_positions(all, start, now);
    let (kept, avg) = outlier_filter(w, cfg.max_deviation_bps)->0;
    let idx2 = lemma_outlier_filter_picks(w, cfg.max_deviation_bps);
    let n = kept.len() as int;
    let i0 = idx2[0];
    let i1 = idx2[n - 1];
    if n > 1 {
        assert(idx2[0] < idx2[n - 1]);
    }
    assert(0 <= i0 <= i1 < w.len());
    let a = idx1[i0];
    let b = idx1[i1];
    if i0 < i1 {
        assert(idx1[i0] < idx1[i1]);
    }
    assert(kept[0] == all[a]);
    assert(kept.last() == kept[n - 1]);
    assert(kept[n - 1] == all[b]);
    let delta: int = all[b].cumulative_price - all[a].cumulative_price;
    let dt: int = if all[b].timestamp > all[a].timestamp { all[b].timestamp - all[a].timestamp } else { 1 };
    assert(fits_i128(trunc_div(delta, dt))) by {
        assert(dt >= 1);
        if delta >= 0 {
            assert(0 <= delta / dt <= delta) by (nonlinear_arith) requires delta >= 0, dt >= 1;
        } else {
            assert(0 <= (-delta) / dt <= -delta) by (nonlinear_arith) requires -delta > 0, dt >= 1;
        }
    };
    assert(all[a] == all[a] && all[b] == all[b]);
}

/// A Merkle proof is read from the leaf up. With no siblings the leaf must
/// itself be the root. Otherwise the first element is the leaf's sibling:
/// the two are hashed smaller-first (SHA-256 of the lexicographically
/// smaller node followed by the larger) and the rest of the proof climbs on
/// from that parent, so a proof verifies exactly when its remainder verifies
/// from the parent.
pub proof fn law_merkle_proof_starts_at_the_leaf(root: [u8; 32], leaf: [u8; 32], proof: Seq<[u8; 32]>)
    ensures
        proof.len() == 0 ==> merkle_climb(leaf@, node_views(proof)) == leaf@,
        proof.len() > 0 ==> merkle_climb(leaf@, node_views(proof)) == merkle_climb(
            if lex_le(leaf@, proof[0]@) { sha256_digest(leaf@ + proof[0]@) } else { sha256_digest(proof[0]@ + leaf@) },
            node_views(proof.drop_first())),
        proof.len() > 0 ==> ((merkle_climb(leaf@, node_views(proof)) == root@) <==> (merkle_climb(
            if lex_le(leaf@, proof[0]@) { sha256_digest(leaf@ + proof[0]@) } else { sha256_digest(proof[0]@ + leaf@) },
            node_views(proof.drop_first())) == root@)),
{
    if proof.len() > 0 {
        assert(node_views(proof)[0] == proof[0]@);
        assert(node_views(proof).drop_first() =~= node_views(proof.drop_first()));
    }
}

/// A two-sibling proof `[s0, s1]` verifies against exactly one root: the
/// sorted-pair hash of (the sorted-pair hash of the leaf and `s0`) and `s1`.
pub proof fn law_merkle_two_level_root(leaf: [u8; 32], s0: [u8; 32], s1: [u8; 32])
    ensures
        ({
            let p = if lex_le(leaf@, s0@) { sha256_digest(leaf@ + s0@) } else { sha256_digest(s0@ + leaf@) };
            merkle_climb(leaf@, node_views(seq![s0, s1]))
                == if lex_le(p, s1@) { sha256_digest(p + s1@) } else { sha256_digest(s1@ + p) }
        }),
{
    let v = node_views(seq![s0, s1]);
    assert(v.drop_first() =~= seq![s1@]);
    assert(v.drop_first().drop_first() =~= Seq::<Seq<u8>>::empty());
    reveal_with_fuel(merkle_climb, 3);
}

/// Once voting has closed on an active proposal whose turnout (for, against
/// and abstain weight) reaches the quorum and which has some for or against
/// weight, it passes exactly when the for weight, as a whole percentage of
/// the for and against weight, reaches the threshold: abstentions count
/// toward the quorum only. Below the quorum it is rejected.
pub proof fn law_governance_decided_by_cast_votes(g: Governance, id: u32, now: u64)
    requires
        g.wf(),
        g.has_proposal(id),
        g.proposal(id).status == ProposalStatus::Active,
        now > g.proposal(id).voting_ends_at,
        g.proposal(id).votes_for + g.proposal(id).votes_against + g.proposal(id).votes_abstain <= u32::MAX,
        g.proposal(id).votes_for * 100 <= u32::MAX,
    ensures
        ({
            let p = g.proposal(id);
            &&& p.votes_for + p.votes_against + p.votes_abstain < p.quorum
                ==> g.execute_outcome(id, now) == Ok::<bool, ContractError>(false)
            &&& p.votes_for + p.votes_against + p.votes_abstain >= p.quorum && p.votes_for + p.votes_against > 0
                ==> g.execute_outcome(id, now) == Ok::<bool, ContractError>(
                    (p.votes_for * 100) / (p.votes_for + p.votes_against) >= p.threshold)
        }),
{
}

/// The creator or the assignee of an existing task may dispute it while it
/// is in progress or its work is submitted (and disputing is not paused for
/// them, and the dispute counter has room); a dispute in any other state,
/// or by anybody else, is refused.
pub proof fn law_dispute_in_progress_or_submitted(c: TaskManagerContract, caller: Address, task_id: u32)
    requires
        c.wf(),
    ensures
        c.dispute_outcome(caller, task_id) is Ok <==> {
            &&& !c.pauses.paused_for(PauseAction::DisputeTask, Some(caller))
            &&& 1 <= task_id <= c.tasks@.len()
            &&& caller == c.tasks@[task_id - 1].created_by || c.tasks@[task_id - 1].assignee == Some(caller)
            &&& c.tasks@[task_id - 1].status == TaskStatus::InProgress || c.tasks@[task_id - 1].status == TaskStatus::Completed
            &&& c.statistics.total_tasks_disputed < u32::MAX
        },
        !c.pauses.paused_for(PauseAction::DisputeTask, Some(caller)) && 1 <= task_id <= c.tasks@.len()
            && (caller == c.tasks@[task_id - 1].created_by || c.tasks@[task_id - 1].assignee == Some(caller))
            && c.tasks@[task_id - 1].status != TaskStatus::InProgress && c.tasks@[task_id - 1].status != TaskStatus::Completed
            ==> c.dispute_outcome(caller, task_id) == Err::<(), ContractError>(ContractError::TaskNotDisputable),
{
}

/// The bytes of a signal list: signal `i`'s byte `j` at `32 * i + j`.
proof fn lemma_signals_bytes_layout(s: Seq<[u8; 32]>)
    ensures
        signals_bytes(s).len() == 32 * s.len(),
        forall|i: int, j: int| #![trigger s[i]@[j]] 0 <= i < s.len() && 0 <= j < 32 ==> signals_bytes(s)[32 * i + j] == s[i]@[j],
    decreases s.len(),
{
    if s.len() > 0 {
        let d = s.drop_last();
        lemma_signals_bytes_layout(d);
        assert forall|i: int, j: int| #![trigger s[i]@[j]] 0 <= i < s.len() && 0 <= j < 32
            implies signals_bytes(s)[32 * i + j] == s[i]@[j] by {
            if i < s.len() - 1 {
                assert(d[i] == s[i]);
                assert(d[i]@[j] == s[i]@[j]);
            } else {
                assert(s.last() == s[i]);
            }
        };
    }
}

/// The attestation commitment is SHA-256 of the 32 nullifier bytes
/// followed by the 32 bytes of each public signal, in order.
pub proof fn law_commitment_preimage(nullifier: [u8; 32], signals: Seq<[u8; 32]>)
    ensures
        exists|pre: Seq<u8>| #[trigger] sha256_digest(pre) == commitment_of(nullifier, signals) && {
            &&& pre.len() == 32 + 32 * signals.len()
            &&& forall|k: int| 0 <= k < 32 ==> pre[k] == nullifier@[k]
            &&& forall|i: int, j: int| #![trigger signals[i]@[j]] 0 <= i < signals.len() && 0 <= j < 32
                ==> pre[32 + 32 * i + j] == signals[i]@[j]
        },
{
    lemma_signals_bytes_layout(signals);
    let pre = nullifier@ + signals_bytes(signals);
    assert forall|i: int, j: int| #![trigger signals[i]@[j]] 0 <= i < signals.len() && 0 <= j < 32
        implies pre[32 + 32 * i + j] == signals[i]@[j] by {
        assert(signals_bytes(signals)[32 * i + j] == signals[i]@[j]);
    };
    assert(sha256_digest(pre) == commitment_of(nullifier, signals));
}

/// With one public signal, the commitment is SHA-256 of the 64 bytes of the
/// nullifier followed by the signal.
pub proof fn law_commitment_of_one_signal(nullifier: [u8; 32], signal: [u8; 32])
    ensures
        commitment_of(nullifier, seq![signal]) == sha256_digest(nullifier@ + signal@),
{
    assert(seq![signal].drop_last() =~= Seq::<[u8; 32]>::empty());
    reveal_with_fuel(signals_bytes, 2);
    assert(Seq::<u8>::empty() + signal@ =~= signal@);
    assert(signals_bytes(seq![signal]) =~= signal@);
}

} // verus!
