//! Self-contained arithmetic and state-machine models of the contract's core
//! invariants: fee splitting, vault and escrow bookkeeping, reputation
//! flooring, oracle-guarded minimum returns, slippage bounds, the milestone
//! state machine, dispute splits, governance thresholds and swap-route
//! shape checks. Each model states its invariant in its contract.

use vstd::prelude::*;
use crate::types::{fits_i128, trunc_div};

verus! {

/// Oracle price scale (7 decimals).
pub const ORACLE_DECIMALS: i128 = 10_000_000;

/// Basis-point denominator used by the models.
pub const BPS_DENOM: i128 = 10_000;

/// Integer division as Rust computes it, for a nonzero divisor whose
/// quotient fits in `i128`.
fn div_i128(a: i128, b: i128) -> (q: i128)
    requires
        b != 0,
        !(a == i128::MIN && b == -1),
    ensures
        q == trunc_div(a as int, b as int),
{
    proof {
        lemma_trunc_div_in_range(a as int, b as int, i128::MIN as int, i128::MAX as int);
    }
    match a.checked_div(b) {
        Some(q) => q,
        None => {
            assert(false);
            0
        },
    }
}

/// Integer division as Rust computes it on `i64`.
fn div_i64(a: i64, b: i64) -> (q: i64)
    requires
        b != 0,
        !(a == i64::MIN && b == -1),
    ensures
        q == trunc_div(a as int, b as int),
{
    proof {
        lemma_trunc_div_in_range(a as int, b as int, i64::MIN as int, i64::MAX as int);
    }
    match a.checked_div(b) {
        Some(q) => q,
        None => {
            assert(false);
            0
        },
    }
}

/// The truncated quotient lies between zero and the dividend, and is smaller
/// in magnitude than the dividend whenever the divisor is not +1 or -1.
proof fn lemma_trunc_div_bounded(a: int, b: int)
    requires
        b != 0,
    ensures
        a >= 0 && b > 0 ==> 0 <= trunc_div(a, b) <= a,
        a >= 0 && b < 0 ==> -a <= trunc_div(a, b) <= 0,
        a < 0 && b > 0 ==> a <= trunc_div(a, b) <= 0,
        a < 0 && b < 0 ==> 0 <= trunc_div(a, b) <= -a,
        a < 0 && b < -1 ==> trunc_div(a, b) <= -a / 2,
{
    let m = if a >= 0 { a } else { -a };
    let d = if b > 0 { b } else { -b };
    vstd::arithmetic::div_mod::lemma_div_is_ordered_by_denominator(m, 1, d);
    vstd::arithmetic::div_mod::lemma_div_basics_2(m);
    vstd::arithmetic::div_mod::lemma_div_pos_is_pos(m, d);
    if d >= 2 {
        vstd::arithmetic::div_mod::lemma_div_is_ordered_by_denominator(m, 2, d);
    }
}

/// The quotient Rust computes stays in range except for `MIN / -1`.
proof fn lemma_trunc_div_in_range(a: int, b: int, lo: int, hi: int)
    requires
        b != 0,
        lo <= a <= hi,
        lo == -hi - 1,
        hi > 0,
        !(a == lo && b == -1),
    ensures
        lo <= trunc_div(a, b) <= hi,
{
    lemma_trunc_div_bounded(a, b);
}

/// Platform fee and payout for a reward at `bps` basis points:
/// `fee = reward * bps / 10000` (truncated), `payout = reward - fee`.
/// For a nonnegative reward and a fee of at most 100%, the split is exact and
/// both parts are nonnegative and bounded by the reward.
pub fn pure_fee_calculation(reward: i128, bps: u32) -> (r: (i128, i128))
    requires
        fits_i128(reward * bps),
    ensures
        r.0 == trunc_div(reward * bps, 10000),
        r.1 == reward - r.0,
        r.0 + r.1 == reward,
        reward >= 0 && bps <= 10000 ==> 0 <= r.0 <= reward && 0 <= r.1 <= reward,
        reward >= 0 && bps == 0 ==> r.0 == 0 && r.1 == reward,
{
    let product: i128 = reward * (bps as i128);
    let fee = div_i128(product, 10000);
    proof {
        lemma_trunc_div_bounded(reward * bps, 10000);
        if reward >= 0 && bps <= 10000 {
            assert(reward * bps <= reward * 10000) by (nonlinear_arith)
                requires reward >= 0, bps <= 10000;
            vstd::arithmetic::div_mod::lemma_div_is_ordered(reward * bps, reward * 10000, 10000);
            vstd::arithmetic::div_mod::lemma_div_multiples_vanish(reward as int, 10000);
            assert(reward * bps >= 0) by (nonlinear_arith)
                requires reward >= 0, bps >= 0;
        }
        if reward >= 0 {
            assert(reward * bps >= 0) by (nonlinear_arith)
                requires reward >= 0, bps >= 0;
        } else {
            assert(reward * bps <= 0) by (nonlinear_arith)
                requires reward < 0, bps >= 0;
            assert(reward * bps <= reward || bps == 0) by (nonlinear_arith)
                requires reward < 0, bps >= 0;
        }
        if bps == 0 {
            assert(reward * bps == 0);
        }
    }
    let payout = reward - fee;
    (fee, payout)
}

/// Vault deposit bookkeeping: both the vault total and the depositor balance
/// grow by exactly `amount`; rejected for a non-positive amount or overflow.
pub fn pure_vault_deposit(vault_total: i128, depositor_balance: i128, amount: i128) -> (r: Option<(i128, i128)>)
    ensures
        r is None <==> (amount <= 0 || !fits_i128(vault_total + amount) || !fits_i128(depositor_balance + amount)),
        r matches Some((v, d)) ==> v == vault_total + amount && d == depositor_balance + amount
            && v > vault_total && d > depositor_balance,
{
    if amount <= 0 {
        return None;
    }
    let new_vault = match vault_total.checked_add(amount) {
        Some(v) => v,
        None => return None,
    };
    let new_dep = match depositor_balance.checked_add(amount) {
        Some(d) => d,
        None => return None,
    };
    Some((new_vault, new_dep))
}

/// Vault claim bookkeeping: both balances shrink by exactly `amount`;
/// rejected for a non-positive amount or when either balance is short.
pub fn pure_vault_claim(vault_total: i128, depositor_balance: i128, amount: i128) -> (r: Option<(i128, i128)>)
    ensures
        r is None <==> (amount <= 0 || depositor_balance < amount || vault_total < amount),
        r matches Some((v, d)) ==> v == vault_total - amount && d == depositor_balance - amount
            && v >= 0 && d >= 0,
{
    if amount <= 0 || depositor_balance < amount || vault_total < amount {
        return None;
    }
    Some((vault_total - amount, depositor_balance - amount))
}

/// Escrow release: the balance drops by exactly `amount`, never below zero.
pub fn pure_escrow_release(balance: i128, amount: i128) -> (r: Option<i128>)
    ensures
        r is None <==> (amount < 0 || balance < amount),
        r matches Some(b) ==> b == balance - amount && 0 <= b <= balance,
{
    if amount < 0 || balance < amount {
        return None;
    }
    Some(balance - amount)
}

/// Escrow lock: the balance grows by exactly `amount` (monotonic).
pub fn pure_escrow_lock(balance: i128, amount: i128) -> (r: Option<i128>)
    ensures
        r is None <==> (amount <= 0 || !fits_i128(balance + amount)),
        r matches Some(b) ==> b == balance + amount && b > balance,
{
    if amount <= 0 {
        return None;
    }
    balance.checked_add(amount)
}

/// Reputation update floored at zero.
pub fn pure_reputation_update(current: i32, points: i32) -> (r: i32)
    requires
        i32::MIN <= current + points <= i32::MAX,
    ensures
        r >= 0,
        current + points >= 0 ==> r == current + points,
        current + points < 0 ==> r == 0,
{
    let sum = current + points;
    if sum < 0 { 0 } else { sum }
}

/// `a + b` clamped to the `i128` range.
pub fn pure_saturating_add(a: i128, b: i128) -> (r: i128)
    ensures
        fits_i128(a + b) ==> r == a + b,
        a + b > i128::MAX ==> r == i128::MAX,
        a + b < i128::MIN ==> r == i128::MIN,
{
    match a.checked_add(b) {
        Some(s) => s,
        None => if b > 0 { i128::MAX } else { i128::MIN },
    }
}

/// `a - b` clamped to the `i128` range.
pub fn pure_saturating_sub(a: i128, b: i128) -> (r: i128)
    ensures
        fits_i128(a - b) ==> r == a - b,
        a - b > i128::MAX ==> r == i128::MAX,
        a - b < i128::MIN ==> r == i128::MIN,
{
    match a.checked_sub(b) {
        Some(s) => s,
        None => if b < 0 { i128::MAX } else { i128::MIN },
    }
}

/// The oracle-derived minimum return of `oracle_min_out_i128`, as a value.
pub open spec fn oracle_min_out_spec(amount_in: int, price_in: int, price_out: int, slippage_bps: int, lo: int, hi: int) -> Option<int> {
    let product = amount_in * price_in;
    if product < lo || product > hi {
        None
    } else {
        let expected = trunc_div(product, price_out);
        let scaled = expected * (10000 - slippage_bps);
        if scaled < lo || scaled > hi {
            None
        } else {
            Some(trunc_div(scaled, 10000))
        }
    }
}

/// Minimum acceptable output of a conversion priced by an oracle:
/// `expected = amount_in * price_in / price_out`,
/// `min_out = expected * (10000 - slippage) / 10000`; `None` on overflow.
pub fn pure_oracle_min_out(amount_in: i128, price_in: i128, price_out: i128, slippage_bps: u32) -> (r: Option<i128>)
    requires
        price_out != 0,
        !(amount_in * price_in == i128::MIN && price_out == -1),
    ensures
        r matches Some(m) ==> Some(m as int) == oracle_min_out_spec(
            amount_in as int, price_in as int, price_out as int, slippage_bps as int,
            i128::MIN as int, i128::MAX as int),
        r is None <==> oracle_min_out_spec(
            amount_in as int, price_in as int, price_out as int, slippage_bps as int,
            i128::MIN as int, i128::MAX as int) is None,
{
    let product = match amount_in.checked_mul(price_in) {
        Some(p) => p,
        None => return None,
    };
    let expected = div_i128(product, price_out);
    let factor: i128 = BPS_DENOM - (slippage_bps as i128);
    match expected.checked_mul(factor) {
        Some(scaled) => Some(div_i128(scaled, BPS_DENOM)),
        None => None,
    }
}

/// `pure_oracle_min_out` on `i64` values.
pub fn pure_oracle_min_out_i64(amount_in: i64, price_in: i64, price_out: i64, slippage_bps: u32) -> (r: Option<i64>)
    requires
        price_out != 0,
        !(amount_in * price_in == i64::MIN && price_out == -1),
    ensures
        r matches Some(m) ==> Some(m as int) == oracle_min_out_spec(
            amount_in as int, price_in as int, price_out as int, slippage_bps as int,
            i64::MIN as int, i64::MAX as int),
        r is None <==> oracle_min_out_spec(
            amount_in as int, price_in as int, price_out as int, slippage_bps as int,
            i64::MIN as int, i64::MAX as int) is None,
        amount_in > 0 && price_in > 0 && price_out > 0 && slippage_bps <= 10000 ==>
            (r matches Some(m) ==> m >= 0),
{
    let product = match amount_in.checked_mul(price_in) {
        Some(p) => p,
        None => return None,
    };
    let expected = div_i64(product, price_out);
    let factor: i64 = 10000i64 - (slippage_bps as i64);
    proof {
        if amount_in > 0 && price_in > 0 && price_out > 0 {
            assert(product >= 0) by (nonlinear_arith)
                requires product == amount_in * price_in, amount_in > 0, price_in > 0;
            vstd::arithmetic::div_mod::lemma_div_pos_is_pos(product as int, price_out as int);
        }
    }
    match expected.checked_mul(factor) {
        Some(scaled) => {
            proof {
                if amount_in > 0 && price_in > 0 && price_out > 0 && slippage_bps <= 10000 {
                    assert(scaled >= 0) by (nonlinear_arith)
                        requires scaled == expected * factor, expected >= 0, factor >= 0;
                    vstd::arithmetic::div_mod::lemma_div_pos_is_pos(scaled as int, 10000);
                }
            }
            Some(div_i64(scaled, 10000))
        },
        None => None,
    }
}

/// Slippage guard: `min_out = expected * (10000 - slippage) / 10000`;
/// `None` when the slippage exceeds 100% or on overflow. For a nonnegative
/// expectation the minimum never exceeds it, and equals it at zero slippage.
pub fn pure_slippage_guard(expected_out: i128, slippage_bps: u32) -> (r: Option<i128>)
    ensures
        slippage_bps > 10000 ==> r is None,
        slippage_bps <= 10000 ==> (r is None <==> !fits_i128(expected_out * (10000 - slippage_bps))),
        r matches Some(m) ==> m == trunc_div(expected_out * (10000 - slippage_bps), 10000),
        r matches Some(m) ==> (expected_out >= 0 ==> 0 <= m <= expected_out),
        r matches Some(m) ==> (slippage_bps == 0 ==> m == expected_out),
{
    if slippage_bps > 10000 {
        return None;
    }
    let factor: i128 = BPS_DENOM - (slippage_bps as i128);
    match expected_out.checked_mul(factor) {
        Some(scaled) => {
            proof {
                if expected_out >= 0 {
                    assert(0 <= scaled <= expected_out * 10000) by (nonlinear_arith)
                        requires scaled == expected_out * factor, expected_out >= 0, 0 <= factor <= 10000;
                    vstd::arithmetic::div_mod::lemma_div_pos_is_pos(scaled as int, 10000);
                    vstd::arithmetic::div_mod::lemma_div_is_ordered(scaled as int, expected_out * 10000, 10000);
                    vstd::arithmetic::div_mod::lemma_div_multiples_vanish(expected_out as int, 10000);
                }
                if slippage_bps == 0 {
                    vstd::arithmetic::div_mod::lemma_div_multiples_vanish(expected_out as int, 10000);
                    if expected_out < 0 {
                        vstd::arithmetic::div_mod::lemma_div_multiples_vanish(-expected_out, 10000);
                    }
                }
            }
            Some(div_i128(scaled, BPS_DENOM))
        },
        None => None,
    }
}

/// States of the milestone state machine.
#[derive(Clone, Copy, PartialEq, Eq, Debug, Structural)]
pub enum MsState {
    Pending,
    Submitted,
    Approved,
    Rejected,
}

/// Submit: allowed from `Pending` or `Rejected`, leads to `Submitted`.
pub fn ms_submit(state: MsState) -> (r: Option<MsState>)
    ensures
        r == (if state == MsState::Pending || state == MsState::Rejected { Some(MsState::Submitted) } else { None }),
{
    match state {
        MsState::Pending | MsState::Rejected => Some(MsState::Submitted),
        _ => None,
    }
}

/// Approve: allowed only from `Submitted`, leads to `Approved`.
pub fn ms_approve(state: MsState) -> (r: Option<MsState>)
    ensures
        r == (if state == MsState::Submitted { Some(MsState::Approved) } else { None }),
{
    match state {
        MsState::Submitted => Some(MsState::Approved),
        _ => None,
    }
}

/// Reject: allowed only from `Submitted`, leads to `Rejected`.
pub fn ms_reject(state: MsState) -> (r: Option<MsState>)
    ensures
        r == (if state == MsState::Submitted { Some(MsState::Rejected) } else { None }),
{
    match state {
        MsState::Submitted => Some(MsState::Rejected),
        _ => None,
    }
}

/// Escrow statistics are consistent: all totals nonnegative and nothing
/// released or refunded beyond what was locked.
pub fn pure_escrow_stats_invariant(total_locked: i128, total_released: i128, total_refunded: i128) -> (r: bool)
    requires
        !(total_locked >= 0 && total_released >= 0 && total_refunded >= 0
            && total_released + total_refunded > i128::MAX),
    ensures
        r == (total_locked >= 0 && total_released >= 0 && total_refunded >= 0
            && total_locked >= total_released + total_refunded),
{
    total_locked >= 0 && total_released >= 0 && total_refunded >= 0
        && total_locked >= total_released + total_refunded
}

/// A dispute split neither creates nor destroys value.
pub fn pure_dispute_split(reward: i128, creator_refund: i128, assignee_payout: i128) -> (r: bool)
    requires
        !(creator_refund >= 0 && assignee_payout >= 0 && creator_refund + assignee_payout > i128::MAX),
    ensures
        r == (creator_refund >= 0 && assignee_payout >= 0 && creator_refund + assignee_payout == reward),
{
    creator_refund >= 0 && assignee_payout >= 0 && creator_refund + assignee_payout == reward
}

/// Share of "for" votes among non-abstaining votes, in whole percent;
/// `None` when nobody voted for or against.
pub fn pure_threshold(votes_for: u32, votes_against: u32) -> (r: Option<u32>)
    requires
        votes_for + votes_against <= u32::MAX,
        votes_for + votes_against != 0 ==> votes_for * 100 <= u32::MAX,
    ensures
        r is None <==> votes_for + votes_against == 0,
        r matches Some(p) ==> p == (votes_for * 100) / (votes_for + votes_against),
        r matches Some(p) ==> p <= 100,
        r matches Some(p) ==> (votes_against == 0 ==> p == 100),
        r matches Some(p) ==> (votes_for == 0 ==> p == 0),
{
    let non_abstain = votes_for + votes_against;
    if non_abstain == 0 {
        return None;
    }
    let pct = votes_for * 100 / non_abstain;
    proof {
        let n = non_abstain as int;
        assert(votes_for * 100 <= n * 100) by (nonlinear_arith)
            requires votes_for <= n;
        vstd::arithmetic::div_mod::lemma_div_is_ordered(votes_for * 100, n * 100, n);
        vstd::arithmetic::div_mod::lemma_div_multiples_vanish(100, n);
        assert(n * 100 == 100 * n) by (nonlinear_arith);
        if votes_against == 0 {
            assert(votes_for * 100 == 100 * n) by (nonlinear_arith)
                requires votes_for == n;
        }
    }
    Some(pct)
}

/// A swap route has the right shape: at least one hop, at most `max_hops`,
/// and exactly one more path token than hops.
pub fn pure_validate_route(hops: usize, path_len: usize, max_hops: u32) -> (r: bool)
    ensures
        r == (hops > 0 && hops <= max_hops && path_len == hops + 1),
{
    if hops == 0 || hops > max_hops as usize {
        return false;
    }
    match hops.checked_add(1) {
        Some(expected) => path_len == expected,
        None => false,
    }
}

} // verus!
