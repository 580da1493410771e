//! Decentralized reward treasury: decay-curve vesting and distribution.
//!
//! Each elapsed vesting period releases a fixed share of whatever is still
//! unvested: after `n` periods past the cliff the unvested fraction is
//! `(decay_rate_bps / 10000)^n` (computed step by step in basis points,
//! rounding down), so `vested = total * (1 - retained)`.

use vstd::prelude::*;
use crate::types::{Address, ContractError, Transfer, fits_i128, trunc_div};
use crate::TaskManagerContract;

verus! {

/// Upper bound on the number of decay periods applied.
pub const MAX_DECAY_PERIODS: u32 = 500;

/// Unvested fraction, in basis points, after `n` decay steps at retention
/// `rate` (each step keeps `rate / 10000` of the previous value, rounded down).
pub open spec fn retained_after(rate: int, n: nat) -> int
    decreases n,
{
    if n == 0 {
        10000
    } else {
        retained_after(rate, (n - 1) as nat) * rate / 10000
    }
}

/// The retained fraction stays within `0..=10000` and never grows.
pub proof fn lemma_retained_bounds(rate: int, n: nat)
    requires
        0 <= rate <= 10000,
    ensures
        0 <= retained_after(rate, n) <= 10000,
        retained_after(rate, n + 1) <= retained_after(rate, n),
    decreases n,
{
    if n > 0 {
        lemma_retained_bounds(rate, (n - 1) as nat);
    }
    let x = retained_after(rate, n);
    assert(0 <= x * rate <= x * 10000) by (nonlinear_arith)
        requires 0 <= x, 0 <= rate <= 10000;
    vstd::arithmetic::div_mod::lemma_div_is_ordered(x * rate, x * 10000, 10000);
    vstd::arithmetic::div_mod::lemma_div_multiples_vanish(x, 10000);
    vstd::arithmetic::div_mod::lemma_div_pos_is_pos(x * rate, 10000);
}

/// The retained fraction never grows with more periods.
pub proof fn lemma_retained_monotonic(rate: int, m: nat, n: nat)
    requires
        0 <= rate <= 10000,
        m <= n,
    ensures
        retained_after(rate, n) <= retained_after(rate, m),
    decreases n - m,
{
    if m < n {
        lemma_retained_monotonic(rate, m, (n - 1) as nat);
        lemma_retained_bounds(rate, (n - 1) as nat);
    }
}

/// Once the retained fraction reaches zero it stays zero.
proof fn lemma_retained_zero_stays(rate: int, m: nat, n: nat)
    requires
        m <= n,
        retained_after(rate, m) == 0,
    ensures
        retained_after(rate, n) == 0,
    decreases n - m,
{
    if m < n {
        lemma_retained_zero_stays(rate, m, (n - 1) as nat);
    }
}

/// Whether stepping the decay `steps` times at `rate` stays within `i128`.
pub open spec fn decay_fits(rate: int, steps: nat) -> bool {
    forall|k: nat| k < steps ==> #[trigger] retained_after(rate, k) * rate <= i128::MAX
}

/// The retained fraction is never negative for a non-negative rate.
proof fn lemma_retained_nonneg(rate: int, n: nat)
    requires
        0 <= rate,
    ensures
        0 <= retained_after(rate, n),
    decreases n,
{
    if n > 0 {
        lemma_retained_nonneg(rate, (n - 1) as nat);
        let x = retained_after(rate, (n - 1) as nat);
        assert(x * rate >= 0) by (nonlinear_arith)
            requires x >= 0, rate >= 0;
    }
}

/// Fraction (in basis points) of a schedule that is still unvested after
/// `periods` decay steps at retention `rate_bps` per step; `periods` is
/// capped at `MAX_DECAY_PERIODS`. Up to 10000 the result is exact and never
/// above 10000; a larger rate must not overflow, and its result is cut to
/// 32 bits as the cast does.
pub fn decay_retained_bps(rate_bps: u32, periods: u32) -> (r: u32)
    requires
        rate_bps <= 10000 || decay_fits(rate_bps as int,
            (if periods < MAX_DECAY_PERIODS { periods } else { MAX_DECAY_PERIODS }) as nat),
    ensures
        r == #[verifier::truncate] (retained_after(rate_bps as int, (if periods < MAX_DECAY_PERIODS { periods } else { MAX_DECAY_PERIODS }) as nat) as u32),
        rate_bps <= 10000 ==> r == retained_after(rate_bps as int, (if periods < MAX_DECAY_PERIODS { periods } else { MAX_DECAY_PERIODS }) as nat),
        rate_bps <= 10000 ==> r <= 10000,
{
    let steps: u32 = if periods < MAX_DECAY_PERIODS { periods } else { MAX_DECAY_PERIODS };
    let rate: i128 = rate_bps as i128;
    let mut retained: i128 = 10000;
    let mut k: u32 = 0;
    while k < steps
        invariant
            0 <= k <= steps,
            rate == rate_bps,
            rate_bps <= 10000 || decay_fits(rate_bps as int, steps as nat),
            retained == retained_after(rate_bps as int, k as nat),
            0 <= retained,
            rate_bps <= 10000 ==> retained <= 10000,
        ensures
            retained == retained_after(rate_bps as int, steps as nat),
        decreases steps - k,
    {
        if retained == 0 {
            proof {
                lemma_retained_zero_stays(rate_bps as int, k as nat, steps as nat);
            }
            break;
        }
        proof {
            if rate_bps <= 10000 {
                lemma_retained_bounds(rate_bps as int, k as nat);
                assert(retained * rate <= 10000 * 10000) by (nonlinear_arith)
                    requires 0 <= retained <= 10000, 0 <= rate <= 10000;
            } else {
                assert(retained_after(rate_bps as int, k as nat) * rate_bps <= i128::MAX);
            }
            assert(retained * rate >= 0) by (nonlinear_arith)
                requires 0 <= retained, 0 <= rate;
            lemma_retained_nonneg(rate_bps as int, (k + 1) as nat);
        }
        retained = (retained * rate) / 10000;
        k = k + 1;
    }
    proof {
        if rate_bps <= 10000 {
            lemma_retained_bounds(rate_bps as int, steps as nat);
        }
    }
    #[verifier::truncate]
    (retained as u32)
}

/// Ledger storage keys of the treasury records.
#[derive(Clone, Copy, Debug, PartialEq, Eq, Structural)]
pub enum TreasuryKey {
    Token,
    Balance,
    AllocatedTotal,
    ScheduleCount,
    Schedule(u32),
    BeneficiarySchedules(Address),
}

/// A decay-curve vesting schedule. Its id is its 1-based creation rank.
#[derive(Clone, Copy, Debug, PartialEq, Eq, Structural)]
pub struct VestingSchedule {
    pub id: u32,
    pub beneficiary: Address,
    pub total_amount: i128,
    pub claimed_amount: i128,
    pub start_time: u64,
    pub cliff_seconds: u64,
    pub period_seconds: u64,
    /// Basis points (below 10000) of the still-unvested balance that stays
    /// unvested after each elapsed period.
    pub decay_rate_bps: u32,
    pub created_at: u64,
}

/// A schedule as `create_vesting_schedule` admits it.
pub open spec fn schedule_valid(s: VestingSchedule) -> bool {
    &&& s.total_amount > 0
    &&& s.period_seconds > 0
    &&& s.decay_rate_bps < 10000
    &&& 0 <= s.claimed_amount <= s.total_amount
}

/// Periods elapsed since the cliff, capped at `MAX_DECAY_PERIODS`.
pub open spec fn periods_since(elapsed: int, period: int) -> nat {
    let p = elapsed / period;
    if p > MAX_DECAY_PERIODS { MAX_DECAY_PERIODS as nat } else { p as nat }
}

/// Amount of schedule `s` vested at `now`: nothing before the cliff, then
/// `total * (10000 - retained) / 10000` (truncated, capped at the total).
/// `None` when the cliff's end or the product overflows.
pub open spec fn vested_at(s: VestingSchedule, now: u64) -> Option<i128> {
    let cliff_end = s.start_time + s.cliff_seconds;
    if cliff_end > u64::MAX {
        None
    } else if now < cliff_end {
        Some(0)
    } else {
        let retained = retained_after(s.decay_rate_bps as int, periods_since(now - cliff_end, s.period_seconds as int));
        let product = s.total_amount * (10000 - retained);
        if !fits_i128(product) {
            None
        } else {
            let vested = trunc_div(product, 10000);
            Some(if vested > s.total_amount { s.total_amount } else { vested as i128 })
        }
    }
}

/// Amount of schedule `s` vested at `now` (see `vested_at`).
pub fn vested_amount_at(s: &VestingSchedule, now: u64) -> (r: Option<i128>)
    requires
        s.period_seconds > 0,
        s.decay_rate_bps < 10000,
    ensures
        r == vested_at(*s, now),
        r matches Some(v) ==> (s.total_amount >= 0 ==> 0 <= v <= s.total_amount),
{
    let cliff_end = match s.start_time.checked_add(s.cliff_seconds) {
        Some(c) => c,
        None => return None,
    };
    if now < cliff_end {
        return Some(0);
    }
    let elapsed = now - cliff_end;
    let periods_u64 = elapsed / s.period_seconds;
    let periods: u32 = if periods_u64 > MAX_DECAY_PERIODS as u64 { MAX_DECAY_PERIODS } else { periods_u64 as u32 };
    let retained = decay_retained_bps(s.decay_rate_bps, periods);
    let fraction: i128 = (10000 - retained) as i128;
    let product = match s.total_amount.checked_mul(fraction) {
        Some(p) => p,
        None => return None,
    };
    proof {
        if s.total_amount >= 0 {
            assert(product >= 0) by (nonlinear_arith)
                requires product == s.total_amount * fraction, s.total_amount >= 0, fraction >= 0;
        } else {
            assert(product <= 0) by (nonlinear_arith)
                requires product == s.total_amount * fraction, s.total_amount < 0, fraction >= 0;
        }
        assert(product <= s.total_amount * 10000 || s.total_amount < 0) by (nonlinear_arith)
            requires product == s.total_amount * fraction, 0 <= fraction <= 10000;
    }
    let vested = product / 10000;
    if vested > s.total_amount { Some(s.total_amount) } else { Some(vested) }
}

/// Sum of the schedules' total amounts.
pub open spec fn sum_totals(s: Seq<VestingSchedule>) -> int
    decreases s.len(),
{
    if s.len() == 0 { 0 } else { sum_totals(s.drop_last()) + s.last().total_amount }
}

/// Sum of what the schedules have yet to pay out.
pub open spec fn sum_unclaimed(s: Seq<VestingSchedule>) -> int
    decreases s.len(),
{
    if s.len() == 0 { 0 } else { sum_unclaimed(s.drop_last()) + s.last().total_amount - s.last().claimed_amount }
}

/// Ids of the schedules paying `beneficiary`, in creation order.
pub open spec fn beneficiary_schedule_ids(s: Seq<VestingSchedule>, beneficiary: Address) -> Seq<u32>
    decreases s.len(),
{
    if s.len() == 0 {
        Seq::empty()
    } else {
        let rest = beneficiary_schedule_ids(s.drop_last(), beneficiary);
        if s.last().beneficiary == beneficiary { rest.push(s.last().id) } else { rest }
    }
}

/// Changing one schedule changes the unclaimed sum by the difference.
proof fn lemma_sum_unclaimed_update(s: Seq<VestingSchedule>, i: int, x: VestingSchedule)
    requires
        0 <= i < s.len(),
    ensures
        sum_unclaimed(s.update(i, x)) == sum_unclaimed(s) - (s[i].total_amount - s[i].claimed_amount)
            + (x.total_amount - x.claimed_amount),
        x.total_amount == s[i].total_amount ==> sum_totals(s.update(i, x)) == sum_totals(s),
    decreases s.len(),
{
    if i < s.len() - 1 {
        assert(s.update(i, x).drop_last() == s.drop_last().update(i, x));
        lemma_sum_unclaimed_update(s.drop_last(), i, x);
    } else {
        assert(s.update(i, x).drop_last() == s.drop_last());
    }
}

/// Every schedule owes a non-negative remainder, so the unclaimed sum is
/// non-negative.
proof fn lemma_sum_unclaimed_nonneg(s: Seq<VestingSchedule>)
    requires
        forall|k: int| 0 <= k < s.len() ==> schedule_valid(#[trigger] s[k]),
    ensures
        0 <= sum_unclaimed(s),
        sum_unclaimed(s) <= sum_totals(s),
    decreases s.len(),
{
    if s.len() > 0 {
        assert forall|k: int| 0 <= k < s.drop_last().len() implies schedule_valid(#[trigger] s.drop_last()[k]) by {
            assert(s.drop_last()[k] == s[k]);
        };
        lemma_sum_unclaimed_nonneg(s.drop_last());
        assert(schedule_valid(s[s.len() - 1]));
    }
}

/// The reward treasury: its token, funded balance, the sum of all
/// schedules' totals, and the schedules.
#[derive(Clone)]
pub struct Treasury {
    pub token: Option<Address>,
    pub balance: i128,
    pub allocated_total: i128,
    pub schedules: Vec<VestingSchedule>,
}

impl Treasury {
    /// Ids are creation ranks, every schedule is valid, the allocated total
    /// is the sum of the schedules' totals, and what the schedules have yet
    /// to pay never exceeds the balance.
    pub open spec fn wf(&self) -> bool {
        &&& self.schedules@.len() < u32::MAX
        &&& forall|i: int| 0 <= i < self.schedules@.len() ==> (#[trigger] self.schedules@[i]).id == i + 1
        &&& forall|i: int| 0 <= i < self.schedules@.len() ==> schedule_valid(#[trigger] self.schedules@[i])
        &&& self.allocated_total == sum_totals(self.schedules@)
        &&& sum_unclaimed(self.schedules@) <= self.balance
    }

    pub open spec fn has_schedule(&self, id: u32) -> bool {
        1 <= id <= self.schedules@.len()
    }

    pub open spec fn schedule(&self, id: u32) -> VestingSchedule {
        self.schedules@[id - 1]
    }

    pub fn new() -> (r: Self)
        ensures
            r.wf(),
            r.token is None,
            r.balance == 0,
            r.allocated_total == 0,
            r.schedules@.len() == 0,
    {
        Treasury { token: None, balance: 0, allocated_total: 0, schedules: Vec::new() }
    }

    /// The admin sets the token the treasury holds and pays out.
    pub fn configure_treasury(&mut self, caller: Address, admin: Option<Address>, token: Address) -> (r: Result<(), ContractError>)
        requires
            old(self).wf(),
        ensures
            final(self).wf(),
            admin is None ==> r == Err::<(), ContractError>(ContractError::NotInitialized),
            admin matches Some(a) && caller != a ==> r == Err::<(), ContractError>(ContractError::NotAdmin),
            r is Ok <==> admin == Some(caller),
            r is Err ==> *final(self) == *old(self),
            r is Ok ==> *final(self) == (Treasury { token: Some(token), ..*old(self) }),
    {
        match admin {
            None => return Err(ContractError::NotInitialized),
            Some(a) => {
                if caller != a {
                    return Err(ContractError::NotAdmin);
                }
            },
        }
        self.token = Some(token);
        Ok(())
    }

    /// The funded balance.
    pub fn get_treasury_balance(&self) -> (r: i128)
        ensures
            r == self.balance,
    {
        self.balance
    }

    /// Sum of all schedules' totals.
    pub fn get_allocated_total(&self) -> (r: i128)
        ensures
            r == self.allocated_total,
    {
        self.allocated_total
    }

    /// `funder` deposits `amount` of the treasury token; returns the new
    /// balance and the deposit to perform.
    pub fn fund_treasury(&mut self, funder: Address, amount: i128, contract_address: Address) -> (r: Result<(i128, Transfer), ContractError>)
        requires
            old(self).wf(),
        ensures
            final(self).wf(),
            amount <= 0 ==> r == Err::<(i128, Transfer), ContractError>(ContractError::InvalidAmount),
            amount > 0 && old(self).token is None ==> r == Err::<(i128, Transfer), ContractError>(ContractError::TreasuryNotConfigured),
            amount > 0 && old(self).token is Some && !fits_i128(old(self).balance + amount)
                ==> r == Err::<(i128, Transfer), ContractError>(ContractError::ArithmeticOverflow),
            r is Ok <==> amount > 0 && old(self).token is Some && fits_i128(old(self).balance + amount),
            r is Err ==> *final(self) == *old(self),
            r is Ok ==> {
                &&& r == Ok::<(i128, Transfer), ContractError>(((old(self).balance + amount) as i128,
                    Transfer { token: old(self).token->0, from: funder, to: contract_address, amount }))
                &&& *final(self) == (Treasury { balance: (old(self).balance + amount) as i128, ..*old(self) })
            },
    {
        if amount <= 0 {
            return Err(ContractError::InvalidAmount);
        }
        let token = match self.token {
            Some(t) => t,
            None => return Err(ContractError::TreasuryNotConfigured),
        };
        let balance = match self.balance.checked_add(amount) {
            Some(b) => b,
            None => return Err(ContractError::ArithmeticOverflow),
        };
        self.balance = balance;
        Ok((balance, Transfer { token, from: funder, to: contract_address, amount }))
    }

    /// Amount of schedule `schedule_id` vested at `now`, ignoring claims.
    pub fn vested_amount(&self, schedule_id: u32, now: u64) -> (r: Result<i128, ContractError>)
        requires
            self.wf(),
        ensures
            !self.has_schedule(schedule_id) ==> r == Err::<i128, ContractError>(ContractError::ScheduleNotFound),
            self.has_schedule(schedule_id) ==> r == (match vested_at(self.schedule(schedule_id), now) {
                Some(v) => Ok::<i128, ContractError>(v),
                None => Err(ContractError::ArithmeticOverflow),
            }),
    {
        if schedule_id == 0 || schedule_id as usize > self.schedules.len() {
            return Err(ContractError::ScheduleNotFound);
        }
        let s = &self.schedules[(schedule_id - 1) as usize];
        match vested_amount_at(s, now) {
            Some(v) => Ok(v),
            None => Err(ContractError::ArithmeticOverflow),
        }
    }

    /// Amount of schedule `schedule_id` claimable at `now`: vested less claimed.
    pub fn claimable_amount(&self, schedule_id: u32, now: u64) -> (r: Result<i128, ContractError>)
        requires
            self.wf(),
        ensures
            !self.has_schedule(schedule_id) ==> r == Err::<i128, ContractError>(ContractError::ScheduleNotFound),
            self.has_schedule(schedule_id) ==> r == (match vested_at(self.schedule(schedule_id), now) {
                Some(v) => Ok::<i128, ContractError>((v - self.schedule(schedule_id).claimed_amount) as i128),
                None => Err(ContractError::ArithmeticOverflow),
            }),
    {
        if schedule_id == 0 || schedule_id as usize > self.schedules.len() {
            return Err(ContractError::ScheduleNotFound);
        }
        let s = &self.schedules[(schedule_id - 1) as usize];
        proof {
            assert(schedule_valid(self.schedules@[schedule_id - 1]));
        }
        match vested_amount_at(s, now) {
            Some(v) => Ok(v - s.claimed_amount),
            None => Err(ContractError::ArithmeticOverflow),
        }
    }

    /// What creating a schedule gives.
    pub open spec fn create_outcome(&self, caller: Address, admin: Option<Address>, total_amount: i128, period_seconds: u64, decay_rate_bps: u32) -> Result<(), ContractError> {
        if admin is None {
            Err(ContractError::NotInitialized)
        } else if caller != admin->0 {
            Err(ContractError::NotAdmin)
        } else if total_amount <= 0 {
            Err(ContractError::InvalidAmount)
        } else if period_seconds == 0 || decay_rate_bps >= 10000 {
            Err(ContractError::InvalidSchedule)
        } else if total_amount > self.balance - self.allocated_total {
            Err(ContractError::OverAllocation)
        } else if self.schedules@.len() + 1 >= u32::MAX {
            Err(ContractError::ArithmeticOverflow)
        } else {
            Ok(())
        }
    }

    /// The admin creates a decay-curve schedule for `beneficiary`. Refused
    /// when it would allocate more than the funded balance not yet
    /// allocated, or when the curve would not converge.
    pub fn create_vesting_schedule(
        &mut self,
        caller: Address,
        admin: Option<Address>,
        beneficiary: Address,
        total_amount: i128,
        start_time: u64,
        cliff_seconds: u64,
        period_seconds: u64,
        decay_rate_bps: u32,
        now: u64,
    ) -> (r: Result<u32, ContractError>)
        requires
            old(self).wf(),
        ensures
            final(self).wf(),
            match old(self).create_outcome(caller, admin, total_amount, period_seconds, decay_rate_bps) {
                Err(e) => r == Err::<u32, ContractError>(e),
                Ok(()) => r == Ok::<u32, ContractError>((old(self).schedules@.len() + 1) as u32),
            },
            r is Err ==> *final(self) == *old(self),
            r matches Ok(id) ==> {
                &&& final(self).schedules@ == old(self).schedules@.push(VestingSchedule {
                    id,
                    beneficiary,
                    total_amount,
                    claimed_amount: 0,
                    start_time,
                    cliff_seconds,
                    period_seconds,
                    decay_rate_bps,
                    created_at: now,
                })
                &&& final(self).allocated_total == old(self).allocated_total + total_amount
                &&& final(self).balance == old(self).balance
                &&& final(self).token == old(self).token
            },
    {
        match admin {
            None => return Err(ContractError::NotInitialized),
            Some(a) => {
                if caller != a {
                    return Err(ContractError::NotAdmin);
                }
            },
        }
        if total_amount <= 0 {
            return Err(ContractError::InvalidAmount);
        }
        if period_seconds == 0 || decay_rate_bps >= 10000 {
            return Err(ContractError::InvalidSchedule);
        }
        proof {
            lemma_sum_unclaimed_nonneg(self.schedules@);
        }
        let available = self.balance - self.allocated_total;
        if total_amount > available {
            return Err(ContractError::OverAllocation);
        }
        if self.schedules.len() >= (u32::MAX - 1) as usize {
            return Err(ContractError::ArithmeticOverflow);
        }
        let id = (self.schedules.len() + 1) as u32;
        let schedule = VestingSchedule {
            id,
            beneficiary,
            total_amount,
            claimed_amount: 0,
            start_time,
            cliff_seconds,
            period_seconds,
            decay_rate_bps,
            created_at: now,
        };
        self.schedules.push(schedule);
        self.allocated_total = self.allocated_total + total_amount;
        proof {
            assert(self.schedules@.drop_last() == old(self).schedules@);
        }
        Ok(id)
    }

    /// What claiming gives.
    pub open spec fn claim_outcome(&self, beneficiary: Address, schedule_id: u32, now: u64) -> Result<i128, ContractError> {
        let s = self.schedule(schedule_id);
        if !self.has_schedule(schedule_id) {
            Err(ContractError::ScheduleNotFound)
        } else if s.beneficiary != beneficiary {
            Err(ContractError::NotBeneficiary)
        } else {
            match vested_at(s, now) {
                None => Err(ContractError::ArithmeticOverflow),
                Some(v) => {
                    let c = v - s.claimed_amount;
                    if c <= 0 {
                        Err(ContractError::NothingToClaim)
                    } else if s.claimed_amount + c > s.total_amount {
                        Err(ContractError::OverAllocation)
                    } else if c > self.balance {
                        Err(ContractError::InsufficientBalance)
                    } else if self.token is None {
                        Err(ContractError::TreasuryNotConfigured)
                    } else {
                        Ok(c as i128)
                    }
                },
            }
        }
    }

    /// The beneficiary claims everything vested and not yet claimed on
    /// `schedule_id` at `now`; returns the amount and its payment from
    /// `contract_address`.
    pub fn claim(&mut self, beneficiary: Address, schedule_id: u32, now: u64, contract_address: Address) -> (r: Result<(i128, Transfer), ContractError>)
        requires
            old(self).wf(),
        ensures
            final(self).wf(),
            match old(self).claim_outcome(beneficiary, schedule_id, now) {
                Err(e) => r == Err::<(i128, Transfer), ContractError>(e),
                Ok(c) => r == Ok::<(i128, Transfer), ContractError>((c,
                    Transfer { token: old(self).token->0, from: contract_address, to: beneficiary, amount: c })),
            },
            r is Err ==> *final(self) == *old(self),
            r matches Ok((c, _)) ==> {
                let s = old(self).schedule(schedule_id);
                &&& final(self).schedules@ == old(self).schedules@.update(schedule_id - 1,
                    VestingSchedule { claimed_amount: (s.claimed_amount + c) as i128, ..s })
                &&& final(self).balance == old(self).balance - c
                &&& final(self).allocated_total == old(self).allocated_total
                &&& final(self).token == old(self).token
            },
    {
        if schedule_id == 0 || schedule_id as usize > self.schedules.len() {
            return Err(ContractError::ScheduleNotFound);
        }
        let idx = (schedule_id - 1) as usize;
        let s = self.schedules[idx];
        proof {
            assert(schedule_valid(self.schedules@[idx as int]));
        }
        if s.beneficiary != beneficiary {
            return Err(ContractError::NotBeneficiary);
        }
        let vested = match vested_amount_at(&s, now) {
            Some(v) => v,
            None => return Err(ContractError::ArithmeticOverflow),
        };
        let claimable = vested - s.claimed_amount;
        if claimable <= 0 {
            return Err(ContractError::NothingToClaim);
        }
        let new_claimed = s.claimed_amount + claimable;
        if new_claimed > s.total_amount {
            return Err(ContractError::OverAllocation);
        }
        if claimable > self.balance {
            return Err(ContractError::InsufficientBalance);
        }
        let token = match self.token {
            Some(t) => t,
            None => return Err(ContractError::TreasuryNotConfigured),
        };
        let updated = VestingSchedule { claimed_amount: new_claimed, ..s };
        self.schedules.set(idx, updated);
        self.balance = self.balance - claimable;
        proof {
            lemma_sum_unclaimed_update(old(self).schedules@, idx as int, updated);
        }
        Ok((claimable, Transfer { token, from: contract_address, to: beneficiary, amount: claimable }))
    }

    /// Schedule `schedule_id`, if it exists.
    pub fn get_vesting_schedule(&self, schedule_id: u32) -> (r: Option<VestingSchedule>)
        ensures
            r is None <==> !self.has_schedule(schedule_id),
            r matches Some(s) ==> s == self.schedule(schedule_id),
    {
        if schedule_id == 0 || schedule_id as usize > self.schedules.len() {
            None
        } else {
            Some(self.schedules[(schedule_id - 1) as usize])
        }
    }

    /// Ids of the schedules paying `beneficiary`, in creation order.
    pub fn get_beneficiary_schedules(&self, beneficiary: Address) -> (r: Vec<u32>)
        ensures
            r@ == beneficiary_schedule_ids(self.schedules@, beneficiary),
    {
        let mut out: Vec<u32> = Vec::new();
        let mut i: usize = 0;
        while i < self.schedules.len()
            invariant
                0 <= i <= self.schedules@.len(),
                out@ == beneficiary_schedule_ids(self.schedules@.take(i as int), beneficiary),
            decreases self.schedules@.len() - i,
        {
            proof {
                assert(self.schedules@.take(i + 1).drop_last() == self.schedules@.take(i as int));
            }
            if self.schedules[i].beneficiary == beneficiary {
                out.push(self.schedules[i].id);
            }
            i = i + 1;
        }
        proof {
            assert(self.schedules@.take(self.schedules@.len() as int) == self.schedules@);
        }
        out
    }
}

impl TaskManagerContract {
    /// The contract admin sets the treasury token.
    pub fn configure_treasury(&mut self, caller: Address, token: Address) -> (r: Result<(), ContractError>)
        requires
            old(self).wf(),
        ensures
            final(self).wf(),
            !old(self).initialized ==> r == Err::<(), ContractError>(ContractError::NotInitialized),
            old(self).initialized && caller != old(self).admin ==> r == Err::<(), ContractError>(ContractError::NotAdmin),
            r is Ok <==> old(self).initialized && caller == old(self).admin,
            r is Err ==> *final(self) == *old(self),
            r is Ok ==> *final(self) == (TaskManagerContract {
                treasury: Treasury { token: Some(token), ..old(self).treasury },
                ..*old(self)
            }),
    {
        let admin = self.get_admin();
        self.treasury.configure_treasury(caller, admin, token)
    }

    /// `funder` deposits `amount` of the treasury token into the contract;
    /// returns the new balance and the deposit to perform.
    pub fn fund_treasury(&mut self, funder: Address, amount: i128) -> (r: Result<(i128, Transfer), ContractError>)
        requires
            old(self).wf(),
        ensures
            final(self).wf(),
            amount <= 0 ==> r == Err::<(i128, Transfer), ContractError>(ContractError::InvalidAmount),
            amount > 0 && old(self).treasury.token is None
                ==> r == Err::<(i128, Transfer), ContractError>(ContractError::TreasuryNotConfigured),
            r is Ok <==> amount > 0 && old(self).treasury.token is Some && fits_i128(old(self).treasury.balance + amount),
            r is Err ==> *final(self) == *old(self),
            r is Ok ==> {
                &&& r == Ok::<(i128, Transfer), ContractError>(((old(self).treasury.balance + amount) as i128,
                    Transfer { token: old(self).treasury.token->0, from: funder, to: old(self).contract_address, amount }))
                &&& *final(self) == (TaskManagerContract {
                    treasury: Treasury { balance: (old(self).treasury.balance + amount) as i128, ..old(self).treasury },
                    ..*old(self)
                })
            },
    {
        let contract_address = self.contract_address;
        self.treasury.fund_treasury(funder, amount, contract_address)
    }

    /// The contract admin creates a vesting schedule (see
    /// `Treasury::create_vesting_schedule`).
    pub fn create_vesting_schedule(
        &mut self,
        caller: Address,
        beneficiary: Address,
        total_amount: i128,
        start_time: u64,
        cliff_seconds: u64,
        period_seconds: u64,
        decay_rate_bps: u32,
        now: u64,
    ) -> (r: Result<u32, ContractError>)
        requires
            old(self).wf(),
        ensures
            final(self).wf(),
            match old(self).treasury.create_outcome(caller, old(self).admin_opt(), total_amount, period_seconds, decay_rate_bps) {
                Err(e) => r == Err::<u32, ContractError>(e),
                Ok(()) => r == Ok::<u32, ContractError>((old(self).treasury.schedules@.len() + 1) as u32),
            },
            r is Err ==> *final(self) == *old(self),
            *final(self) == (TaskManagerContract { treasury: final(self).treasury, ..*old(self) }),
            r matches Ok(id) ==> {
                &&& final(self).treasury.schedules@ == old(self).treasury.schedules@.push(VestingSchedule {
                    id,
                    beneficiary,
                    total_amount,
                    claimed_amount: 0,
                    start_time,
                    cliff_seconds,
                    period_seconds,
                    decay_rate_bps,
                    created_at: now,
                })
                &&& final(self).treasury.allocated_total == old(self).treasury.allocated_total + total_amount
                &&& final(self).treasury.balance == old(self).treasury.balance
                &&& final(self).treasury.token == old(self).treasury.token
            },
    {
        let admin = self.get_admin();
        self.treasury.create_vesting_schedule(caller, admin, beneficiary, total_amount, start_time, cliff_seconds,
            period_seconds, decay_rate_bps, now)
    }

    /// `beneficiary` claims what schedule `schedule_id` has vested and not
    /// yet paid at `now`; returns the amount and its payment from the contract.
    pub fn claim_vesting(&mut self, beneficiary: Address, schedule_id: u32, now: u64) -> (r: Result<(i128, Transfer), ContractError>)
        requires
            old(self).wf(),
        ensures
            final(self).wf(),
            match old(self).treasury.claim_outcome(beneficiary, schedule_id, now) {
                Err(e) => r == Err::<(i128, Transfer), ContractError>(e),
                Ok(c) => r == Ok::<(i128, Transfer), ContractError>((c,
                    Transfer { token: old(self).treasury.token->0, from: old(self).contract_address, to: beneficiary, amount: c })),
            },
            r is Err ==> *final(self) == *old(self),
            *final(self) == (TaskManagerContract { treasury: final(self).treasury, ..*old(self) }),
            r matches Ok((c, _)) ==> {
                let s = old(self).treasury.schedule(schedule_id);
                &&& final(self).treasury.schedules@ == old(self).treasury.schedules@.update(schedule_id - 1,
                    VestingSchedule { claimed_amount: (s.claimed_amount + c) as i128, ..s })
                &&& final(self).treasury.balance == old(self).treasury.balance - c
                &&& final(self).treasury.allocated_total == old(self).treasury.allocated_total
                &&& final(self).treasury.token == old(self).treasury.token
            },
    {
        let contract_address = self.contract_address;
        self.treasury.claim(beneficiary, schedule_id, now, contract_address)
    }

    /// The treasury's funded balance.
    pub fn get_treasury_balance(&self) -> (r: i128)
        ensures
            r == self.treasury.balance,
    {
        self.treasury.get_treasury_balance()
    }

    /// Amount of schedule `schedule_id` vested at `now` (see `Treasury::vested_amount`).
    pub fn get_vested_amount(&self, schedule_id: u32, now: u64) -> (r: Result<i128, ContractError>)
        requires
            self.wf(),
        ensures
            !self.treasury.has_schedule(schedule_id) ==> r == Err::<i128, ContractError>(ContractError::ScheduleNotFound),
            self.treasury.has_schedule(schedule_id) ==> r == (match vested_at(self.treasury.schedule(schedule_id), now) {
                Some(v) => Ok::<i128, ContractError>(v),
                None => Err(ContractError::ArithmeticOverflow),
            }),
    {
        self.treasury.vested_amount(schedule_id, now)
    }

    /// Amount of schedule `schedule_id` claimable at `now`.
    pub fn get_claimable_amount(&self, schedule_id: u32, now: u64) -> (r: Result<i128, ContractError>)
        requires
            self.wf(),
        ensures
            !self.treasury.has_schedule(schedule_id) ==> r == Err::<i128, ContractError>(ContractError::ScheduleNotFound),
            self.treasury.has_schedule(schedule_id) ==> r == (match vested_at(self.treasury.schedule(schedule_id), now) {
                Some(v) => Ok::<i128, ContractError>((v - self.treasury.schedule(schedule_id).claimed_amount) as i128),
                None => Err(ContractError::ArithmeticOverflow),
            }),
    {
        self.treasury.claimable_amount(schedule_id, now)
    }

    /// Vesting schedule `schedule_id`, if it exists.
    pub fn get_vesting_schedule(&self, schedule_id: u32) -> (r: Option<VestingSchedule>)
        ensures
            r is None <==> !self.treasury.has_schedule(schedule_id),
            r matches Some(s) ==> s == self.treasury.schedule(schedule_id),
    {
        self.treasury.get_vesting_schedule(schedule_id)
    }
}

} // verus!
