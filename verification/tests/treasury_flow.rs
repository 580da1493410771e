use task_manager_pro::treasury::{vested_amount_at, VestingSchedule};
use task_manager_pro::types::ContractError;
use task_manager_pro::TaskManagerContract;

const CONTRACT: u64 = 100;
const ADMIN: u64 = 1;
const TOKEN: u64 = 2;
const FEE_RECIPIENT: u64 = 3;

struct Ctx {
    c: TaskManagerContract,
}

impl Ctx {
    fn fund(&mut self, amount: i128) {
        let (_, deposit) = self.c.fund_treasury(ADMIN, amount).unwrap();
        assert_eq!(deposit.from, ADMIN);
        assert_eq!(deposit.to, CONTRACT);
        assert_eq!(deposit.amount, amount);
    }

    fn schedule(&mut self, caller: u64, beneficiary: u64, total: i128, cliff: u64, rate: u32) -> Result<u32, ContractError> {
        self.c.create_vesting_schedule(caller, beneficiary, total, 0, cliff, 100, rate, 0)
    }
}

fn setup() -> Ctx {
    let mut c = TaskManagerContract::new(CONTRACT);
    c.initialize(ADMIN, 100, TOKEN, FEE_RECIPIENT).unwrap();
    c.configure_treasury(ADMIN, TOKEN).unwrap();
    Ctx { c }
}

#[test]
fn test_vested_amount_follows_decay_curve_halving_schedule() {
    let mut ctx = setup();
    let beneficiary = 10;
    ctx.fund(1_000);
    let id = ctx.schedule(ADMIN, beneficiary, 1000, 0, 5000).unwrap();
    assert_eq!(ctx.c.get_vested_amount(id, 0), Ok(0));
    assert_eq!(ctx.c.get_vested_amount(id, 100), Ok(500));
    assert_eq!(ctx.c.get_vested_amount(id, 200), Ok(750));
    assert_eq!(ctx.c.get_vested_amount(id, 300), Ok(875));
    assert_eq!(ctx.c.get_vested_amount(id, 400), Ok(937));
}

#[test]
fn test_vested_amount_zero_before_cliff() {
    let mut ctx = setup();
    ctx.fund(1_000);
    let id = ctx.schedule(ADMIN, 10, 1000, 500, 5000).unwrap();
    assert_eq!(ctx.c.get_vested_amount(id, 499), Ok(0));
    assert_eq!(ctx.c.get_vested_amount(id, 500), Ok(0));
    assert_eq!(ctx.c.get_vested_amount(id, 600), Ok(500));
}

#[test]
fn test_create_vesting_schedule_rejects_over_allocation() {
    let mut ctx = setup();
    ctx.fund(500);
    let res = ctx.schedule(ADMIN, 10, 501, 0, 5000);
    assert!(res.is_err(), "scheduling more than the funded balance should be rejected");
    assert_eq!(res, Err(ContractError::OverAllocation));
}

#[test]
fn test_create_vesting_schedule_allows_up_to_funded_balance_but_not_twice() {
    let mut ctx = setup();
    ctx.fund(500);
    ctx.schedule(ADMIN, 10, 500, 0, 5000).unwrap();
    let res = ctx.schedule(ADMIN, 10, 1, 0, 5000);
    assert!(res.is_err(), "allocating past the funded balance should be rejected");
}

#[test]
fn test_create_vesting_schedule_rejects_non_converging_decay_rate() {
    let mut ctx = setup();
    ctx.fund(1_000);
    let res = ctx.schedule(ADMIN, 10, 1000, 0, 10_000);
    assert!(res.is_err(), "a decay rate of 10000 bps never converges and should be rejected");
    assert_eq!(res, Err(ContractError::InvalidSchedule));
}

#[test]
fn test_create_vesting_schedule_rejects_non_admin() {
    let mut ctx = setup();
    ctx.fund(1_000);
    let res = ctx.schedule(55, 10, 1000, 0, 5000);
    assert!(res.is_err(), "non-admin schedule creation should be rejected");
    assert_eq!(res, Err(ContractError::NotAdmin));
}

#[test]
fn test_claim_pays_out_vested_amount_and_updates_balances() {
    let mut ctx = setup();
    let beneficiary = 10;
    ctx.fund(1_000);
    let id = ctx.schedule(ADMIN, beneficiary, 1000, 0, 5000).unwrap();
    let (claimed, payment) = ctx.c.claim_vesting(beneficiary, id, 100).unwrap();
    assert_eq!(claimed, 500);
    assert_eq!(payment.to, beneficiary);
    assert_eq!(payment.amount, 500);
    assert_eq!(ctx.c.get_treasury_balance(), 500);
    assert_eq!(ctx.c.get_claimable_amount(id, 100), Ok(0));
    assert_eq!(ctx.c.get_vesting_schedule(id).unwrap().claimed_amount, 500);
}

#[test]
fn test_claim_twice_only_pays_the_newly_vested_delta() {
    let mut ctx = setup();
    let beneficiary = 10;
    ctx.fund(1_000);
    let id = ctx.schedule(ADMIN, beneficiary, 1000, 0, 5000).unwrap();
    ctx.c.claim_vesting(beneficiary, id, 100).unwrap();
    let (second, _) = ctx.c.claim_vesting(beneficiary, id, 200).unwrap();
    assert_eq!(second, 250);
}

#[test]
fn test_claim_rejects_when_nothing_vested_yet() {
    let mut ctx = setup();
    let beneficiary = 10;
    ctx.fund(1_000);
    let id = ctx.schedule(ADMIN, beneficiary, 1000, 0, 5000).unwrap();
    let res = ctx.c.claim_vesting(beneficiary, id, 0);
    assert!(res.is_err(), "claiming before any period elapses should be rejected");
    assert_eq!(res.err(), Some(ContractError::NothingToClaim));
}

#[test]
fn test_claim_rejects_non_beneficiary_caller() {
    let mut ctx = setup();
    ctx.fund(1_000);
    let id = ctx.schedule(ADMIN, 10, 1000, 0, 5000).unwrap();
    let res = ctx.c.claim_vesting(11, id, 100);
    assert!(res.is_err(), "claim by a non-beneficiary should be rejected");
    assert_eq!(res.err(), Some(ContractError::NotBeneficiary));
}

#[test]
fn test_claim_never_exceeds_total_allocation_even_far_past_full_vesting() {
    let mut ctx = setup();
    let beneficiary = 10;
    ctx.fund(1_000);
    let id = ctx.schedule(ADMIN, beneficiary, 1000, 0, 5000).unwrap();
    let (claimed, _) = ctx.c.claim_vesting(beneficiary, id, 1_000_000).unwrap();
    assert_eq!(claimed, 1000);
    assert_eq!(ctx.c.get_vesting_schedule(id).unwrap().claimed_amount, 1000);
    let res = ctx.c.claim_vesting(beneficiary, id, 2_000_000);
    assert!(res.is_err(), "claiming after full vesting/claim should be rejected");
}

#[test]
fn test_fund_treasury_increases_balance() {
    let mut ctx = setup();
    assert_eq!(ctx.c.get_treasury_balance(), 0);
    ctx.fund(750);
    assert_eq!(ctx.c.get_treasury_balance(), 750);
    ctx.fund(250);
    assert_eq!(ctx.c.get_treasury_balance(), 1000);
}

// ── Own scenarios ───────────────────────────────────────────────────────────

#[test]
fn funding_needs_a_configured_token_and_a_positive_amount() {
    let mut c = TaskManagerContract::new(CONTRACT);
    c.initialize(ADMIN, 100, TOKEN, FEE_RECIPIENT).unwrap();
    assert_eq!(c.fund_treasury(ADMIN, 10).err(), Some(ContractError::TreasuryNotConfigured));
    assert_eq!(c.fund_treasury(ADMIN, 0).err(), Some(ContractError::InvalidAmount));
}

#[test]
fn vested_amount_is_capped_and_tracks_allocation() {
    let s = VestingSchedule {
        id: 1,
        beneficiary: 10,
        total_amount: 1000,
        claimed_amount: 0,
        start_time: 0,
        cliff_seconds: 0,
        period_seconds: 100,
        decay_rate_bps: 0,
        created_at: 0,
    };
    assert_eq!(vested_amount_at(&s, 99), Some(0));
    assert_eq!(vested_amount_at(&s, 100), Some(1000));
    let mut ctx = setup();
    ctx.fund(900);
    ctx.schedule(ADMIN, 10, 300, 0, 5000).unwrap();
    ctx.schedule(ADMIN, 11, 600, 0, 5000).unwrap();
    assert_eq!(ctx.c.treasury.get_allocated_total(), 900);
    assert_eq!(ctx.c.treasury.get_beneficiary_schedules(11), vec![2]);
    assert_eq!(ctx.c.get_vested_amount(9, 0), Err(ContractError::ScheduleNotFound));
}

#[test]
fn vested_amount_never_decreases_over_time() {
    let s = VestingSchedule {
        id: 1,
        beneficiary: 9,
        total_amount: 1_000_000,
        claimed_amount: 0,
        start_time: 1_000,
        cliff_seconds: 500,
        period_seconds: 100,
        decay_rate_bps: 7_000,
        created_at: 1_000,
    };
    let mut last = 0i128;
    let mut now = 0u64;
    while now < 100_000 {
        let v = vested_amount_at(&s, now).unwrap();
        assert!(v >= last, "vested amount fell at {now}");
        assert!(v <= s.total_amount);
        last = v;
        now += 37;
    }
    assert_eq!(vested_amount_at(&s, 1_499), Some(0));
    // One period after the cliff 30% has vested.
    assert_eq!(vested_amount_at(&s, 1_600), Some(300_000));
}
