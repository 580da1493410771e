use std::collections::HashMap;

use task_manager_pro::swap_router::{ConversionOutcome, ConversionStep, RefundReason, SwapRoute, SwapRouter};
use task_manager_pro::types::{ContractError, Transfer};
use task_manager_pro::TaskManagerContract;

const CONTRACT: u64 = 100;
const ADMIN: u64 = 1;
const TOKEN: u64 = 2;
const FEE_RECIPIENT: u64 = 3;
const ORACLE: u64 = 4;

/// Oracle price scale, 10^7.
const ONE: i128 = 10_000_000;

/// The host around the router: token balances, the oracle's prices, and
/// pools that swap at a fixed rate (basis points) out of their reserves.
struct Host {
    c: TaskManagerContract,
    balances: HashMap<(u64, u64), i128>,
    prices: HashMap<u64, i128>,
    pool_rates: HashMap<u64, i128>,
}

impl Host {
    fn balance(&self, token: u64, who: u64) -> i128 {
        *self.balances.get(&(token, who)).unwrap_or(&0)
    }

    fn mint(&mut self, token: u64, who: u64, amount: i128) {
        *self.balances.entry((token, who)).or_insert(0) += amount;
    }

    fn transfer(balances: &mut HashMap<(u64, u64), i128>, t: &Transfer) -> Result<(), ()> {
        let from = *balances.get(&(t.token, t.from)).unwrap_or(&0);
        if from < t.amount {
            return Err(());
        }
        balances.insert((t.token, t.from), from - t.amount);
        *balances.entry((t.token, t.to)).or_insert(0) += t.amount;
        Ok(())
    }

    /// Run a whole conversion; a refusal at any step reverts every effect.
    fn convert(&mut self, sender: u64, token_in: u64, amount_in: i128, route: &SwapRoute, slippage: Option<u32>) -> Result<ConversionOutcome, ContractError> {
        let snapshot_c = self.c.clone();
        let snapshot_b = self.balances.clone();
        let result = self.convert_steps(sender, token_in, amount_in, route, slippage);
        if result.is_err() {
            self.c = snapshot_c;
            self.balances = snapshot_b;
        }
        result
    }

    fn convert_steps(&mut self, sender: u64, token_in: u64, amount_in: i128, route: &SwapRoute, slippage: Option<u32>) -> Result<ConversionOutcome, ContractError> {
        let step = self.c.convert_incoming_deposit(token_in, amount_in, route, slippage)?;
        let (t_in, stable) = match step {
            ConversionStep::Done(outcome) => return Ok(outcome),
            ConversionStep::QueryPrices { token_in, stablecoin_out } => (token_in, stablecoin_out),
            ConversionStep::Execute { .. } => unreachable!(),
        };
        let config = self.c.get_swap_router_config()?;
        let slip = slippage.unwrap_or(config.default_slippage_bps);
        let p_in = self.prices.get(&t_in).copied();
        let p_out = self.prices.get(&stable).copied();
        let step = self.c.router.apply_oracle_prices(sender, t_in, amount_in, stable, slip, p_in, p_out, CONTRACT)?;
        let (pull, min_out) = match step {
            ConversionStep::Done(outcome) => return Ok(outcome),
            ConversionStep::Execute { pull, min_out, .. } => (pull, min_out),
            ConversionStep::QueryPrices { .. } => unreachable!(),
        };
        Host::transfer(&mut self.balances, &pull).map_err(|_| ContractError::InsufficientBalance)?;
        let mut amount = amount_in;
        for i in 0..route.pools.len() {
            let hop = SwapRouter::execute_route_hop(route, i, amount, CONTRACT, CONTRACT);
            Host::transfer(&mut self.balances, &hop.send).map_err(|_| ContractError::InsufficientBalance)?;
            let rate = *self.pool_rates.get(&hop.pool).unwrap_or(&10_000);
            let out = hop.amount_in * rate / 10_000;
            let pay = Transfer { token: hop.token_out, from: hop.pool, to: hop.recipient, amount: out };
            Host::transfer(&mut self.balances, &pay).map_err(|_| ContractError::InsufficientBalance)?;
            amount = out;
        }
        self.c.router.finish_conversion(sender, stable, amount, min_out)
    }
}

fn setup() -> Host {
    let mut c = TaskManagerContract::new(CONTRACT);
    c.initialize(ADMIN, 100, TOKEN, FEE_RECIPIENT).unwrap();
    c.configure_swap_router(ADMIN, ORACLE, 4, 500).unwrap();
    Host { c, balances: HashMap::new(), prices: HashMap::new(), pool_rates: HashMap::new() }
}

fn approve(h: &mut Host, stablecoin: u64) {
    h.c.add_approved_stablecoin(ADMIN, stablecoin).unwrap();
}

#[test]
fn test_direct_swap_success() {
    let mut h = setup();
    let (token_in, stablecoin, pool, sender) = (20, 21, 30, 40);
    approve(&mut h, stablecoin);
    h.prices.insert(token_in, ONE);
    h.prices.insert(stablecoin, ONE);
    h.pool_rates.insert(pool, 10_000);
    h.mint(stablecoin, pool, 10_000);
    h.mint(token_in, sender, 1_000);
    let route = SwapRoute { path: vec![token_in, stablecoin], pools: vec![pool] };

    let outcome = h.convert(sender, token_in, 1_000, &route, None).unwrap();
    match outcome {
        ConversionOutcome::Converted(token_out, amount_out) => {
            assert_eq!(token_out, stablecoin);
            assert_eq!(amount_out, 1_000);
        },
        ConversionOutcome::Refunded(_) => panic!("expected a successful conversion"),
    }
    assert_eq!(h.balance(token_in, sender), 0);
    assert_eq!(h.balance(token_in, CONTRACT), 0);
    assert_eq!(h.c.get_vault_balance(sender, stablecoin), 1_000);
    let stats = h.c.get_swap_router_stats();
    assert_eq!(stats.total_conversions, 1);
    assert_eq!(stats.total_refunds, 0);
    assert_eq!(stats.total_stablecoin_out, 1_000);
}

#[test]
fn test_multi_hop_swap_success() {
    let mut h = setup();
    let (token_in, token_mid, stablecoin, pool1, pool2, sender) = (20, 22, 21, 30, 31, 40);
    approve(&mut h, stablecoin);
    h.prices.insert(token_in, ONE);
    h.prices.insert(stablecoin, ONE);
    h.pool_rates.insert(pool1, 9_800);
    h.pool_rates.insert(pool2, 9_800);
    h.mint(token_mid, pool1, 10_000);
    h.mint(stablecoin, pool2, 10_000);
    h.mint(token_in, sender, 1_000);
    let route = SwapRoute { path: vec![token_in, token_mid, stablecoin], pools: vec![pool1, pool2] };

    let outcome = h.convert(sender, token_in, 1_000, &route, Some(500)).unwrap();
    match outcome {
        ConversionOutcome::Converted(token_out, amount_out) => {
            assert_eq!(token_out, stablecoin);
            assert_eq!(amount_out, 960);
        },
        ConversionOutcome::Refunded(_) => panic!("expected a successful multi-hop conversion"),
    }
    assert_eq!(h.c.get_vault_balance(sender, stablecoin), 960);
}

#[test]
fn test_refund_on_unresolved_route() {
    let mut h = setup();
    let (token_in, not_a_stablecoin, pool, sender) = (20, 23, 30, 40);
    h.prices.insert(token_in, ONE);
    h.prices.insert(not_a_stablecoin, ONE);
    h.mint(not_a_stablecoin, pool, 10_000);
    h.mint(token_in, sender, 1_000);
    let route = SwapRoute { path: vec![token_in, not_a_stablecoin], pools: vec![pool] };

    let outcome = h.convert(sender, token_in, 1_000, &route, None).unwrap();
    assert!(matches!(outcome, ConversionOutcome::Refunded(_)));
    assert_eq!(outcome, ConversionOutcome::Refunded(RefundReason::RouteUnresolved));
    assert_eq!(h.balance(token_in, sender), 1_000, "sender funds must never be pulled");
    let stats = h.c.get_swap_router_stats();
    assert_eq!(stats.total_refunds, 1);
    assert_eq!(stats.total_conversions, 0);
}

#[test]
fn test_refund_on_missing_oracle_price() {
    let mut h = setup();
    let (token_in, stablecoin, pool, sender) = (20, 21, 30, 40);
    approve(&mut h, stablecoin);
    h.prices.insert(stablecoin, ONE);
    h.mint(stablecoin, pool, 10_000);
    h.mint(token_in, sender, 1_000);
    let route = SwapRoute { path: vec![token_in, stablecoin], pools: vec![pool] };

    let outcome = h.convert(sender, token_in, 1_000, &route, None).unwrap();
    assert!(matches!(outcome, ConversionOutcome::Refunded(_)));
    assert_eq!(outcome, ConversionOutcome::Refunded(RefundReason::NoInputPrice));
    assert_eq!(h.balance(token_in, sender), 1_000);
}

#[test]
fn test_swap_reverts_when_below_minimum_return() {
    let mut h = setup();
    let (token_in, stablecoin, pool, sender) = (20, 21, 30, 40);
    approve(&mut h, stablecoin);
    h.prices.insert(token_in, ONE);
    h.prices.insert(stablecoin, ONE);
    h.pool_rates.insert(pool, 5_000);
    h.mint(stablecoin, pool, 10_000);
    h.mint(token_in, sender, 1_000);
    let route = SwapRoute { path: vec![token_in, stablecoin], pools: vec![pool] };

    let result = h.convert(sender, token_in, 1_000, &route, None);
    assert!(result.is_err(), "swap below minimum return must revert");
    assert_eq!(result, Err(ContractError::SlippageExceeded));
    assert_eq!(h.balance(token_in, sender), 1_000);
}

#[test]
fn test_only_admin_can_configure_router() {
    let mut h = setup();
    let not_admin = 99;
    let admin = h.c.get_admin();
    let result = h.c.add_approved_stablecoin(not_admin, 21);
    assert!(result.is_err(), "non-admin must not be able to approve stablecoins");
    let result = h.c.configure_swap_router(not_admin, ORACLE, 4, 500);
    assert!(result.is_err(), "non-admin must not be able to reconfigure the router");
    assert_eq!(result, Err(ContractError::NotAdmin));
}

#[test]
fn test_withdraw_stablecoin_after_conversion() {
    let mut h = setup();
    let (token_in, stablecoin, pool, sender) = (20, 21, 30, 40);
    approve(&mut h, stablecoin);
    h.prices.insert(token_in, ONE);
    h.prices.insert(stablecoin, ONE);
    h.mint(stablecoin, pool, 10_000);
    h.mint(token_in, sender, 1_000);
    let route = SwapRoute { path: vec![token_in, stablecoin], pools: vec![pool] };
    h.convert(sender, token_in, 1_000, &route, None).unwrap();

    let payment = h.c.withdraw_stablecoin(sender, stablecoin, 1_000).unwrap();
    Host::transfer(&mut h.balances, &payment).unwrap();
    assert_eq!(h.balance(stablecoin, sender), 1_000);
    assert_eq!(h.c.get_vault_balance(sender, stablecoin), 0);
}

// ── Own scenarios ───────────────────────────────────────────────────────────

#[test]
fn route_and_slippage_validation() {
    let mut h = setup();
    approve(&mut h, 21);
    let config = h.c.get_swap_router_config().unwrap();
    let empty = SwapRoute { path: vec![20], pools: vec![] };
    assert!(!h.c.router.validate_route(config, 20, &empty));
    let wrong_start = SwapRoute { path: vec![22, 21], pools: vec![30] };
    assert!(!h.c.router.validate_route(config, 20, &wrong_start));
    let too_long = SwapRoute { path: vec![20, 1, 2, 3, 4, 21], pools: vec![5, 6, 7, 8, 9] };
    assert!(!h.c.router.validate_route(config, 20, &too_long));
    let good = SwapRoute { path: vec![20, 21], pools: vec![30] };
    assert!(h.c.router.validate_route(config, 20, &good));
    assert_eq!(h.c.router.convert_incoming_deposit(20, 0, &good, None), Err(ContractError::InvalidAmount));
    assert_eq!(h.c.router.convert_incoming_deposit(20, 10, &good, Some(10_001)), Err(ContractError::InvalidSlippage));
    assert_eq!(h.c.configure_swap_router(ADMIN, ORACLE, 0, 500), Err(ContractError::InvalidRouterConfig));
    assert_eq!(SwapRouter::new().convert_incoming_deposit(20, 10, &good, None), Err(ContractError::RouterNotConfigured));
}

#[test]
fn minimum_return_follows_oracle_prices() {
    let mut h = setup();
    // 1000 units at price 2 into a coin at price 1, 5% slippage: 1900.
    let step = h.c.router.apply_oracle_prices(40, 20, 1_000, 21, 500, Some(2 * ONE), Some(ONE), CONTRACT).unwrap();
    match step {
        ConversionStep::Execute { pull, stablecoin_out, min_out } => {
            assert_eq!(min_out, 1_900);
            assert_eq!(stablecoin_out, 21);
            assert_eq!(pull, Transfer { token: 20, from: 40, to: CONTRACT, amount: 1_000 });
        },
        _ => panic!("expected an execution step"),
    }
    assert_eq!(
        h.c.router.apply_oracle_prices(40, 20, 1_000, 21, 500, Some(ONE), Some(0), CONTRACT),
        Ok(ConversionStep::Done(ConversionOutcome::Refunded(RefundReason::NoOutputPrice)))
    );
    assert_eq!(h.c.get_swap_router_stats().total_refunds, 1);
    assert_eq!(RefundReason::NoOutputPrice.message(), "no oracle price for output asset");
    assert_eq!(h.c.withdraw_stablecoin(40, 21, 1).err(), Some(ContractError::InsufficientBalance));
}
