//! Multi-asset deposit router: converts an incoming token into an approved
//! vault stablecoin through a route of pool hops, guarded by a minimum
//! return derived from oracle prices.
//!
//! A conversion alternates decisions with outside work (oracle queries,
//! token pulls, pool swaps). The decisions are the verified steps below;
//! the host runs them in order, performing each returned action:
//! `convert_incoming_deposit` resolves the route, `apply_oracle_prices`
//! derives the minimum return from the quoted prices, `execute_route_hop`
//! plans each pool hop, and `finish_conversion` credits the output. A
//! refusal in a later step reverts the whole call.

use vstd::prelude::*;
use std::collections::HashMap;
use crate::types::{Address, ContractError, Transfer, fits_i128, trunc_div};
use crate::TaskManagerContract;

verus! {

broadcast use vstd::std_specs::hash::group_hash_axioms;

/// Decimals of oracle prices.
pub const ORACLE_PRICE_DECIMALS: u32 = 7;

/// Basis-point denominator of slippage.
pub const SLIPPAGE_DENOMINATOR: i128 = 10_000;

/// A conversion path: `path[i] -> path[i + 1]` through pool `pools[i]`.
#[derive(Clone, Debug)]
pub struct SwapRoute {
    pub path: Vec<Address>,
    pub pools: Vec<Address>,
}

#[derive(Clone, Copy, Debug, PartialEq, Eq, Structural)]
pub struct RouterConfig {
    pub oracle: Address,
    pub max_hops: u32,
    pub default_slippage_bps: u32,
}

#[derive(Clone, Copy, Debug, PartialEq, Eq, Structural)]
pub struct SwapRouterStats {
    pub total_conversions: u32,
    pub total_refunds: u32,
    pub total_stablecoin_out: i128,
}

/// Why a deposit was turned away before any funds moved.
#[derive(Clone, Copy, Debug, PartialEq, Eq, Structural)]
pub enum RefundReason {
    RouteUnresolved,
    NoInputPrice,
    NoOutputPrice,
}

impl RefundReason {
    /// The text of the reason.
    pub open spec fn message_text(self) -> Seq<char> {
        match self {
            RefundReason::RouteUnresolved => "swap route could not be resolved"@,
            RefundReason::NoInputPrice => "no oracle price for input asset"@,
            RefundReason::NoOutputPrice => "no oracle price for output asset"@,
        }
    }

    /// The reason as the contract reports it.
    pub fn message(&self) -> (r: String)
        ensures
            r@ == self.message_text(),
    {
        match self {
            RefundReason::RouteUnresolved => "swap route could not be resolved".to_owned(),
            RefundReason::NoInputPrice => "no oracle price for input asset".to_owned(),
            RefundReason::NoOutputPrice => "no oracle price for output asset".to_owned(),
        }
    }
}

#[derive(Clone, Copy, Debug, PartialEq, Eq, Structural)]
pub enum ConversionOutcome {
    /// The stablecoin received and the amount credited.
    Converted(Address, i128),
    Refunded(RefundReason),
}

/// What the host does next in a conversion.
#[derive(Clone, Copy, Debug, PartialEq, Eq, Structural)]
pub enum ConversionStep {
    /// Ask the oracle for the prices of both tokens, then call `apply_oracle_prices`.
    QueryPrices { token_in: Address, stablecoin_out: Address },
    /// Perform `pull`, run the route's hops, then call `finish_conversion`
    /// with what the last hop delivered.
    Execute { pull: Transfer, stablecoin_out: Address, min_out: i128 },
    /// The conversion is over.
    Done(ConversionOutcome),
}

/// One pool hop: send `send` to the pool, then ask it to swap
/// `amount_in` of `token_in` for `token_out`, paying `recipient`.
#[derive(Clone, Copy, Debug, PartialEq, Eq, Structural)]
pub struct RouteHop {
    pub send: Transfer,
    pub pool: Address,
    pub token_in: Address,
    pub token_out: Address,
    pub amount_in: i128,
    pub recipient: Address,
}

/// Ledger storage keys of the router records.
#[derive(Clone, Copy, Debug, PartialEq, Eq, Structural)]
pub enum SwapRouterKey {
    Config,
    ApprovedStablecoins,
    Stats,
    VaultBalance(Address, Address),
}

/// The map key of `owner`'s balance in `stablecoin`.
pub open spec fn balance_key(owner: Address, stablecoin: Address) -> u128 {
    (owner * 0x1_0000_0000_0000_0000 + stablecoin) as u128
}

proof fn lemma_balance_key_injective(o1: Address, s1: Address, o2: Address, s2: Address)
    requires
        balance_key(o1, s1) == balance_key(o2, s2),
    ensures
        o1 == o2 && s1 == s2,
{
    assert(o1 * 0x1_0000_0000_0000_0000 + s1 < 0x1_0000_0000_0000_0000_0000_0000_0000_0000) by (nonlinear_arith)
        requires o1 < 0x1_0000_0000_0000_0000, s1 < 0x1_0000_0000_0000_0000;
    assert(o2 * 0x1_0000_0000_0000_0000 + s2 < 0x1_0000_0000_0000_0000_0000_0000_0000_0000) by (nonlinear_arith)
        requires o2 < 0x1_0000_0000_0000_0000, s2 < 0x1_0000_0000_0000_0000;
    assert(o1 == o2 && s1 == s2) by (nonlinear_arith)
        requires
            o1 * 0x1_0000_0000_0000_0000 + s1 == o2 * 0x1_0000_0000_0000_0000 + s2,
            0 <= s1 < 0x1_0000_0000_0000_0000,
            0 <= s2 < 0x1_0000_0000_0000_0000,
            0 <= o1,
            0 <= o2;
}

pub(crate) fn make_balance_key(owner: Address, stablecoin: Address) -> (r: u128)
    ensures
        r == balance_key(owner, stablecoin),
{
    assert(owner * 0x1_0000_0000_0000_0000 + stablecoin < 0x1_0000_0000_0000_0000_0000_0000_0000_0000) by (nonlinear_arith)
        requires owner < 0x1_0000_0000_0000_0000, stablecoin < 0x1_0000_0000_0000_0000;
    (owner as u128) * 0x1_0000_0000_0000_0000 + (stablecoin as u128)
}

/// Whether `route` is usable for `token_in`: one to `max_hops` hops, one
/// more path entry than pools, starting at `token_in` and ending at an
/// approved stablecoin.
pub open spec fn route_valid(config: RouterConfig, approved: Seq<Address>, token_in: Address, path: Seq<Address>, pools: Seq<Address>) -> bool {
    let hops = pools.len();
    &&& hops != 0
    &&& path.len() == hops + 1
    &&& hops <= config.max_hops
    &&& path[0] == token_in
    &&& approved.contains(path.last())
}

/// Oracle-derived minimum return: the input's value in output units, less
/// the slippage allowance (both divisions truncated). `None` on overflow.
pub open spec fn min_return(amount_in: i128, price_in: i128, price_out: i128, slippage: u32) -> Option<i128> {
    if !fits_i128(amount_in * price_in) {
        None
    } else {
        let expected = trunc_div(amount_in * price_in, price_out as int);
        if !fits_i128(expected * (10000 - slippage)) {
            None
        } else {
            Some(trunc_div(expected * (10000 - slippage), 10000) as i128)
        }
    }
}

/// Router configuration, approved stablecoins, statistics and the vault
/// balance credited to each (owner, stablecoin).
#[derive(Clone)]
pub struct SwapRouter {
    pub config: Option<RouterConfig>,
    pub approved: Vec<Address>,
    pub stats: SwapRouterStats,
    pub balances: HashMap<u128, i128>,
}

impl SwapRouter {
    /// `owner`'s credited balance of `stablecoin`, zero if none.
    pub open spec fn balance_of(&self, owner: Address, stablecoin: Address) -> i128 {
        let k = balance_key(owner, stablecoin);
        if self.balances@.contains_key(k) { self.balances@[k] } else { 0 }
    }

    /// Statistics after counting one more refund; `None` on overflow.
    pub open spec fn stats_with_refund(&self) -> Option<SwapRouterStats> {
        if self.stats.total_refunds + 1 > u32::MAX {
            None
        } else {
            Some(SwapRouterStats { total_refunds: (self.stats.total_refunds + 1) as u32, ..self.stats })
        }
    }

    pub fn new() -> (r: Self)
        ensures
            r.config is None,
            r.approved@.len() == 0,
            r.stats == (SwapRouterStats { total_conversions: 0, total_refunds: 0, total_stablecoin_out: 0 }),
            r.balances@ == Map::<u128, i128>::empty(),
    {
        SwapRouter {
            config: None,
            approved: Vec::new(),
            stats: SwapRouterStats { total_conversions: 0, total_refunds: 0, total_stablecoin_out: 0 },
            balances: HashMap::new(),
        }
    }

    /// What `configure` gives.
    pub open spec fn configure_outcome(caller: Address, admin: Option<Address>, max_hops: u32, default_slippage_bps: u32) -> Result<(), ContractError> {
        if admin is None {
            Err(ContractError::NotInitialized)
        } else if caller != admin->0 {
            Err(ContractError::NotAdmin)
        } else if max_hops == 0 || default_slippage_bps > 10000 {
            Err(ContractError::InvalidRouterConfig)
        } else {
            Ok(())
        }
    }

    /// The admin sets the oracle, the hop limit (at least one) and the
    /// default slippage (at most 100%). `admin` is the contract admin.
    pub fn configure(
        &mut self,
        caller: Address,
        admin: Option<Address>,
        oracle: Address,
        max_hops: u32,
        default_slippage_bps: u32,
    ) -> (r: Result<(), ContractError>)
        ensures
            r == Self::configure_outcome(caller, admin, max_hops, default_slippage_bps),
            r is Err ==> *final(self) == *old(self),
            r is Ok ==> *final(self) == (SwapRouter {
                config: Some(RouterConfig { oracle, max_hops, default_slippage_bps }),
                ..*old(self)
            }),
    {
        match admin {
            None => return Err(ContractError::NotInitialized),
            Some(a) => {
                if caller != a {
                    return Err(ContractError::NotAdmin);
                }
            },
        }
        if max_hops == 0 || default_slippage_bps > 10000 {
            return Err(ContractError::InvalidRouterConfig);
        }
        self.config = Some(RouterConfig { oracle, max_hops, default_slippage_bps });
        Ok(())
    }

    /// The configuration.
    pub fn get_config(&self) -> (r: Result<RouterConfig, ContractError>)
        ensures
            r == (match self.config {
                Some(c) => Ok::<RouterConfig, ContractError>(c),
                None => Err(ContractError::RouterNotConfigured),
            }),
    {
        match self.config {
            Some(c) => Ok(c),
            None => Err(ContractError::RouterNotConfigured),
        }
    }

    fn is_approved(&self, token: Address) -> (r: bool)
        ensures
            r == self.approved@.contains(token),
    {
        let mut i: usize = 0;
        while i < self.approved.len()
            invariant
                0 <= i <= self.approved@.len(),
                forall|k: int| 0 <= k < i ==> self.approved@[k] != token,
            decreases self.approved@.len() - i,
        {
            if self.approved[i] == token {
                return true;
            }
            i = i + 1;
        }
        false
    }

    /// The admin approves `stablecoin` as a conversion target (once).
    pub fn add_approved_stablecoin(&mut self, caller: Address, admin: Option<Address>, stablecoin: Address) -> (r: Result<(), ContractError>)
        ensures
            admin is None ==> r == Err::<(), ContractError>(ContractError::NotInitialized),
            admin matches Some(a) && caller != a ==> r == Err::<(), ContractError>(ContractError::NotAdmin),
            admin == Some(caller) ==> r is Ok,
            r is Err ==> *final(self) == *old(self),
            r is Ok ==> final(self).approved@ == (if old(self).approved@.contains(stablecoin) {
                old(self).approved@
            } else {
                old(self).approved@.push(stablecoin)
            }),
            final(self).config == old(self).config,
            final(self).stats == old(self).stats,
            final(self).balances == old(self).balances,
    {
        match admin {
            None => return Err(ContractError::NotInitialized),
            Some(a) => {
                if caller != a {
                    return Err(ContractError::NotAdmin);
                }
            },
        }
        if !self.is_approved(stablecoin) {
            self.approved.push(stablecoin);
        }
        Ok(())
    }

    /// The admin withdraws approval of `stablecoin`.
    pub fn remove_approved_stablecoin(&mut self, caller: Address, admin: Option<Address>, stablecoin: Address) -> (r: Result<(), ContractError>)
        ensures
            admin is None ==> r == Err::<(), ContractError>(ContractError::NotInitialized),
            admin matches Some(a) && caller != a ==> r == Err::<(), ContractError>(ContractError::NotAdmin),
            admin == Some(caller) ==> r is Ok,
            r is Err ==> *final(self) == *old(self),
            r is Ok ==> final(self).approved@ == old(self).approved@.filter(|x: Address| x != stablecoin),
            final(self).config == old(self).config,
            final(self).stats == old(self).stats,
            final(self).balances == old(self).balances,
    {
        match admin {
            None => return Err(ContractError::NotInitialized),
            Some(a) => {
                if caller != a {
                    return Err(ContractError::NotAdmin);
                }
            },
        }
        let mut kept: Vec<Address> = Vec::new();
        let mut i: usize = 0;
        while i < self.approved.len()
            invariant
                0 <= i <= self.approved@.len(),
                kept@ == self.approved@.take(i as int).filter(|x: Address| x != stablecoin),
            decreases self.approved@.len() - i,
        {
            proof {
                reveal_with_fuel(Seq::filter, 1);
                assert(self.approved@.take(i + 1).drop_last() == self.approved@.take(i as int));
            }
            let item = self.approved[i];
            if item != stablecoin {
                kept.push(item);
            }
            i = i + 1;
        }
        proof {
            assert(self.approved@.take(self.approved@.len() as int) == self.approved@);
        }
        self.approved = kept;
        Ok(())
    }

    /// The approved stablecoins, in approval order.
    pub fn get_approved_stablecoins(&self) -> (r: &Vec<Address>)
        ensures
            r@ == self.approved@,
    {
        &self.approved
    }

    /// Whether `route` is usable for `token_in` under `config`.
    pub fn validate_route(&self, config: RouterConfig, token_in: Address, route: &SwapRoute) -> (r: bool)
        ensures
            r == route_valid(config, self.approved@, token_in, route.path@, route.pools@),
    {
        let hops = route.pools.len();
        if hops == 0 || route.path.len() == 0 || route.path.len() - 1 != hops {
            return false;
        }
        if hops > config.max_hops as usize {
            return false;
        }
        if route.path[0] != token_in {
            return false;
        }
        let stablecoin_out = route.path[route.path.len() - 1];
        self.is_approved(stablecoin_out)
    }

    fn count_refund(&mut self) -> (r: Result<(), ContractError>)
        ensures
            match old(self).stats_with_refund() {
                None => r == Err::<(), ContractError>(ContractError::ArithmeticOverflow) && *final(self) == *old(self),
                Some(s) => r is Ok && *final(self) == (SwapRouter { stats: s, ..*old(self) }),
            },
    {
        if self.stats.total_refunds == u32::MAX {
            return Err(ContractError::ArithmeticOverflow);
        }
        self.stats.total_refunds = self.stats.total_refunds + 1;
        Ok(())
    }

    /// What the first conversion step gives.
    pub open spec fn convert_outcome(&self, token_in: Address, amount_in: i128, path: Seq<Address>, pools: Seq<Address>, slippage_bps: Option<u32>) -> Result<ConversionStep, ContractError> {
        if amount_in <= 0 {
            Err(ContractError::InvalidAmount)
        } else if self.config is None {
            Err(ContractError::RouterNotConfigured)
        } else if (match slippage_bps { Some(s) => s, None => self.config->0.default_slippage_bps }) > 10000 {
            Err(ContractError::InvalidSlippage)
        } else if !route_valid(self.config->0, self.approved@, token_in, path, pools) {
            match self.stats_with_refund() {
                None => Err(ContractError::ArithmeticOverflow),
                Some(_) => Ok(ConversionStep::Done(ConversionOutcome::Refunded(RefundReason::RouteUnresolved))),
            }
        } else {
            Ok(ConversionStep::QueryPrices { token_in, stablecoin_out: path.last() })
        }
    }

    /// First step of converting `amount_in` of `token_in` deposited by the
    /// sender: check the amount, the configuration and the slippage (the
    /// default one when `slippage_bps` is `None`), then resolve the route.
    /// An unresolvable route is refunded at once (counted; nothing moves);
    /// otherwise the host is asked for oracle prices.
    pub fn convert_incoming_deposit(
        &mut self,
        token_in: Address,
        amount_in: i128,
        route: &SwapRoute,
        slippage_bps: Option<u32>,
    ) -> (r: Result<ConversionStep, ContractError>)
        ensures
            r == old(self).convert_outcome(token_in, amount_in, route.path@, route.pools@, slippage_bps),
            r is Err ==> *final(self) == *old(self),
            r is Ok ==> (r == Ok::<ConversionStep, ContractError>(ConversionStep::Done(ConversionOutcome::Refunded(RefundReason::RouteUnresolved)))
                ==> *final(self) == (SwapRouter { stats: old(self).stats_with_refund()->0, ..*old(self) })),
            r matches Ok(ConversionStep::QueryPrices { .. }) ==> *final(self) == *old(self),
    {
        if amount_in <= 0 {
            return Err(ContractError::InvalidAmount);
        }
        let config = match self.config {
            Some(c) => c,
            None => return Err(ContractError::RouterNotConfigured),
        };
        let slippage = match slippage_bps {
            Some(s) => s,
            None => config.default_slippage_bps,
        };
        if slippage > 10000 {
            return Err(ContractError::InvalidSlippage);
        }
        if !self.validate_route(config, token_in, route) {
            match self.count_refund() {
                Ok(()) => {},
                Err(e) => return Err(e),
            }
            return Ok(ConversionStep::Done(ConversionOutcome::Refunded(RefundReason::RouteUnresolved)));
        }
        let stablecoin_out = route.path[route.path.len() - 1];
        Ok(ConversionStep::QueryPrices { token_in, stablecoin_out })
    }

    /// What the pricing step gives.
    pub open spec fn pricing_outcome(
        &self,
        sender: Address,
        token_in: Address,
        amount_in: i128,
        stablecoin_out: Address,
        slippage: u32,
        price_in: Option<i128>,
        price_out: Option<i128>,
        contract_address: Address,
    ) -> Result<ConversionStep, ContractError> {
        if !(price_in matches Some(p) && p > 0) {
            match self.stats_with_refund() {
                None => Err(ContractError::ArithmeticOverflow),
                Some(_) => Ok(ConversionStep::Done(ConversionOutcome::Refunded(RefundReason::NoInputPrice))),
            }
        } else if !(price_out matches Some(p) && p > 0) {
            match self.stats_with_refund() {
                None => Err(ContractError::ArithmeticOverflow),
                Some(_) => Ok(ConversionStep::Done(ConversionOutcome::Refunded(RefundReason::NoOutputPrice))),
            }
        } else {
            match min_return(amount_in, price_in->0, price_out->0, slippage) {
                None => Err(ContractError::ArithmeticOverflow),
                Some(min_out) => Ok(ConversionStep::Execute {
                    pull: Transfer { token: token_in, from: sender, to: contract_address, amount: amount_in },
                    stablecoin_out,
                    min_out,
                }),
            }
        }
    }

    /// Second step: given the oracle's quotes (`None` when it has none),
    /// refund when either price is missing or not positive; otherwise derive
    /// the minimum return and ask the host to pull the deposit into the
    /// contract and run the route.
    pub fn apply_oracle_prices(
        &mut self,
        sender: Address,
        token_in: Address,
        amount_in: i128,
        stablecoin_out: Address,
        slippage: u32,
        price_in: Option<i128>,
        price_out: Option<i128>,
        contract_address: Address,
    ) -> (r: Result<ConversionStep, ContractError>)
        requires
            slippage <= 10000,
        ensures
            r == old(self).pricing_outcome(sender, token_in, amount_in, stablecoin_out, slippage, price_in, price_out, contract_address),
            r is Err ==> *final(self) == *old(self),
            r matches Ok(ConversionStep::Done(_)) ==> *final(self) == (SwapRouter { stats: old(self).stats_with_refund()->0, ..*old(self) }),
            r matches Ok(ConversionStep::Execute { .. }) ==> *final(self) == *old(self),
    {
        let p_in = match price_in {
            Some(p) if p > 0 => p,
            _ => {
                match self.count_refund() {
                    Ok(()) => {},
                    Err(e) => return Err(e),
                }
                return Ok(ConversionStep::Done(ConversionOutcome::Refunded(RefundReason::NoInputPrice)));
            },
        };
        let p_out = match price_out {
            Some(p) if p > 0 => p,
            _ => {
                match self.count_refund() {
                    Ok(()) => {},
                    Err(e) => return Err(e),
                }
                return Ok(ConversionStep::Done(ConversionOutcome::Refunded(RefundReason::NoOutputPrice)));
            },
        };
        let value = match amount_in.checked_mul(p_in) {
            Some(v) => v,
            None => return Err(ContractError::ArithmeticOverflow),
        };
        let expected_out = value / p_out;
        let scaled = match expected_out.checked_mul(10000 - slippage as i128) {
            Some(v) => v,
            None => return Err(ContractError::ArithmeticOverflow),
        };
        let min_out = scaled / 10000;
        Ok(ConversionStep::Execute {
            pull: Transfer { token: token_in, from: sender, to: contract_address, amount: amount_in },
            stablecoin_out,
            min_out,
        })
    }

    /// Hop `i` of `route` carrying `amount`: the input is sent from the
    /// contract to the hop's pool, and the pool pays the contract, or the
    /// vault on the last hop.
    pub fn execute_route_hop(route: &SwapRoute, i: usize, amount: i128, this_contract: Address, vault: Address) -> (r: RouteHop)
        requires
            i < route.pools@.len(),
            route.path@.len() == route.pools@.len() + 1,
        ensures
            r == (RouteHop {
                send: Transfer { token: route.path@[i as int], from: this_contract, to: route.pools@[i as int], amount },
                pool: route.pools@[i as int],
                token_in: route.path@[i as int],
                token_out: route.path@[i + 1],
                amount_in: amount,
                recipient: if i + 1 == route.pools@.len() { vault } else { this_contract },
            }),
    {
        let n = route.pools.len();
        let token_in = route.path[i];
        let token_out = route.path[i + 1];
        let pool = route.pools[i];
        let recipient = if i + 1 == n { vault } else { this_contract };
        RouteHop {
            send: Transfer { token: token_in, from: this_contract, to: pool, amount },
            pool,
            token_in,
            token_out,
            amount_in: amount,
            recipient,
        }
    }

    /// What the final step gives.
    pub open spec fn finish_outcome(&self, sender: Address, stablecoin_out: Address, amount_out: i128, min_out: i128) -> Result<ConversionOutcome, ContractError> {
        if amount_out < min_out {
            Err(ContractError::SlippageExceeded)
        } else if !fits_i128(self.balance_of(sender, stablecoin_out) + amount_out)
            || self.stats.total_conversions + 1 > u32::MAX
            || !fits_i128(self.stats.total_stablecoin_out + amount_out) {
            Err(ContractError::ArithmeticOverflow)
        } else {
            Ok(ConversionOutcome::Converted(stablecoin_out, amount_out))
        }
    }

    /// Final step: the route delivered `amount_out`. Below `min_out` the
    /// whole conversion is refused; otherwise the sender's vault balance is
    /// credited and the conversion counted.
    pub fn finish_conversion(&mut self, sender: Address, stablecoin_out: Address, amount_out: i128, min_out: i128) -> (r: Result<ConversionOutcome, ContractError>)
        ensures
            r == old(self).finish_outcome(sender, stablecoin_out, amount_out, min_out),
            r is Err ==> *final(self) == *old(self),
            r is Ok ==> {
                &&& final(self).balances@ == old(self).balances@.insert(balance_key(sender, stablecoin_out),
                    (old(self).balance_of(sender, stablecoin_out) + amount_out) as i128)
                &&& final(self).stats == (SwapRouterStats {
                    total_conversions: (old(self).stats.total_conversions + 1) as u32,
                    total_stablecoin_out: (old(self).stats.total_stablecoin_out + amount_out) as i128,
                    ..old(self).stats
                })
                &&& final(self).config == old(self).config
                &&& final(self).approved == old(self).approved
            },
    {
        if amount_out < min_out {
            return Err(ContractError::SlippageExceeded);
        }
        let key = make_balance_key(sender, stablecoin_out);
        let current: i128 = match self.balances.get(&key) {
            Some(v) => *v,
            None => 0,
        };
        let credited = match current.checked_add(amount_out) {
            Some(v) => v,
            None => return Err(ContractError::ArithmeticOverflow),
        };
        if self.stats.total_conversions == u32::MAX {
            return Err(ContractError::ArithmeticOverflow);
        }
        let out_total = match self.stats.total_stablecoin_out.checked_add(amount_out) {
            Some(v) => v,
            None => return Err(ContractError::ArithmeticOverflow),
        };
        self.balances.insert(key, credited);
        self.stats.total_conversions = self.stats.total_conversions + 1;
        self.stats.total_stablecoin_out = out_total;
        Ok(ConversionOutcome::Converted(stablecoin_out, amount_out))
    }

    /// `owner`'s credited balance of `stablecoin`.
    pub fn get_vault_balance(&self, owner: Address, stablecoin: Address) -> (r: i128)
        ensures
            r == self.balance_of(owner, stablecoin),
    {
        let key = make_balance_key(owner, stablecoin);
        match self.balances.get(&key) {
            Some(v) => *v,
            None => 0,
        }
    }

    /// `owner` withdraws `amount` of their credited `stablecoin`; returns the
    /// payment from `contract_address`.
    pub fn withdraw_stablecoin(&mut self, owner: Address, stablecoin: Address, amount: i128, contract_address: Address) -> (r: Result<Transfer, ContractError>)
        ensures
            amount <= 0 ==> r == Err::<Transfer, ContractError>(ContractError::InvalidAmount),
            amount > 0 && amount > old(self).balance_of(owner, stablecoin) ==> r == Err::<Transfer, ContractError>(ContractError::InsufficientBalance),
            r is Ok <==> amount > 0 && amount <= old(self).balance_of(owner, stablecoin),
            r is Err ==> *final(self) == *old(self),
            r is Ok ==> {
                &&& r == Ok::<Transfer, ContractError>(Transfer { token: stablecoin, from: contract_address, to: owner, amount })
                &&& final(self).balances@ == old(self).balances@.insert(balance_key(owner, stablecoin),
                    (old(self).balance_of(owner, stablecoin) - amount) as i128)
                &&& forall|o: Address, s: Address| !(o == owner && s == stablecoin) ==> final(self).balance_of(o, s) == old(self).balance_of(o, s)
                &&& final(self).stats == old(self).stats
                &&& final(self).config == old(self).config
                &&& final(self).approved == old(self).approved
            },
    {
        if amount <= 0 {
            return Err(ContractError::InvalidAmount);
        }
        let key = make_balance_key(owner, stablecoin);
        let current: i128 = match self.balances.get(&key) {
            Some(v) => *v,
            None => 0,
        };
        if amount > current {
            return Err(ContractError::InsufficientBalance);
        }
        self.balances.insert(key, current - amount);
        proof {
            assert forall|o: Address, s: Address| !(o == owner && s == stablecoin) implies
                self.balance_of(o, s) == old(self).balance_of(o, s) by {
                if balance_key(o, s) == key {
                    lemma_balance_key_injective(o, s, owner, stablecoin);
                }
            };
        }
        Ok(Transfer { token: stablecoin, from: contract_address, to: owner, amount })
    }

    /// The statistics.
    pub fn get_stats(&self) -> (r: SwapRouterStats)
        ensures
            r == self.stats,
    {
        self.stats
    }
}


impl TaskManagerContract {
    /// The admin configures the swap router.
    pub fn configure_swap_router(&mut self, caller: Address, oracle: Address, max_hops: u32, default_slippage_bps: u32) -> (r: Result<(), ContractError>)
        requires
            old(self).wf(),
        ensures
            final(self).wf(),
            r == SwapRouter::configure_outcome(caller, old(self).admin_opt(), max_hops, default_slippage_bps),
            r is Err ==> *final(self) == *old(self),
            r is Ok ==> *final(self) == (TaskManagerContract {
                router: SwapRouter { config: Some(RouterConfig { oracle, max_hops, default_slippage_bps }), ..old(self).router },
                ..*old(self)
            }),
    {
        let admin = self.get_admin();
        self.router.configure(caller, admin, oracle, max_hops, default_slippage_bps)
    }

    /// The swap router's configuration.
    pub fn get_swap_router_config(&self) -> (r: Result<RouterConfig, ContractError>)
        ensures
            r == (match self.router.config {
                Some(c) => Ok::<RouterConfig, ContractError>(c),
                None => Err(ContractError::RouterNotConfigured),
            }),
    {
        self.router.get_config()
    }

    /// The contract admin approves `stablecoin` as a conversion target.
    pub fn add_approved_stablecoin(&mut self, caller: Address, stablecoin: Address) -> (r: Result<(), ContractError>)
        requires
            old(self).wf(),
        ensures
            final(self).wf(),
            !old(self).initialized ==> r == Err::<(), ContractError>(ContractError::NotInitialized),
            old(self).initialized && caller != old(self).admin ==> r == Err::<(), ContractError>(ContractError::NotAdmin),
            r is Ok <==> old(self).initialized && caller == old(self).admin,
            r is Err ==> *final(self) == *old(self),
            *final(self) == (TaskManagerContract { router: final(self).router, ..*old(self) }),
            r is Ok ==> final(self).router == (SwapRouter {
                approved: final(self).router.approved,
                ..old(self).router
            }) && final(self).router.approved@ == (if old(self).router.approved@.contains(stablecoin) {
                old(self).router.approved@
            } else {
                old(self).router.approved@.push(stablecoin)
            }),
    {
        let admin = self.get_admin();
        self.router.add_approved_stablecoin(caller, admin, stablecoin)
    }

    /// The contract admin withdraws approval of `stablecoin`.
    pub fn remove_approved_stablecoin(&mut self, caller: Address, stablecoin: Address) -> (r: Result<(), ContractError>)
        requires
            old(self).wf(),
        ensures
            final(self).wf(),
            !old(self).initialized ==> r == Err::<(), ContractError>(ContractError::NotInitialized),
            old(self).initialized && caller != old(self).admin ==> r == Err::<(), ContractError>(ContractError::NotAdmin),
            r is Ok <==> old(self).initialized && caller == old(self).admin,
            r is Err ==> *final(self) == *old(self),
            *final(self) == (TaskManagerContract { router: final(self).router, ..*old(self) }),
            r is Ok ==> final(self).router == (SwapRouter {
                approved: final(self).router.approved,
                ..old(self).router
            }) && final(self).router.approved@ == old(self).router.approved@.filter(|x: Address| x != stablecoin),
    {
        let admin = self.get_admin();
        self.router.remove_approved_stablecoin(caller, admin, stablecoin)
    }

    /// The approved stablecoins, in approval order.
    pub fn get_approved_stablecoins(&self) -> (r: &Vec<Address>)
        ensures
            r@ == self.router.approved@,
    {
        self.router.get_approved_stablecoins()
    }

    /// First step of converting a deposit of `amount_in` of `token_in` (see
    /// `SwapRouter::convert_incoming_deposit`).
    pub fn convert_incoming_deposit(
        &mut self,
        token_in: Address,
        amount_in: i128,
        route: &SwapRoute,
        slippage_bps: Option<u32>,
    ) -> (r: Result<ConversionStep, ContractError>)
        requires
            old(self).wf(),
        ensures
            final(self).wf(),
            r == old(self).router.convert_outcome(token_in, amount_in, route.path@, route.pools@, slippage_bps),
            r is Err ==> *final(self) == *old(self),
            *final(self) == (TaskManagerContract { router: final(self).router, ..*old(self) }),
            r == Ok::<ConversionStep, ContractError>(ConversionStep::Done(ConversionOutcome::Refunded(RefundReason::RouteUnresolved)))
                ==> final(self).router == (SwapRouter { stats: old(self).router.stats_with_refund()->0, ..old(self).router }),
            r matches Ok(ConversionStep::QueryPrices { .. }) ==> *final(self) == *old(self),
    {
        self.router.convert_incoming_deposit(token_in, amount_in, route, slippage_bps)
    }

    /// `owner`'s credited balance of `stablecoin`.
    pub fn get_vault_balance(&self, owner: Address, stablecoin: Address) -> (r: i128)
        ensures
            r == self.router.balance_of(owner, stablecoin),
    {
        self.router.get_vault_balance(owner, stablecoin)
    }

    /// `owner` withdraws `amount` of their credited `stablecoin`; returns the
    /// payment from the contract.
    pub fn withdraw_stablecoin(&mut self, owner: Address, stablecoin: Address, amount: i128) -> (r: Result<Transfer, ContractError>)
        requires
            old(self).wf(),
        ensures
            final(self).wf(),
            amount <= 0 ==> r == Err::<Transfer, ContractError>(ContractError::InvalidAmount),
            amount > 0 && amount > old(self).router.balance_of(owner, stablecoin)
                ==> r == Err::<Transfer, ContractError>(ContractError::InsufficientBalance),
            r is Ok <==> amount > 0 && amount <= old(self).router.balance_of(owner, stablecoin),
            r is Err ==> *final(self) == *old(self),
            *final(self) == (TaskManagerContract { router: final(self).router, ..*old(self) }),
            r is Ok ==> {
                &&& r == Ok::<Transfer, ContractError>(Transfer { token: stablecoin, from: old(self).contract_address, to: owner, amount })
                &&& final(self).router.balances@ == old(self).router.balances@.insert(balance_key(owner, stablecoin),
                    (old(self).router.balance_of(owner, stablecoin) - amount) as i128)
                &&& final(self).router.stats == old(self).router.stats
                &&& final(self).router.config == old(self).router.config
                &&& final(self).router.approved == old(self).router.approved
            },
    {
        let contract_address = self.contract_address;
        self.router.withdraw_stablecoin(owner, stablecoin, amount, contract_address)
    }

    /// The swap router's statistics.
    pub fn get_swap_router_stats(&self) -> (r: SwapRouterStats)
        ensures
            r == self.router.stats,
    {
        self.router.get_stats()
    }
}

} // verus!
