//! Time-weighted average price oracle: price observations per asset pair,
//! a sliding observation window, median-based outlier rejection, and a
//! fallback price when too few good observations remain.

use vstd::prelude::*;
use vstd::relations::{sorted_by, total_ordering};
use std::collections::HashMap;
use crate::types::{ContractError, fits_i128, trunc_div};

verus! {

broadcast use vstd::std_specs::hash::group_hash_axioms;

/// An asset pair, identified by a stable numeric id (the host keeps the
/// mapping between pair symbols and ids).
pub type PairId = u64;

#[derive(Clone, Copy, Debug, PartialEq, Eq, Structural)]
pub struct PriceObservation {
    pub timestamp: u64,
    pub cumulative_price: i128,
    pub price: i128,
    pub ledger_sequence: u32,
}

#[derive(Clone, Copy, Debug, PartialEq, Eq, Structural)]
pub struct TwapConfig {
    pub primary_pool: PairId,
    pub secondary_oracle: Option<PairId>,
    pub min_observation_count: u32,
    pub max_deviation_bps: u32,
    pub observation_window_secs: u64,
    pub min_liquidity_threshold: i128,
}

#[derive(Clone, Copy, Debug, PartialEq, Eq, Structural)]
pub struct TwapResult {
    pub price: i128,
    pub oldest_timestamp: u64,
    pub newest_timestamp: u64,
    pub observation_count: u32,
    pub used_fallback: bool,
    pub avg_deviation_bps: u32,
}

/// Ledger storage keys of the oracle records.
#[derive(Clone, Copy, Debug, PartialEq, Eq, Structural)]
pub enum TwapStorageKey {
    Config,
    Observations(PairId),
    LastObservation(PairId),
    PoolLiquidity(PairId),
    FallbackPrice(PairId),
}

/// The order prices are sorted by.
pub open spec fn price_le() -> spec_fn(i128, i128) -> bool {
    |a: i128, b: i128| a <= b
}

/// `prices` in ascending order.
pub open spec fn sorted_prices(prices: Seq<i128>) -> Seq<i128> {
    prices.sort_by(price_le())
}

/// The median of `prices`: the middle element of the sorted prices, or the
/// truncated mean of the two middle ones; `None` when their sum overflows.
pub open spec fn median_of(prices: Seq<i128>) -> Option<i128> {
    let s = sorted_prices(prices);
    let n = s.len() as int;
    if n % 2 == 1 {
        Some(s[n / 2])
    } else if fits_i128(s[n / 2 - 1] + s[n / 2]) {
        Some(trunc_div(s[n / 2 - 1] + s[n / 2], 2) as i128)
    } else {
        None
    }
}

proof fn lemma_price_le_total()
    ensures
        total_ordering(price_le()),
{
    let le = price_le();
    assert(forall|x: i128| #[trigger] le(x, x));
    assert(forall|x: i128, y: i128| #[trigger] le(x, y) && #[trigger] le(y, x) ==> x == y);
    assert(forall|x: i128, y: i128, z: i128| #[trigger] le(x, y) && #[trigger] le(y, z) ==> le(x, z));
    assert(forall|x: i128, y: i128| #[trigger] le(x, y) || #[trigger] le(y, x));
}

/// `prices` in ascending order (insertion sort).
pub fn sort_prices(prices: &Vec<i128>) -> (r: Vec<i128>)
    ensures
        r@ == sorted_prices(prices@),
{
    broadcast use vstd::seq_lib::group_to_multiset_ensures;
    let mut out: Vec<i128> = Vec::new();
    let mut i: usize = 0;
    while i < prices.len()
        invariant
            0 <= i <= prices@.len(),
            out@.len() == i,
            sorted_by(out@, price_le()),
            out@.to_multiset() == prices@.take(i as int).to_multiset(),
        decreases prices@.len() - i,
    {
        let x = prices[i];
        let mut p: usize = 0;
        while p < out.len() && out[p] <= x
            invariant
                0 <= p <= out@.len(),
                forall|k: int| 0 <= k < p ==> out@[k] <= x,
            decreases out@.len() - p,
        {
            p = p + 1;
        }
        let ghost before = out@;
        out.insert(p, x);
        proof {
            assert(out@ == before.insert(p as int, x));
            vstd::seq_lib::to_multiset_insert(before, p as int, x);
            assert(prices@.take(i + 1) == prices@.take(i as int).push(x));
            vstd::seq_lib::to_multiset_build(prices@.take(i as int), x);
            assert forall|a: int, b: int| 0 <= a < b < out@.len() implies #[trigger] price_le()(out@[a], out@[b]) by {
                if b < p {
                    assert(out@[a] == before[a] && out@[b] == before[b]);
                    assert(price_le()(before[a], before[b]));
                } else if b == p {
                    assert(out@[a] == before[a]);
                } else if a < p {
                    assert(out@[a] == before[a] && out@[b] == before[b - 1]);
                    if a < b - 1 {
                        assert(price_le()(before[a], before[b - 1]));
                    }
                } else if a == p {
                    assert(out@[b] == before[b - 1]);
                    assert(price_le()(before[p as int], before[b - 1]) || p as int == b - 1);
                } else {
                    assert(out@[a] == before[a - 1] && out@[b] == before[b - 1]);
                    assert(price_le()(before[a - 1], before[b - 1]));
                }
            };
        }
        i = i + 1;
    }
    proof {
        assert(prices@.take(prices@.len() as int) == prices@);
        lemma_price_le_total();
        prices@.lemma_sort_by_ensures(price_le());
        vstd::seq_lib::lemma_sorted_unique(out@, sorted_prices(prices@), price_le());
    }
    out
}


/// The median of `prices` (see `median_of`); `None` when the two middle
/// prices overflow when added.
pub fn calculate_median(prices: &Vec<i128>) -> (r: Option<i128>)
    requires
        prices@.len() > 0,
    ensures
        r == median_of(prices@),
{
    let sorted = sort_prices(prices);
    proof {
        lemma_price_le_total();
        prices@.lemma_sort_by_ensures(price_le());
        assert(sorted@.to_multiset().len() == prices@.to_multiset().len());
        broadcast use vstd::seq_lib::group_to_multiset_ensures;
    }
    let len = sorted.len();
    if len % 2 == 1 {
        Some(sorted[len / 2])
    } else {
        let mid1 = sorted[len / 2 - 1];
        let mid2 = sorted[len / 2];
        match mid1.checked_add(mid2) {
            Some(sum) => Some(sum / 2),
            None => None,
        }
    }
}

/// Deviation of `price` from `median` in basis points, cut to 32 bits by
/// the cast to `u32`; zero unless both are positive. `None` when the
/// scaled difference overflows.
pub open spec fn deviation_of(price: i128, median: i128) -> Option<u32> {
    if price > 0 && median > 0 {
        let diff: int = if price > median { price - median } else { median - price };
        if diff * 10000 > i128::MAX {
            None
        } else {
            Some(((diff * 10000) / (median as int)) as u32)
        }
    } else {
        Some(0)
    }
}

/// The observations of `obs` within `max_dev` basis points of `median`,
/// in order, with the sum of their deviations; `None` when a deviation
/// overflows.
pub open spec fn screen(obs: Seq<PriceObservation>, median: i128, max_dev: u32) -> Option<(Seq<PriceObservation>, int)>
    decreases obs.len(),
{
    if obs.len() == 0 {
        Some((Seq::empty(), 0))
    } else {
        match screen(obs.drop_last(), median, max_dev) {
            None => None,
            Some((kept, total)) => match deviation_of(obs.last().price, median) {
                None => None,
                Some(d) => if d <= max_dev { Some((kept.push(obs.last()), total + d)) } else { Some((kept, total)) },
            },
        }
    }
}

/// The observations kept by `screen` (none when it overflows).
pub open spec fn screened(obs: Seq<PriceObservation>, median: i128, max_dev: u32) -> Seq<PriceObservation> {
    match screen(obs, median, max_dev) {
        Some((kept, _)) => kept,
        None => Seq::empty(),
    }
}

/// Prices of `obs`, in order.
pub open spec fn prices_of(obs: Seq<PriceObservation>) -> Seq<i128> {
    obs.map_values(|o: PriceObservation| o.price)
}

/// What `filter_outliers` gives: fewer than two observations pass through
/// untouched; otherwise those within `max_dev` of the median price, with
/// their average deviation capped at 10000. `None` on overflow.
pub open spec fn outlier_filter(obs: Seq<PriceObservation>, max_dev: u32) -> Option<(Seq<PriceObservation>, u32)> {
    if obs.len() < 2 {
        Some((obs, 0))
    } else {
        match median_of(prices_of(obs)) {
            None => None,
            Some(m) => match screen(obs, m, max_dev) {
                None => None,
                Some((kept, total)) => Some((kept, if kept.len() > 0 {
                    let avg = total / (kept.len() as int);
                    if avg < 10000 { avg as u32 } else { 10000u32 }
                } else {
                    0u32
                })),
            },
        }
    }
}

/// Deviation of `price` from `median` in basis points (see `deviation_of`).
fn deviation_bps(price: i128, median: i128) -> (r: Option<u32>)
    ensures
        r == deviation_of(price, median),
{
    if price > 0 && median > 0 {
        let diff: i128 = if price > median { price - median } else { median - price };
        match diff.checked_mul(10000) {
            Some(scaled) => {
                let q = scaled / median;
                Some(q as u32)
            },
            None => None,
        }
    } else {
        Some(0)
    }
}

/// Drop the observations whose price deviates from the median by more than
/// `max_deviation_bps`; returns the rest and their average deviation.
pub fn filter_outliers(observations: &Vec<PriceObservation>, max_deviation_bps: u32) -> (r: Option<(Vec<PriceObservation>, u32)>)
    requires
        observations@.len() < u32::MAX,
    ensures
        match outlier_filter(observations@, max_deviation_bps) {
            None => r is None,
            Some((kept, avg)) => r matches Some((v, a)) && v@ == kept && a == avg,
        },
{
    if observations.len() < 2 {
        let mut copy: Vec<PriceObservation> = Vec::new();
        let mut k: usize = 0;
        while k < observations.len()
            invariant
                0 <= k <= observations@.len(),
                copy@ == observations@.take(k as int),
            decreases observations@.len() - k,
        {
            copy.push(observations[k]);
            k = k + 1;
        }
        proof {
            assert(observations@.take(observations@.len() as int) == observations@);
        }
        return Some((copy, 0));
    }
    let mut prices: Vec<i128> = Vec::new();
    let mut i: usize = 0;
    while i < observations.len()
        invariant
            0 <= i <= observations@.len(),
            prices@ == prices_of(observations@.take(i as int)),
        decreases observations@.len() - i,
    {
        prices.push(observations[i].price);
        i = i + 1;
        proof {
            assert(prices_of(observations@.take(i as int)) =~= prices@);
        }
    }
    proof {
        assert(observations@.take(observations@.len() as int) == observations@);
    }
    let median = match calculate_median(&prices) {
        Some(m) => m,
        None => return None,
    };
    let mut filtered: Vec<PriceObservation> = Vec::new();
    let mut total: i128 = 0;
    let mut count: i128 = 0;
    let mut j: usize = 0;
    while j < observations.len()
        invariant
            0 <= j <= observations@.len(),
            observations@.len() < u32::MAX,
            observations@.len() >= 2,
            median_of(prices_of(observations@)) == Some(median),
            screen(observations@.take(j as int), median, max_deviation_bps) == Some((filtered@, total as int)),
            count == filtered@.len(),
            filtered@.len() <= j,
            0 <= total <= j * 4294967295,
        decreases observations@.len() - j,
    {
        proof {
            assert(observations@.take(j + 1).drop_last() == observations@.take(j as int));
        }
        let obs = observations[j];
        let d = match deviation_bps(obs.price, median) {
            Some(d) => d,
            None => {
                proof {
                    assert(observations@.take(j + 1).last() == obs);
                    assert(screen(observations@.take(j + 1), median, max_deviation_bps) is None);
                    lemma_screen_none_extends(observations@, j as int + 1, median, max_deviation_bps);
                }
                return None;
            },
        };
        if d <= max_deviation_bps {
            filtered.push(obs);
            total = total + d as i128;
            count = count + 1;
        }
        j = j + 1;
    }
    proof {
        assert(observations@.take(observations@.len() as int) == observations@);
    }
    let avg: u32 = if count > 0 {
        let a = total / count;
        if a < 10000 { a as u32 } else { 10000 }
    } else {
        0
    };
    Some((filtered, avg))
}

/// Once a prefix of the observations overflows, every longer one does.
proof fn lemma_screen_none_extends(obs: Seq<PriceObservation>, n: int, median: i128, max_dev: u32)
    requires
        0 <= n <= obs.len(),
        screen(obs.take(n), median, max_dev) is None,
    ensures
        screen(obs, median, max_dev) is None,
    decreases obs.len() - n,
{
    if n < obs.len() {
        assert(obs.take(n + 1).drop_last() == obs.take(n));
        lemma_screen_none_extends(obs, n + 1, median, max_dev);
    } else {
        assert(obs.take(n) == obs);
    }
}


/// The observations of `obs` taken within `[start, end]`, in order.
pub open spec fn in_window(obs: Seq<PriceObservation>, start: u64, end: u64) -> Seq<PriceObservation>
    decreases obs.len(),
{
    if obs.len() == 0 {
        Seq::empty()
    } else {
        let rest = in_window(obs.drop_last(), start, end);
        let o = obs.last();
        if start <= o.timestamp && o.timestamp <= end { rest.push(o) } else { rest }
    }
}

/// `idx` lists positions of `obs` in strictly increasing order (so no
/// position twice), each holding an observation taken within `[start, end]`.
pub open spec fn positions_within(obs: Seq<PriceObservation>, idx: Seq<int>, start: u64, end: u64) -> bool {
    &&& forall|a: int, b: int| 0 <= a < b < idx.len() ==> #[trigger] idx[a] < #[trigger] idx[b]
    &&& forall|a: int| 0 <= a < idx.len() ==> 0 <= #[trigger] idx[a] < obs.len()
        && start <= obs[idx[a]].timestamp && obs[idx[a]].timestamp <= end
}

/// `sub` is drawn from `obs` in order: its `k`-th element sits at position
/// `idx[k]` of `obs`, and the positions strictly increase.
pub open spec fn picks(obs: Seq<PriceObservation>, sub: Seq<PriceObservation>, idx: Seq<int>) -> bool {
    &&& idx.len() == sub.len()
    &&& forall|a: int, b: int| 0 <= a < b < idx.len() ==> #[trigger] idx[a] < #[trigger] idx[b]
    &&& forall|a: int| 0 <= a < idx.len() ==> 0 <= #[trigger] idx[a] < obs.len() && sub[a] == obs[idx[a]]
}

/// The positions of the observations the window keeps.
pub proof fn lemma_window_positions(obs: Seq<PriceObservation>, start: u64, end: u64) -> (idx: Seq<int>)
    ensures
        positions_within(obs, idx, start, end),
        picks(obs, in_window(obs, start, end), idx),
    decreases obs.len(),
{
    if obs.len() == 0 {
        Seq::empty()
    } else {
        let d = obs.drop_last();
        let rest = lemma_window_positions(d, start, end);
        let rw = in_window(d, start, end);
        let o = obs.last();
        assert forall|a: int| 0 <= a < rest.len() implies
            start <= obs[#[trigger] rest[a]].timestamp && obs[rest[a]].timestamp <= end && rw[a] == obs[rest[a]] by {
            assert(obs[rest[a]] == d[rest[a]]);
        };
        if start <= o.timestamp && o.timestamp <= end {
            let idx = rest.push(obs.len() - 1);
            assert(in_window(obs, start, end) == rw.push(o));
            assert forall|a: int, b: int| 0 <= a < b < idx.len() implies #[trigger] idx[a] < #[trigger] idx[b] by {
                assert(idx[a] == rest[a]);
                if b < rest.len() {
                    assert(idx[b] == rest[b]);
                }
            };
            assert forall|a: int| 0 <= a < idx.len() implies 0 <= #[trigger] idx[a] < obs.len()
                && start <= obs[idx[a]].timestamp && obs[idx[a]].timestamp <= end
                && rw.push(o)[a] == obs[idx[a]] by {
                if a < rest.len() {
                    assert(idx[a] == rest[a]);
                    assert(rw.push(o)[a] == rw[a]);
                }
            };
            idx
        } else {
            rest
        }
    }
}

/// The observations screening keeps are drawn from its input in order.
pub proof fn lemma_screen_picks(obs: Seq<PriceObservation>, median: i128, max_dev: u32) -> (idx: Seq<int>)
    requires
        screen(obs, median, max_dev) is Some,
    ensures
        picks(obs, (screen(obs, median, max_dev)->0).0, idx),
    decreases obs.len(),
{
    if obs.len() == 0 {
        Seq::empty()
    } else {
        let d = obs.drop_last();
        let rest = lemma_screen_picks(d, median, max_dev);
        let kept = (screen(d, median, max_dev)->0).0;
        let o = obs.last();
        assert forall|a: int| 0 <= a < rest.len() implies kept[a] == obs[#[trigger] rest[a]] by {
            assert(obs[rest[a]] == d[rest[a]]);
        };
        let d_o = deviation_of(o.price, median)->0;
        if d_o <= max_dev {
            let idx = rest.push(obs.len() - 1);
            assert forall|a: int, b: int| 0 <= a < b < idx.len() implies #[trigger] idx[a] < #[trigger] idx[b] by {
                assert(idx[a] == rest[a]);
                if b < rest.len() {
                    assert(idx[b] == rest[b]);
                }
            };
            assert forall|a: int| 0 <= a < idx.len() implies 0 <= #[trigger] idx[a] < obs.len()
                && kept.push(o)[a] == obs[idx[a]] by {
                if a < rest.len() {
                    assert(idx[a] == rest[a]);
                    assert(kept.push(o)[a] == kept[a]);
                }
            };
            idx
        } else {
            rest
        }
    }
}

/// The observations the outlier filter keeps are drawn from its input in order.
pub proof fn lemma_outlier_filter_picks(obs: Seq<PriceObservation>, max_dev: u32) -> (idx: Seq<int>)
    requires
        outlier_filter(obs, max_dev) is Some,
    ensures
        picks(obs, (outlier_filter(obs, max_dev)->0).0, idx),
{
    if obs.len() < 2 {
        let idx = Seq::new(obs.len(), |k: int| k);
        idx
    } else {
        let m = median_of(prices_of(obs))->0;
        lemma_screen_picks(obs, m, max_dev)
    }
}

/// Every observation of `obs` was taken within `[start, end]`.
pub open spec fn all_within(obs: Seq<PriceObservation>, start: u64, end: u64) -> bool {
    forall|k: int| 0 <= k < obs.len() ==> start <= (#[trigger] obs[k]).timestamp && obs[k].timestamp <= end
}

/// The window keeps only observations within it, and no more than it was given.
pub proof fn lemma_in_window_within(obs: Seq<PriceObservation>, start: u64, end: u64)
    ensures
        all_within(in_window(obs, start, end), start, end),
        in_window(obs, start, end).len() <= obs.len(),
    decreases obs.len(),
{
    if obs.len() > 0 {
        lemma_in_window_within(obs.drop_last(), start, end);
        let rest = in_window(obs.drop_last(), start, end);
        let o = obs.last();
        if start <= o.timestamp && o.timestamp <= end {
            assert forall|k: int| 0 <= k < rest.push(o).len() implies
                start <= (#[trigger] rest.push(o)[k]).timestamp && rest.push(o)[k].timestamp <= end by {
                if k < rest.len() {
                    assert(rest.push(o)[k] == rest[k]);
                }
            };
        }
    }
}

/// Screening keeps observations of its input only, no more of them, and
/// their deviations add up to at most `max_dev` each.
pub proof fn lemma_screen_bounds(obs: Seq<PriceObservation>, median: i128, max_dev: u32, start: u64, end: u64)
    requires
        screen(obs, median, max_dev) is Some,
        all_within(obs, start, end),
    ensures
        screen(obs, median, max_dev) matches Some((kept, total)) && {
            &&& kept.len() <= obs.len()
            &&& all_within(kept, start, end)
            &&& 0 <= total <= kept.len() * max_dev
        },
    decreases obs.len(),
{
    if obs.len() > 0 {
        let init = obs.drop_last();
        assert(all_within(init, start, end)) by {
            assert forall|k: int| 0 <= k < init.len() implies
                start <= (#[trigger] init[k]).timestamp && init[k].timestamp <= end by {
                assert(init[k] == obs[k]);
            };
        };
        lemma_screen_bounds(init, median, max_dev, start, end);
        let (kept, total) = screen(init, median, max_dev)->0;
        let o = obs.last();
        assert(start <= o.timestamp && o.timestamp <= end) by {
            assert(o == obs[obs.len() - 1]);
        };
        match deviation_of(o.price, median) {
            None => {},
            Some(d) => {
                if d <= max_dev {
                    assert forall|k: int| 0 <= k < kept.push(o).len() implies
                        start <= (#[trigger] kept.push(o)[k]).timestamp && kept.push(o)[k].timestamp <= end by {
                        if k < kept.len() {
                            assert(kept.push(o)[k] == kept[k]);
                        }
                    };
                    assert(total + d <= (kept.len() + 1) * max_dev) by (nonlinear_arith)
                        requires total <= kept.len() * max_dev, d <= max_dev;
                }
            },
        }
    }
}

/// An average of deviations that are each at most `max_dev` is at most `max_dev`.
proof fn lemma_average_bounded(total: int, n: int, max_dev: u32)
    requires
        n > 0,
        0 <= total <= n * max_dev,
    ensures
        0 <= total / n <= max_dev,
{
    assert(0 <= total / n <= max_dev) by (nonlinear_arith)
        requires n > 0, 0 <= total <= n * max_dev;
}

/// The outlier filter keeps observations of its input only, no more of
/// them, and reports an average deviation no larger than `max_dev`.
pub proof fn lemma_outlier_filter_bounds(obs: Seq<PriceObservation>, max_dev: u32, start: u64, end: u64)
    requires
        outlier_filter(obs, max_dev) is Some,
        all_within(obs, start, end),
    ensures
        outlier_filter(obs, max_dev) matches Some((kept, avg)) && {
            &&& kept.len() <= obs.len()
            &&& all_within(kept, start, end)
            &&& avg <= max_dev
        },
{
    if obs.len() >= 2 {
        let m = median_of(prices_of(obs))->0;
        lemma_screen_bounds(obs, m, max_dev, start, end);
        let (kept, total) = screen(obs, m, max_dev)->0;
        if kept.len() > 0 {
            lemma_average_bounded(total, kept.len() as int, max_dev);
        }
    }
}

/// The observations of `obs` taken at or after `cutoff`, in order.
pub open spec fn taken_since(obs: Seq<PriceObservation>, cutoff: u64) -> Seq<PriceObservation>
    decreases obs.len(),
{
    if obs.len() == 0 {
        Seq::empty()
    } else {
        let rest = taken_since(obs.drop_last(), cutoff);
        if obs.last().timestamp >= cutoff { rest.push(obs.last()) } else { rest }
    }
}

/// The TWAP of the screened observations `kept` (first to last), with
/// their average deviation `avg`; `None` when the cumulative difference
/// overflows.
pub open spec fn twap_of(kept: Seq<PriceObservation>, avg: u32) -> Option<TwapResult> {
    let first = kept[0];
    let last = kept.last();
    let dt: int = if last.timestamp > first.timestamp { last.timestamp - first.timestamp } else { 1 };
    let delta: int = last.cumulative_price - first.cumulative_price;
    if !fits_i128(delta) {
        None
    } else {
        Some(TwapResult {
            price: trunc_div(delta, dt) as i128,
            oldest_timestamp: first.timestamp,
            newest_timestamp: last.timestamp,
            observation_count: kept.len() as u32,
            used_fallback: false,
            avg_deviation_bps: avg,
        })
    }
}

/// Every pair's observation list, the last observation, the pool
/// liquidity and the fallback price of each pair, and the configuration.
#[derive(Clone)]
pub struct TwapOracle {
    pub config: Option<TwapConfig>,
    pub observations: HashMap<PairId, Vec<PriceObservation>>,
    pub last_observation: HashMap<PairId, PriceObservation>,
    pub liquidity: HashMap<PairId, i128>,
    pub fallback: HashMap<PairId, PriceObservation>,
}

impl TwapOracle {
    /// Every observation list fits a 32-bit count.
    pub open spec fn wf(&self) -> bool {
        forall|p: PairId| #[trigger] self.observations@.contains_key(p) ==> self.observations@[p]@.len() < u32::MAX
    }

    /// Observations of `pair`, oldest first.
    pub open spec fn observations_of(&self, pair: PairId) -> Seq<PriceObservation> {
        if self.observations@.contains_key(pair) { self.observations@[pair]@ } else { Seq::empty() }
    }

    /// What the fallback source gives for `pair`.
    pub open spec fn fallback_outcome(&self, pair: PairId) -> Result<TwapResult, ContractError> {
        if self.fallback@.contains_key(pair) {
            let f = self.fallback@[pair];
            Ok(TwapResult {
                price: f.price,
                oldest_timestamp: f.timestamp,
                newest_timestamp: f.timestamp,
                observation_count: 1,
                used_fallback: true,
                avg_deviation_bps: 0,
            })
        } else {
            Err(ContractError::FallbackPriceMissing)
        }
    }

    /// The fallback when a secondary oracle is configured, else a refusal.
    pub open spec fn fallback_or_refuse(&self, cfg: TwapConfig, pair: PairId) -> Result<TwapResult, ContractError> {
        if cfg.secondary_oracle is Some { self.fallback_outcome(pair) } else { Err(ContractError::InsufficientObservations) }
    }

    /// What `calculate_twap` gives for `pair` at time `now`.
    pub open spec fn twap_outcome(&self, pair: PairId, now: u64) -> Result<TwapResult, ContractError> {
        match self.config {
            None => Err(ContractError::TwapNotConfigured),
            Some(cfg) => {
                let all = self.observations_of(pair);
                let start: u64 = if now >= cfg.observation_window_secs { (now - cfg.observation_window_secs) as u64 } else { 0 };
                let w = in_window(all, start, now);
                if all.len() < cfg.min_observation_count {
                    self.fallback_or_refuse(cfg, pair)
                } else if w.len() < cfg.min_observation_count {
                    self.fallback_or_refuse(cfg, pair)
                } else {
                    match outlier_filter(w, cfg.max_deviation_bps) {
                        None => Err(ContractError::ArithmeticOverflow),
                        Some((kept, avg)) => if kept.len() == 0 {
                            self.fallback_or_refuse(cfg, pair)
                        } else {
                            match twap_of(kept, avg) {
                                None => Err(ContractError::ArithmeticOverflow),
                                Some(t) => Ok(t),
                            }
                        },
                    }
                }
            },
        }
    }

    pub fn new() -> (r: Self)
        ensures
            r.wf(),
            r.config is None,
            r.observations@ == Map::<PairId, Vec<PriceObservation>>::empty(),
            r.last_observation@ == Map::<PairId, PriceObservation>::empty(),
            r.liquidity@ == Map::<PairId, i128>::empty(),
            r.fallback@ == Map::<PairId, PriceObservation>::empty(),
    {
        TwapOracle {
            config: None,
            observations: HashMap::new(),
            last_observation: HashMap::new(),
            liquidity: HashMap::new(),
            fallback: HashMap::new(),
        }
    }

    /// Store the oracle configuration (replacing any earlier one).
    pub fn initialize_twap_config(
        &mut self,
        primary_pool: PairId,
        secondary_oracle: Option<PairId>,
        min_observation_count: u32,
        max_deviation_bps: u32,
        observation_window_secs: u64,
        min_liquidity_threshold: i128,
    )
        requires
            old(self).wf(),
        ensures
            final(self).wf(),
            final(self).config == Some(TwapConfig {
                primary_pool,
                secondary_oracle,
                min_observation_count,
                max_deviation_bps,
                observation_window_secs,
                min_liquidity_threshold,
            }),
            final(self).observations@ == old(self).observations@,
            final(self).last_observation@ == old(self).last_observation@,
            final(self).liquidity@ == old(self).liquidity@,
            final(self).fallback@ == old(self).fallback@,
    {
        self.config = Some(TwapConfig {
            primary_pool,
            secondary_oracle,
            min_observation_count,
            max_deviation_bps,
            observation_window_secs,
            min_liquidity_threshold,
        });
    }

    /// The stored configuration.
    pub fn get_twap_config(&self) -> (r: TwapConfig)
        requires
            self.config is Some,
        ensures
            r == self.config->0,
    {
        match self.config {
            Some(c) => c,
            None => TwapConfig {
                primary_pool: 0,
                secondary_oracle: None,
                min_observation_count: 0,
                max_deviation_bps: 0,
                observation_window_secs: 0,
                min_liquidity_threshold: 0,
            },
        }
    }

    /// Append an observation for `pair` and remember it as the latest.
    pub fn record_price_observation(
        &mut self,
        pair: PairId,
        cumulative_price: i128,
        raw_price: i128,
        timestamp: u64,
        ledger_sequence: u32,
    ) -> (r: Result<(), ContractError>)
        requires
            old(self).wf(),
        ensures
            final(self).wf(),
            r is Err <==> old(self).observations_of(pair).len() + 1 >= u32::MAX,
            r is Err ==> r == Err::<(), ContractError>(ContractError::ArithmeticOverflow) && *final(self) == *old(self),
            r is Ok ==> {
                let o = PriceObservation { timestamp, cumulative_price, price: raw_price, ledger_sequence };
                &&& final(self).observations@ == old(self).observations@.insert(pair, final(self).observations@[pair])
                &&& final(self).observations_of(pair) == old(self).observations_of(pair).push(o)
                &&& final(self).last_observation@ == old(self).last_observation@.insert(pair, o)
                &&& final(self).config == old(self).config
                &&& final(self).liquidity@ == old(self).liquidity@
                &&& final(self).fallback@ == old(self).fallback@
            },
    {
        let current_len: usize = match self.observations.get(&pair) {
            Some(v) => v.len(),
            None => 0,
        };
        if current_len >= (u32::MAX - 1) as usize {
            return Err(ContractError::ArithmeticOverflow);
        }
        let observation = PriceObservation { timestamp, cumulative_price, price: raw_price, ledger_sequence };
        let mut list = match self.observations.remove(&pair) {
            Some(v) => v,
            None => Vec::new(),
        };
        list.push(observation);
        self.observations.insert(pair, list);
        self.last_observation.insert(pair, observation);
        Ok(())
    }

    /// Record the current liquidity of `pair`'s pool.
    pub fn update_pool_liquidity(&mut self, pair: PairId, liquidity: i128)
        requires
            old(self).wf(),
        ensures
            final(self).wf(),
            final(self).liquidity@ == old(self).liquidity@.insert(pair, liquidity),
            final(self).config == old(self).config,
            final(self).observations@ == old(self).observations@,
            final(self).last_observation@ == old(self).last_observation@,
            final(self).fallback@ == old(self).fallback@,
    {
        self.liquidity.insert(pair, liquidity);
    }

    /// Set the fallback price of `pair`, observed at `timestamp` in ledger
    /// `ledger_sequence`.
    pub fn set_fallback_price(&mut self, pair: PairId, price: i128, timestamp: u64, ledger_sequence: u32)
        requires
            old(self).wf(),
        ensures
            final(self).wf(),
            final(self).fallback@ == old(self).fallback@.insert(pair,
                PriceObservation { timestamp, cumulative_price: price, price, ledger_sequence }),
            final(self).config == old(self).config,
            final(self).observations@ == old(self).observations@,
            final(self).last_observation@ == old(self).last_observation@,
            final(self).liquidity@ == old(self).liquidity@,
    {
        self.fallback.insert(pair, PriceObservation { timestamp, cumulative_price: price, price, ledger_sequence });
    }

    /// The fallback price of `pair` as a TWAP result.
    pub fn calculate_twap_fallback(&self, pair: PairId) -> (r: Result<TwapResult, ContractError>)
        ensures
            r == self.fallback_outcome(pair),
    {
        match self.fallback.get(&pair) {
            Some(f) => Ok(TwapResult {
                price: f.price,
                oldest_timestamp: f.timestamp,
                newest_timestamp: f.timestamp,
                observation_count: 1,
                used_fallback: true,
                avg_deviation_bps: 0,
            }),
            None => Err(ContractError::FallbackPriceMissing),
        }
    }

    fn fallback_or_refuse_exec(&self, cfg: TwapConfig, pair: PairId) -> (r: Result<TwapResult, ContractError>)
        ensures
            r == self.fallback_or_refuse(cfg, pair),
    {
        if cfg.secondary_oracle.is_some() {
            self.calculate_twap_fallback(pair)
        } else {
            Err(ContractError::InsufficientObservations)
        }
    }

    /// Time-weighted average price of `pair` at `now` over the configured
    /// window, after dropping outliers; falls back to the fallback price
    /// when too few observations remain and a secondary oracle is set.
    pub fn calculate_twap(&self, pair: PairId, now: u64) -> (r: Result<TwapResult, ContractError>)
        requires
            self.wf(),
        ensures
            r == self.twap_outcome(pair, now),
    {
        let cfg = match self.config {
            Some(c) => c,
            None => return Err(ContractError::TwapNotConfigured),
        };
        let empty: Vec<PriceObservation> = Vec::new();
        let all: &Vec<PriceObservation> = match self.observations.get(&pair) {
            Some(v) => v,
            None => &empty,
        };
        assert(all@ == self.observations_of(pair));
        if all.len() < cfg.min_observation_count as usize {
            return self.fallback_or_refuse_exec(cfg, pair);
        }
        let start: u64 = now.saturating_sub(cfg.observation_window_secs);
        let mut window: Vec<PriceObservation> = Vec::new();
        let mut i: usize = 0;
        while i < all.len()
            invariant
                0 <= i <= all@.len(),
                window@ == in_window(all@.take(i as int), start, now),
                window@.len() <= i,
            decreases all@.len() - i,
        {
            proof {
                assert(all@.take(i + 1).drop_last() == all@.take(i as int));
            }
            let o = all[i];
            if o.timestamp >= start && o.timestamp <= now {
                window.push(o);
            }
            i = i + 1;
        }
        proof {
            assert(all@.take(all@.len() as int) == all@);
        }
        if window.len() < cfg.min_observation_count as usize {
            return self.fallback_or_refuse_exec(cfg, pair);
        }
        let (kept, avg) = match filter_outliers(&window, cfg.max_deviation_bps) {
            Some(v) => v,
            None => return Err(ContractError::ArithmeticOverflow),
        };
        if kept.len() == 0 {
            return self.fallback_or_refuse_exec(cfg, pair);
        }
        let first = kept[0];
        let last = kept[kept.len() - 1];
        let dt: u64 = if last.timestamp > first.timestamp { last.timestamp - first.timestamp } else { 1 };
        let delta = match last.cumulative_price.checked_sub(first.cumulative_price) {
            Some(d) => d,
            None => return Err(ContractError::ArithmeticOverflow),
        };
        let price = delta / (dt as i128);
        Ok(TwapResult {
            price,
            oldest_timestamp: first.timestamp,
            newest_timestamp: last.timestamp,
            observation_count: kept.len() as u32,
            used_fallback: false,
            avg_deviation_bps: avg,
        })
    }

    /// The latest observation of `pair`, if any.
    pub fn get_last_twap(&self, pair: PairId) -> (r: Option<PriceObservation>)
        ensures
            r == (if self.last_observation@.contains_key(pair) { Some(self.last_observation@[pair]) } else { None::<PriceObservation> }),
    {
        match self.last_observation.get(&pair) {
            Some(o) => Some(*o),
            None => None,
        }
    }

    /// Drop `pair`'s observations taken before `now - retention_secs`
    /// (saturating); returns how many were dropped.
    pub fn prune_old_observations(&mut self, pair: PairId, retention_secs: u64, now: u64) -> (r: Result<u32, ContractError>)
        requires
            old(self).wf(),
        ensures
            final(self).wf(),
            old(self).config is None ==> r == Err::<u32, ContractError>(ContractError::TwapNotConfigured),
            r is Err ==> *final(self) == *old(self),
            old(self).config is Some ==> r is Ok,
            r matches Ok(n) ==> {
                let cutoff: u64 = if now >= retention_secs { (now - retention_secs) as u64 } else { 0 };
                let kept = taken_since(old(self).observations_of(pair), cutoff);
                &&& n == old(self).observations_of(pair).len() - kept.len()
                &&& final(self).observations_of(pair) == kept
                &&& forall|p: PairId| p != pair ==> final(self).observations_of(p) == old(self).observations_of(p)
                &&& final(self).config == old(self).config
                &&& final(self).last_observation@ == old(self).last_observation@
                &&& final(self).liquidity@ == old(self).liquidity@
                &&& final(self).fallback@ == old(self).fallback@
            },
    {
        if self.config.is_none() {
            return Err(ContractError::TwapNotConfigured);
        }
        let cutoff: u64 = now.saturating_sub(retention_secs);
        let mut kept: Vec<PriceObservation> = Vec::new();
        let mut pruned: u32 = 0;
        let ghost all = self.observations_of(pair);
        {
            let empty: Vec<PriceObservation> = Vec::new();
            let list: &Vec<PriceObservation> = match self.observations.get(&pair) {
                Some(v) => v,
                None => &empty,
            };
            assert(list@ == all);
            let mut i: usize = 0;
            while i < list.len()
                invariant
                    0 <= i <= list@.len(),
                    list@.len() < u32::MAX,
                    kept@ == taken_since(list@.take(i as int), cutoff),
                    kept@.len() + pruned == i,
                decreases list@.len() - i,
            {
                proof {
                    assert(list@.take(i + 1).drop_last() == list@.take(i as int));
                }
                let o = list[i];
                if o.timestamp >= cutoff {
                    kept.push(o);
                } else {
                    pruned = pruned + 1;
                }
                i = i + 1;
            }
            proof {
                assert(list@.take(list@.len() as int) == list@);
            }
        }
        if pruned > 0 {
            self.observations.insert(pair, kept);
        } else {
            proof {
                assert(kept@.len() == all.len());
                lemma_taken_since_len(all, cutoff);
                lemma_taken_since_all(all, cutoff);
            }
        }
        Ok(pruned)
    }

    /// Whether `pair`'s recorded liquidity reaches the configured threshold.
    pub fn is_pool_liquid_enough(&self, pair: PairId) -> (r: bool)
        requires
            self.config is Some,
        ensures
            r == ((if self.liquidity@.contains_key(pair) { self.liquidity@[pair] } else { 0 }) >= self.config->0.min_liquidity_threshold),
    {
        let cfg = self.get_twap_config();
        self.get_pool_liquidity(pair) >= cfg.min_liquidity_threshold
    }

    /// Recorded liquidity of `pair`'s pool, zero if none.
    pub fn get_pool_liquidity(&self, pair: PairId) -> (r: i128)
        ensures
            r == (if self.liquidity@.contains_key(pair) { self.liquidity@[pair] } else { 0 }),
    {
        match self.liquidity.get(&pair) {
            Some(l) => *l,
            None => 0,
        }
    }
}

proof fn lemma_taken_since_len(obs: Seq<PriceObservation>, cutoff: u64)
    ensures
        taken_since(obs, cutoff).len() <= obs.len(),
    decreases obs.len(),
{
    if obs.len() > 0 {
        lemma_taken_since_len(obs.drop_last(), cutoff);
    }
}

/// Keeping as many as there were means keeping them all.
proof fn lemma_taken_since_all(obs: Seq<PriceObservation>, cutoff: u64)
    requires
        taken_since(obs, cutoff).len() == obs.len(),
    ensures
        taken_since(obs, cutoff) == obs,
    decreases obs.len(),
{
    if obs.len() > 0 {
        lemma_taken_since_len(obs.drop_last(), cutoff);
        lemma_taken_since_all(obs.drop_last(), cutoff);
        assert(obs.drop_last().push(obs.last()) == obs);
    }
}

} // verus!
