//! The spot-exchange binding: credentials, lot-size rounding of order
//! quantities, and the average fill price of a partially filled order.

use vstd::prelude::*;
use vstd::arithmetic::div_mod::{lemma_div_is_ordered, lemma_div_multiples_vanish,
    lemma_fundamental_div_mod, lemma_mod_division_less_than_divisor, lemma_mod_multiples_basic};

verus! {

/// Name of the venue this binding talks to.
pub const PLATFORM: &'static str = "binance";

/// Decimal places a quantity carries: quantities are integers in units
/// of `10^-QTY_DECIMALS` of the base asset.
pub const QTY_DECIMALS: u32 = 8;

/// A venue connection: the credentials the host program signs requests
/// with.
#[derive(Clone, Debug)]
pub struct Connector {
    pub api_key: String,
    pub api_secret: String,
}

/// `10^n`.
pub open spec fn pow10(n: nat) -> nat
    decreases n,
{
    if n == 0 {
        1
    } else {
        10 * pow10((n - 1) as nat)
    }
}

/// A power of ten up to `10^8` stays within small bounds.
proof fn lemma_pow10_le(n: nat)
    requires
        n <= 8,
    ensures
        1 <= pow10(n) <= 100_000_000,
{
    reveal_with_fuel(pow10, 9);
}

/// A quantity rounded down to `precision` decimal places: the largest
/// multiple of the instrument's step that does not exceed it.
pub open spec fn adjusted_quantity(qty: int, precision: u32) -> int {
    qty - qty % (pow10((QTY_DECIMALS - precision) as nat) as int)
}

/// Rounding down to the instrument's step is idempotent: a quantity
/// already on the step grid stays exactly where it is, so adjusting
/// twice gives the same quantity as adjusting once.
pub proof fn lemma_adjust_quantity_idempotent(qty: int, precision: u32)
    requires
        precision <= QTY_DECIMALS,
        qty >= 0,
    ensures
        adjusted_quantity(adjusted_quantity(qty, precision), precision) == adjusted_quantity(
            qty,
            precision,
        ),
{
    let m = pow10((QTY_DECIMALS - precision) as nat) as int;
    lemma_pow10_le((QTY_DECIMALS - precision) as nat);
    let a = qty - qty % m;
    lemma_fundamental_div_mod(qty, m);
    assert(a == m * (qty / m));
    lemma_mod_multiples_basic(qty / m, m);
}

/// Sum of the reported per-fill prices of one order.
pub open spec fn price_sum(s: Seq<u64>) -> int
    decreases s.len(),
{
    if s.len() == 0 {
        0
    } else {
        price_sum(s.drop_last()) + s.last()
    }
}

/// The price sum is bounded by the fill count times the largest
/// representable price.
proof fn lemma_price_sum_bounds(s: Seq<u64>)
    ensures
        0 <= price_sum(s) <= s.len() * u64::MAX,
    decreases s.len(),
{
    if s.len() > 0 {
        lemma_price_sum_bounds(s.drop_last());
    }
}

/// The average price an order filled at, over its per-fill prices: the
/// truncated mean, or `0` for an order the venue reported no fills for.
pub fn average_fill_price(fill_prices: &Vec<u64>) -> (r: u64)
    ensures
        fill_prices@.len() == 0 ==> r == 0,
        fill_prices@.len() > 0 ==> r == price_sum(fill_prices@) / fill_prices@.len() as int,
{
    let n = fill_prices.len();
    if n == 0 {
        return 0;
    }
    let mut sum: u128 = 0;
    let mut i: usize = 0;
    while i < n
        invariant
            i <= n,
            n == fill_prices@.len(),
            sum == price_sum(fill_prices@.take(i as int)),
        decreases n - i,
    {
        proof {
            assert(fill_prices@.take(i + 1).drop_last() =~= fill_prices@.take(i as int));
            assert(fill_prices@.take(i + 1).last() == fill_prices@[i as int]);
            lemma_price_sum_bounds(fill_prices@.take(i + 1));
            assert((i + 1) * u64::MAX <= u64::MAX as int * u64::MAX) by (nonlinear_arith)
                requires
                    0 <= i + 1 <= u64::MAX,
            ;
        }
        sum = sum + fill_prices[i] as u128;
        i = i + 1;
    }
    proof {
        assert(fill_prices@.take(n as int) =~= fill_prices@);
        lemma_price_sum_bounds(fill_prices@);
        assert(n as int * u64::MAX <= u64::MAX as int * u64::MAX) by (nonlinear_arith)
            requires
                0 <= n <= u64::MAX,
        ;
        lemma_div_is_ordered(sum as int, n as int * u64::MAX, n as int);
        lemma_div_multiples_vanish(u64::MAX as int, n as int);
    }
    (sum / n as u128) as u64
}

/// One row of the venue's account trade history, as the profit
/// computation reads it: fill price and quantity, the commission paid
/// (in the commission asset), whether the account bought, and the
/// venue's time stamp.
#[derive(Clone, Debug)]
pub struct TradeHistory {
    pub price: u64,
    pub qty: u64,
    pub commission: u64,
    pub is_buyer: bool,
    pub time: u64,
}

/// What one fill turns over at most: its price-times-quantity plus its
/// commission converted at `comm_price`.
pub open spec fn fill_turnover(t: TradeHistory, comm_price: u64) -> int {
    t.qty * t.price + t.commission * comm_price
}

/// Total turnover of a fill history; bounds everything the profit fold
/// accumulates.
pub open spec fn fill_gross(s: Seq<TradeHistory>, comm_price: u64) -> int
    decreases s.len(),
{
    if s.len() == 0 {
        0
    } else {
        fill_gross(s.drop_last(), comm_price) + fill_turnover(s.last(), comm_price)
    }
}

/// The profit fold over a fill history: `.0` is the cost of the buys
/// still waiting for their sell (commission included), `.1` the
/// realized profit so far.  Fills before `start` are skipped, as is a
/// sell with no tracked buys; a sell settles the tracked cost.
pub open spec fn pnl_fold(s: Seq<TradeHistory>, comm_price: u64, start: u64) -> (int, int)
    decreases s.len(),
{
    if s.len() == 0 {
        (0, 0)
    } else {
        let prev = pnl_fold(s.drop_last(), comm_price, start);
        let t = s.last();
        if start > t.time || (!t.is_buyer && prev.0 == 0) {
            prev
        } else if t.is_buyer {
            (prev.0 + fill_turnover(t, comm_price), prev.1)
        } else {
            (0, prev.1 + t.qty * t.price - t.commission * comm_price - prev.0)
        }
    }
}

/// The fold stays within the total turnover: the tracked cost is
/// non-negative, and cost plus profit magnitude never exceeds the
/// gross.
proof fn lemma_pnl_fold_bounded(s: Seq<TradeHistory>, comm_price: u64, start: u64)
    ensures
        0 <= fill_gross(s, comm_price),
        0 <= pnl_fold(s, comm_price, start).0,
        pnl_fold(s, comm_price, start).0 + pnl_fold(s, comm_price, start).1 <= fill_gross(
            s,
            comm_price,
        ),
        pnl_fold(s, comm_price, start).0 - pnl_fold(s, comm_price, start).1 <= fill_gross(
            s,
            comm_price,
        ),
    decreases s.len(),
{
    assert forall|t: TradeHistory| fill_turnover(t, comm_price) >= 0 && t.qty * t.price >= 0
        && t.commission * comm_price >= 0 by {
        assert(t.qty * t.price >= 0) by (nonlinear_arith);
        assert(t.commission * comm_price >= 0) by (nonlinear_arith);
    }
    if s.len() > 0 {
        lemma_pnl_fold_bounded(s.drop_last(), comm_price, start);
    }
}

/// The gross turnover grows along a prefix.
proof fn lemma_fill_gross_monotone(s: Seq<TradeHistory>, comm_price: u64, i: int)
    requires
        0 <= i <= s.len(),
    ensures
        0 <= fill_gross(s.take(i), comm_price) <= fill_gross(s, comm_price),
    decreases s.len() - i,
{
    assert forall|t: TradeHistory| fill_turnover(t, comm_price) >= 0 by {
        assert(t.qty * t.price >= 0) by (nonlinear_arith);
        assert(t.commission * comm_price >= 0) by (nonlinear_arith);
    }
    lemma_pnl_fold_bounded(s.take(i), comm_price, 0);
    if i == s.len() {
        assert(s.take(i) =~= s);
    } else {
        lemma_fill_gross_monotone(s, comm_price, i + 1);
        assert(s.take(i + 1).drop_last() =~= s.take(i));
        assert(s.take(i + 1).last() == s[i]);
    }
}

impl Connector {
    /// A connection from the operator's credential pair.
    pub fn from_credential(api_key: String, api_secret: String) -> (c: Connector)
        ensures
            c.api_key == api_key,
            c.api_secret == api_secret,
    {
        Connector { api_key, api_secret }
    }

    /// Rounds an order quantity down to the instrument's lot-size step
    /// of `precision` decimal places, never up, so the adjusted
    /// quantity never exceeds the available balance.  The host program
    /// derives `precision` from the venue's instrument metadata and
    /// treats a missing lot-size filter as fatal for the order.
    pub fn adjust_quantity(&self, qty: u64, precision: u32) -> (r: u64)
        requires
            precision <= QTY_DECIMALS,
        ensures
            r == adjusted_quantity(qty as int, precision),
            r <= qty,
    {
        let k = QTY_DECIMALS - precision;
        let mut m: u64 = 1;
        let mut i: u32 = 0;
        while i < k
            invariant
                i <= k,
                k <= 8,
                m == pow10(i as nat),
            decreases k - i,
        {
            proof {
                lemma_pow10_le(i as nat);
            }
            m = m * 10;
            i = i + 1;
        }
        proof {
            lemma_pow10_le(k as nat);
            lemma_mod_division_less_than_divisor(qty as int, m as int);
            lemma_fundamental_div_mod(qty as int, m as int);
            assert((qty as int / m as int) * (m as int) >= 0) by (nonlinear_arith)
                requires
                    qty as int >= 0,
                    m as int >= 1,
            ;
        }
        qty - qty % m
    }

    /// Realized profit over the account's fill history since `start`:
    /// each completed buy-then-sell round counts its sell proceeds
    /// minus its sell commission minus the tracked buy cost, exactly
    /// as [`pnl_fold`] states.  The commission asset is converted at
    /// `comm_price`.
    pub fn calculate_pnl(
        &self,
        trades: &Vec<TradeHistory>,
        comm_price: u64,
        start: u64,
    ) -> (r: i128)
        requires
            fill_gross(trades@, comm_price) <= i128::MAX,
        ensures
            r == pnl_fold(trades@, comm_price, start).1,
    {
        let n = trades.len();
        let mut total_buy: i128 = 0;
        let mut pnl: i128 = 0;
        let mut i: usize = 0;
        while i < n
            invariant
                i <= n,
                n == trades@.len(),
                fill_gross(trades@, comm_price) <= i128::MAX,
                total_buy == pnl_fold(trades@.take(i as int), comm_price, start).0,
                pnl == pnl_fold(trades@.take(i as int), comm_price, start).1,
            decreases n - i,
        {
            proof {
                lemma_fill_gross_monotone(trades@, comm_price, i + 1);
                lemma_pnl_fold_bounded(trades@.take(i + 1), comm_price, start);
                lemma_pnl_fold_bounded(trades@.take(i as int), comm_price, start);
                assert(trades@.take(i + 1).drop_last() =~= trades@.take(i as int));
                assert(trades@.take(i + 1).last() == trades@[i as int]);
            }
            let t = &trades[i];
            if start > t.time || (!t.is_buyer && total_buy == 0) {
            } else {
                let amount: u128 = t.qty as u128 * t.price as u128;
                let comm_cost: u128 = t.commission as u128 * comm_price as u128;
                proof {
                    assert(t.qty as u128 * t.price as u128 == trades@[i as int].qty * trades@[
                        i as int].price) by (nonlinear_arith)
                        requires
                            t.qty == trades@[i as int].qty,
                            t.price == trades@[i as int].price,
                    ;
                    assert(t.commission as u128 * comm_price as u128 == trades@[
                        i as int].commission * comm_price) by (nonlinear_arith)
                        requires
                            t.commission == trades@[i as int].commission,
                    ;
                }
                if t.is_buyer {
                    total_buy = total_buy + (amount + comm_cost) as i128;
                } else {
                    pnl = pnl - total_buy;
                    pnl = pnl + amount as i128;
                    pnl = pnl - comm_cost as i128;
                    total_buy = 0;
                }
            }
            i = i + 1;
        }
        proof {
            assert(trades@.take(n as int) =~= trades@);
        }
        pnl
    }
}

} // verus!
