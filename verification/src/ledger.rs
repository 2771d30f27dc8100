//! Computations over the append-only trade ledger: a cycle's
//! quantity-weighted average entry price, and its realized profit.  The
//! host program reads the rows; the arithmetic happens here.

use vstd::prelude::*;
use crate::model::TradeStatus;
use crate::model::result::Trade;
use vstd::arithmetic::div_mod::{lemma_div_is_ordered, lemma_div_multiples_vanish};

verus! {

/// Price-times-quantity of one ledger row.
pub open spec fn trade_amount(t: Trade) -> int {
    t.price * t.qty
}

/// Whether a row is a buy fill of the given cycle.
pub open spec fn is_open_in_cycle(t: Trade, cycle: u64) -> bool {
    t.status == TradeStatus::Open && t.cycle == cycle
}

/// Sum of price-times-quantity over the cycle's buy fills.
pub open spec fn open_amount_sum(s: Seq<Trade>, cycle: u64) -> int
    decreases s.len(),
{
    if s.len() == 0 {
        0
    } else {
        open_amount_sum(s.drop_last(), cycle) + if is_open_in_cycle(s.last(), cycle) {
            trade_amount(s.last())
        } else {
            0
        }
    }
}

/// Sum of quantity over the cycle's buy fills.
pub open spec fn open_qty_sum(s: Seq<Trade>, cycle: u64) -> int
    decreases s.len(),
{
    if s.len() == 0 {
        0
    } else {
        open_qty_sum(s.drop_last(), cycle) + if is_open_in_cycle(s.last(), cycle) {
            s.last().qty as int
        } else {
            0
        }
    }
}

/// Realized profit of the cycle: sell fills count positive, buy fills
/// negative, other rows not at all.
pub open spec fn cycle_pnl_sum(s: Seq<Trade>, cycle: u64) -> int
    decreases s.len(),
{
    if s.len() == 0 {
        0
    } else {
        cycle_pnl_sum(s.drop_last(), cycle) + if s.last().cycle == cycle && s.last().status
            == TradeStatus::Close {
            trade_amount(s.last())
        } else if s.last().cycle == cycle && s.last().status == TradeStatus::Open {
            -trade_amount(s.last())
        } else {
            0
        }
    }
}

/// Gross turnover of the cycle: price-times-quantity summed over both
/// its buy and sell fills; bounds the profit's magnitude.
pub open spec fn cycle_gross_sum(s: Seq<Trade>, cycle: u64) -> int
    decreases s.len(),
{
    if s.len() == 0 {
        0
    } else {
        cycle_gross_sum(s.drop_last(), cycle) + if s.last().cycle == cycle && (s.last().status
            == TradeStatus::Close || s.last().status == TradeStatus::Open) {
            trade_amount(s.last())
        } else {
            0
        }
    }
}

/// The open sums are sums of non-negative terms and are therefore
/// non-negative.
proof fn lemma_open_sums_nonneg(s: Seq<Trade>, cycle: u64)
    ensures
        0 <= open_amount_sum(s, cycle),
        0 <= open_qty_sum(s, cycle),
    decreases s.len(),
{
    assert forall|t: Trade| trade_amount(t) >= 0 by {
        assert(t.price * t.qty >= 0) by (nonlinear_arith);
    }
    if s.len() > 0 {
        lemma_open_sums_nonneg(s.drop_last(), cycle);
    }
}

/// The open sums grow along a prefix.
proof fn lemma_open_sums_monotone(s: Seq<Trade>, cycle: u64, i: int)
    requires
        0 <= i <= s.len(),
    ensures
        0 <= open_amount_sum(s.take(i), cycle) <= open_amount_sum(s, cycle),
        0 <= open_qty_sum(s.take(i), cycle) <= open_qty_sum(s, cycle),
    decreases s.len() - i,
{
    assert forall|t: Trade| trade_amount(t) >= 0 by {
        assert(t.price * t.qty >= 0) by (nonlinear_arith);
    }
    lemma_open_sums_nonneg(s.take(i), cycle);
    if i == s.len() {
        assert(s.take(i) =~= s);
    } else {
        lemma_open_sums_monotone(s, cycle, i + 1);
        assert(s.take(i + 1).drop_last() =~= s.take(i));
        assert(s.take(i + 1).last() == s[i]);
    }
}

/// The amount sum is bounded by the largest representable price times
/// the quantity sum.
proof fn lemma_open_amount_le_max(s: Seq<Trade>, cycle: u64)
    ensures
        open_amount_sum(s, cycle) <= u64::MAX * open_qty_sum(s, cycle),
    decreases s.len(),
{
    if s.len() > 0 {
        lemma_open_amount_le_max(s.drop_last(), cycle);
        let t = s.last();
        assert(t.price * t.qty <= u64::MAX * t.qty) by (nonlinear_arith)
            requires
                t.price <= u64::MAX,
                t.qty >= 0,
        ;
    }
}

/// The profit's magnitude never exceeds the gross turnover, which is
/// itself a sum of non-negative terms.
proof fn lemma_pnl_within_gross(s: Seq<Trade>, cycle: u64)
    ensures
        0 <= cycle_gross_sum(s, cycle),
        -cycle_gross_sum(s, cycle) <= cycle_pnl_sum(s, cycle) <= cycle_gross_sum(s, cycle),
    decreases s.len(),
{
    assert forall|t: Trade| trade_amount(t) >= 0 by {
        assert(t.price * t.qty >= 0) by (nonlinear_arith);
    }
    if s.len() > 0 {
        lemma_pnl_within_gross(s.drop_last(), cycle);
    }
}

/// The gross turnover grows along a prefix.
proof fn lemma_gross_monotone(s: Seq<Trade>, cycle: u64, i: int)
    requires
        0 <= i <= s.len(),
    ensures
        0 <= cycle_gross_sum(s.take(i), cycle) <= cycle_gross_sum(s, cycle),
    decreases s.len() - i,
{
    assert forall|t: Trade| trade_amount(t) >= 0 by {
        assert(t.price * t.qty >= 0) by (nonlinear_arith);
    }
    lemma_pnl_within_gross(s.take(i), cycle);
    if i == s.len() {
        assert(s.take(i) =~= s);
    } else {
        lemma_gross_monotone(s, cycle, i + 1);
        assert(s.take(i + 1).drop_last() =~= s.take(i));
        assert(s.take(i + 1).last() == s[i]);
    }
}

/// The quantity-weighted average price of the cycle's buy fills, or
/// `None` while the cycle has no buy fill to average over.  The
/// division truncates.
pub fn get_avg_price(trades: &Vec<Trade>, cycle: u64) -> (r: Option<u64>)
    requires
        open_amount_sum(trades@, cycle) <= u128::MAX,
        open_qty_sum(trades@, cycle) <= u128::MAX,
    ensures
        r is None <==> open_qty_sum(trades@, cycle) == 0,
        r matches Some(avg) ==> avg == open_amount_sum(trades@, cycle) / open_qty_sum(
            trades@,
            cycle,
        ),
{
    let n = trades.len();
    let mut total_amount: u128 = 0;
    let mut total_qty: u128 = 0;
    let mut i: usize = 0;
    while i < n
        invariant
            i <= n,
            n == trades@.len(),
            open_amount_sum(trades@, cycle) <= u128::MAX,
            open_qty_sum(trades@, cycle) <= u128::MAX,
            total_amount == open_amount_sum(trades@.take(i as int), cycle),
            total_qty == open_qty_sum(trades@.take(i as int), cycle),
        decreases n - i,
    {
        proof {
            lemma_open_sums_monotone(trades@, cycle, i + 1);
            assert(trades@.take(i + 1).drop_last() =~= trades@.take(i as int));
            assert(trades@.take(i + 1).last() == trades@[i as int]);
        }
        let t = &trades[i];
        if t.cycle == cycle && t.status == TradeStatus::Open {
            let amount: u128 = t.price as u128 * t.qty as u128;
            proof {
                assert(t.price as u128 * t.qty as u128 == trade_amount(trades@[i as int]))
                    by (nonlinear_arith)
                    requires
                        t.price == trades@[i as int].price,
                        t.qty == trades@[i as int].qty,
                ;
            }
            total_amount = total_amount + amount;
            total_qty = total_qty + t.qty as u128;
        }
        i = i + 1;
    }
    proof {
        assert(trades@.take(n as int) =~= trades@);
    }
    if total_qty == 0 {
        None
    } else {
        proof {
            lemma_open_amount_le_max(trades@, cycle);
            lemma_div_is_ordered(
                total_amount as int,
                u64::MAX * total_qty,
                total_qty as int,
            );
            lemma_div_multiples_vanish(u64::MAX as int, total_qty as int);
        }
        Some((total_amount / total_qty) as u64)
    }
}

/// The realized profit of one cycle, exactly as [`cycle_pnl_sum`]
/// states it: its sell proceeds minus what its buys spent.
pub fn cycle_pnl(trades: &Vec<Trade>, cycle: u64) -> (r: i128)
    requires
        cycle_gross_sum(trades@, cycle) <= i128::MAX,
    ensures
        r == cycle_pnl_sum(trades@, cycle),
{
    let n = trades.len();
    let mut pnl: i128 = 0;
    let mut i: usize = 0;
    while i < n
        invariant
            i <= n,
            n == trades@.len(),
            cycle_gross_sum(trades@, cycle) <= i128::MAX,
            pnl == cycle_pnl_sum(trades@.take(i as int), cycle),
        decreases n - i,
    {
        proof {
            lemma_gross_monotone(trades@, cycle, i + 1);
            lemma_pnl_within_gross(trades@.take(i + 1), cycle);
            lemma_pnl_within_gross(trades@.take(i as int), cycle);
            assert(trades@.take(i + 1).drop_last() =~= trades@.take(i as int));
            assert(trades@.take(i + 1).last() == trades@[i as int]);
        }
        let t = &trades[i];
        if t.cycle == cycle && (t.status == TradeStatus::Close || t.status == TradeStatus::Open) {
            let amount: u128 = t.price as u128 * t.qty as u128;
            proof {
                assert(t.price as u128 * t.qty as u128 == trade_amount(trades@[i as int]))
                    by (nonlinear_arith)
                    requires
                        t.price == trades@[i as int].price,
                        t.qty == trades@[i as int].qty,
                ;
            }
            if t.status == TradeStatus::Close {
                pnl = pnl + amount as i128;
            } else {
                pnl = pnl - amount as i128;
            }
        }
        i = i + 1;
    }
    proof {
        assert(trades@.take(n as int) =~= trades@);
    }
    pnl
}

} // verus!
