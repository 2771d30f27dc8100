//! The ladder ("hell diver") strategy: buy a first position on a
//! confirmed dip, average down rung by rung while momentum recovers, and
//! sell once price has cleared the profit threshold and pulled back from
//! its top.

use vstd::prelude::*;
use crate::model::args::{ladder_amounts_fit, rung_amount, CloseCriteria, OpenCriteria};
use crate::model::{BotCommand, MfiDirection, Session, TradeStatus, SCALE};
use crate::strategy::{calculate_percent_change, percent_change};

verus! {

/// The strategy's immutable configuration: the first buy-in amount, the
/// entry and take-profit criteria, and the ladder of averaging-down
/// rungs in the order they are taken.
#[derive(Clone, Debug)]
pub struct HellDiverStrategy {
    pub first_buy_in: u64,
    pub entry: OpenCriteria,
    pub take_profit: CloseCriteria,
    pub margin_configuration: Vec<OpenCriteria>,
}

impl HellDiverStrategy {
    /// The strategy can run: every rung's order amount fits the amount
    /// type.  Established once by configuration validation.
    pub open spec fn wf(&self) -> bool {
        ladder_amounts_fit(self.first_buy_in, self.margin_configuration@)
    }

    /// Entry price gate: price has fallen more than the entry threshold
    /// under the trailing top, yet bounced more than the callback over
    /// the trailing bottom.
    pub open spec fn entry_signal(&self, top_percent_change: int, bottom_percent_change: int) -> bool {
        top_percent_change < self.entry.price_change_below
            && bottom_percent_change > self.entry.price_callback
    }

    /// Take-profit gate: price has gained more than the profit threshold
    /// over the average entry and sits more than the callback under the
    /// trailing top.
    pub open spec fn sell_signal(&self, top_percent_change: int, avg_percent_change: int) -> bool {
        avg_percent_change > self.take_profit.price_change_above
            && top_percent_change < self.take_profit.price_callback
    }

    /// Averaging-down price gate of the rung at `margin_position`.
    pub open spec fn avg_buy_signal(
        &self,
        avg_percent_change: int,
        bottom_percent_change: int,
        margin_position: int,
    ) -> bool {
        avg_percent_change < self.margin_configuration@[margin_position].price_change_below
            && bottom_percent_change > self.margin_configuration@[margin_position].price_callback
    }

    /// Entry momentum gate: the oscillator is depressed, has recovered
    /// more than the callback off its floor, and is rising.
    pub open spec fn entry_mfi_approved(
        &self,
        mfi: int,
        mfi_bottom_change: int,
        mfi_dir: MfiDirection,
    ) -> bool {
        mfi < self.entry.mfi_below && mfi_bottom_change > self.entry.mfi_callback && mfi_dir
            == MfiDirection::Up
    }

    /// Momentum gate of the rung at `margin_position`.
    pub open spec fn mfi_approved(
        &self,
        mfi: int,
        mfi_bottom_change: int,
        mfi_dir: MfiDirection,
        margin_position: int,
    ) -> bool {
        mfi < self.margin_configuration@[margin_position].mfi_below && mfi_bottom_change
            > self.margin_configuration@[margin_position].mfi_callback && mfi_dir
            == MfiDirection::Up
    }

    /// The quote amount the rung at `margin_position` spends.
    pub open spec fn buy_amount(&self, margin_position: int) -> int {
        rung_amount(self.margin_configuration@[margin_position].amount_ratio, self.first_buy_in)
    }

    /// The command the strategy issues for one price sample, in the
    /// rules' precedence order.  In an open position the sell check runs
    /// first, then the next ladder rung (only while rungs remain); while
    /// waiting, the entry checks; everything else pauses.
    pub open spec fn decide(&self, price: int, session: Session) -> BotCommand {
        let avg_percent_change = percent_change(session.avg_price as int, price);
        let top_percent_change = percent_change(session.top_price as int, price);
        let bottom_percent_change = percent_change(session.bottom_price as int, price);
        let mfi_bottom_change = session.mfi - session.bottom_mfi;
        if session.status == TradeStatus::Open {
            if self.sell_signal(top_percent_change, avg_percent_change) {
                BotCommand::Sell()
            } else if session.margin_position < self.margin_configuration@.len()
                && self.avg_buy_signal(
                avg_percent_change,
                bottom_percent_change,
                session.margin_position as int,
            ) && self.mfi_approved(
                session.mfi as int,
                mfi_bottom_change,
                session.mfi_dir,
                session.margin_position as int,
            ) {
                BotCommand::Buy(self.buy_amount(session.margin_position as int) as u64)
            } else {
                BotCommand::Pause()
            }
        } else if session.status == TradeStatus::Wait {
            if self.entry_signal(top_percent_change, bottom_percent_change)
                && self.entry_mfi_approved(session.mfi as int, mfi_bottom_change, session.mfi_dir) {
                BotCommand::Entry(self.first_buy_in)
            } else {
                BotCommand::Pause()
            }
        } else {
            BotCommand::Pause()
        }
    }

    /// Evaluates the decision rules on one price sample; returns exactly
    /// the command [`Self::decide`] states.
    pub fn run(&self, price: u64, session: Session) -> (cmd: BotCommand)
        requires
            self.wf(),
        ensures
            cmd == self.decide(price as int, session),
    {
        let avg_percent_change = calculate_percent_change(session.avg_price, price);
        let top_percent_change = calculate_percent_change(session.top_price, price);
        let bottom_percent_change = calculate_percent_change(session.bottom_price, price);
        let mfi_bottom_change: i128 = session.mfi as i128 - session.bottom_mfi as i128;

        if session.status == TradeStatus::Open {
            let margin_len: u64 = self.margin_configuration.len() as u64;

            if self.is_sell_signal(top_percent_change, avg_percent_change) {
                return BotCommand::Sell();
            }

            if session.margin_position < margin_len {
                let position = session.margin_position as usize;
                if self.is_avg_buy_signal(avg_percent_change, bottom_percent_change, position)
                    && self.is_mfi_approved(
                    session.mfi,
                    mfi_bottom_change,
                    session.mfi_dir,
                    position,
                ) {
                    let ratio = self.margin_configuration[position].amount_ratio;
                    let amount: u128 = ratio as u128 * self.first_buy_in as u128 / SCALE as u128;
                    proof {
                        assert(ratio as u128 * self.first_buy_in as u128 <= u128::MAX) by (nonlinear_arith)
                            requires
                                ratio <= u64::MAX,
                                self.first_buy_in <= u64::MAX,
                        ;
                        assert(rung_amount(ratio, self.first_buy_in) <= u64::MAX);
                    }
                    return BotCommand::Buy(amount as u64);
                }
            }
        } else if session.status == TradeStatus::Wait {
            if self.is_entry_signal(top_percent_change, bottom_percent_change)
                && self.is_entry_mfi_approved(session.mfi, mfi_bottom_change, session.mfi_dir) {
                return BotCommand::Entry(self.first_buy_in);
            }
        }

        BotCommand::Pause()
    }

    /// Tests the entry price gate.
    pub fn is_entry_signal(&self, top_percent_change: i128, bottom_percent_change: i128) -> (r:
        bool)
        ensures
            r == self.entry_signal(top_percent_change as int, bottom_percent_change as int),
    {
        top_percent_change < self.entry.price_change_below as i128 && bottom_percent_change
            > self.entry.price_callback as i128
    }

    /// Tests the take-profit gate.
    pub fn is_sell_signal(&self, top_percent_change: i128, avg_percent_change: i128) -> (r: bool)
        ensures
            r == self.sell_signal(top_percent_change as int, avg_percent_change as int),
    {
        avg_percent_change > self.take_profit.price_change_above as i128 && top_percent_change
            < self.take_profit.price_callback as i128
    }

    /// Tests the averaging-down price gate of the given rung.
    pub fn is_avg_buy_signal(
        &self,
        avg_percent_change: i128,
        bottom_percent_change: i128,
        margin_position: usize,
    ) -> (r: bool)
        requires
            margin_position < self.margin_configuration@.len(),
        ensures
            r == self.avg_buy_signal(
                avg_percent_change as int,
                bottom_percent_change as int,
                margin_position as int,
            ),
    {
        avg_percent_change < self.margin_configuration[margin_position].price_change_below as i128
            && bottom_percent_change > self.margin_configuration[margin_position].price_callback
            as i128
    }

    /// Tests the entry momentum gate.
    pub fn is_entry_mfi_approved(
        &self,
        mfi: u64,
        mfi_bottom_change: i128,
        mfi_dir: MfiDirection,
    ) -> (r: bool)
        ensures
            r == self.entry_mfi_approved(mfi as int, mfi_bottom_change as int, mfi_dir),
    {
        mfi < self.entry.mfi_below && mfi_bottom_change > self.entry.mfi_callback as i128 && mfi_dir
            == MfiDirection::Up
    }

    /// Tests the momentum gate of the given rung.
    pub fn is_mfi_approved(
        &self,
        mfi: u64,
        mfi_bottom_change: i128,
        mfi_dir: MfiDirection,
        margin_position: usize,
    ) -> (r: bool)
        requires
            margin_position < self.margin_configuration@.len(),
        ensures
            r == self.mfi_approved(
                mfi as int,
                mfi_bottom_change as int,
                mfi_dir,
                margin_position as int,
            ),
    {
        mfi < self.margin_configuration[margin_position].mfi_below && mfi_bottom_change
            > self.margin_configuration[margin_position].mfi_callback as i128 && mfi_dir
            == MfiDirection::Up
    }
}

/// A buy is only issued while a rung is left: the decision is `Buy`
/// only when `margin_position` sits under the ladder's length.
proof fn lemma_buy_needs_rung(strat: &HellDiverStrategy, price: int, session: Session)
    requires
        strat.decide(price, session) matches BotCommand::Buy(_),
    ensures
        session.margin_position < strat.margin_configuration@.len(),
{
}

/// The ladder is climbed rung by rung: starting flat, after `i`
/// consecutive successful buys the position sits at rung `i`, and the
/// position never passes the ladder's length — rungs are taken in
/// order, never skipped and never revisited.  `sessions[i]` is the
/// session the tick at `prices[i]` decided on; each decision was a buy,
/// and each buy advanced `margin_position` by exactly one, as
/// [`crate::bot::Bot::record_buy`] ensures.
pub proof fn lemma_margin_position_counts_buys(
    strat: &HellDiverStrategy,
    prices: Seq<u64>,
    sessions: Seq<Session>,
)
    requires
        sessions.len() == prices.len() + 1,
        sessions[0].margin_position == 0,
        forall|i: int|
            0 <= i < prices.len() ==> (#[trigger] strat.decide(
                prices[i] as int,
                sessions[i],
            )) matches BotCommand::Buy(_),
        forall|i: int|
            0 <= i < prices.len() ==> (#[trigger] sessions[i + 1].margin_position)
                == sessions[i].margin_position + 1,
    ensures
        forall|i: int| 0 <= i < sessions.len() ==> (#[trigger] sessions[i].margin_position) == i,
        forall|i: int|
            0 <= i < sessions.len() ==> (#[trigger] sessions[i].margin_position)
                <= strat.margin_configuration@.len(),
    decreases prices.len(),
{
    if prices.len() > 0 {
        let n = prices.len() as int;
        let prices2 = prices.drop_last();
        let sessions2 = sessions.drop_last();
        assert forall|i: int| 0 <= i < prices2.len() implies (#[trigger] strat.decide(
            prices2[i] as int,
            sessions2[i],
        )) matches BotCommand::Buy(_) by {
            assert(strat.decide(prices[i] as int, sessions[i]) matches BotCommand::Buy(_));
        }
        assert forall|i: int| 0 <= i < prices2.len() implies (#[trigger] sessions2[i
            + 1].margin_position) == sessions2[i].margin_position + 1 by {
            assert(sessions[i + 1].margin_position == sessions[i].margin_position + 1);
        }
        lemma_margin_position_counts_buys(strat, prices2, sessions2);
        assert(sessions2[n - 1].margin_position == n - 1);
        assert(strat.decide(prices[n - 1] as int, sessions[n - 1]) matches BotCommand::Buy(_));
        lemma_buy_needs_rung(strat, prices[n - 1] as int, sessions[n - 1]);
        assert(sessions[n].margin_position == sessions[n - 1].margin_position + 1);
        assert forall|i: int| 0 <= i < sessions.len() implies (#[trigger] sessions[
            i].margin_position) == i by {
            if i < n {
                assert(sessions2[i].margin_position == i);
            }
        }
        assert forall|i: int| 0 <= i < sessions.len() implies (#[trigger] sessions[
            i].margin_position) <= strat.margin_configuration@.len() by {
            if i < n {
                assert(sessions2[i].margin_position <= strat.margin_configuration@.len());
            }
        }
    }
}

} // verus!
