//! The position state machine: one evaluation per tick.  The pure part
//! lives here — trailing-extremum and momentum-floor updates, the plan
//! for one tick, and the records a filled order produces.  The host
//! program reads the persisted rows, hands them in as plain values,
//! performs the planned storage and exchange work, and writes the
//! records back.

use vstd::prelude::*;
use crate::connector::binance::Connector;
use crate::model::result::{BotState, Trade, Transaction};
use crate::model::{BotCommand, MfiDirection, Session, TradeStatus, INITIAL_BOTTOM_MFI,
    OVERBOUGHT_MFI};
use crate::strategy::helldiver::HellDiverStrategy;

verus! {

/// Identity of the instrument one bot trades.
#[derive(Clone, Debug)]
pub struct BotInfo {
    pub platform: String,
    pub pair: String,
    pub base: String,
    pub quote: String,
}

/// One bot: its instrument, its strategy and the credentials of the
/// venue connection the host program drives.
#[derive(Clone, Debug)]
pub struct Bot {
    pub info: Option<BotInfo>,
    pub strategy: Option<HellDiverStrategy>,
    pub connector: Option<Connector>,
}

/// What one evaluation asks the host program to do.
///
/// `Bootstrap`: the position is flat (no state row yet, or the latest
/// trade closed the cycle), so insert the two given rows — a `Wait`
/// marker trade and a fresh state — and wait for the next tick.
///
/// `Act`: persist the tracker updates that are `Some`, then execute the
/// command; a fill is turned into rows with [`record_open_trade`],
/// [`record_close_trade`] and [`Bot::record_buy`].
#[derive(Clone, Debug)]
pub enum TickPlan {
    Bootstrap { trade: Trade, state: BotState },
    Act {
        top_price: Option<u64>,
        bottom_price: Option<u64>,
        bottom_mfi: Option<u64>,
        command: BotCommand,
    },
}

/// The trailing top after one tick: a new high raises it; once price
/// reverts under the average cost, a stale high above the average snaps
/// back to the average; otherwise it stands.  With no average cost yet
/// (no open trade in the cycle) only new highs move it.
pub open spec fn next_top_price(price: u64, avg_price: Option<u64>, top_price: u64) -> u64 {
    if price > top_price {
        price
    } else {
        match avg_price {
            Some(avg) => if price < avg && top_price != avg {
                avg
            } else {
                top_price
            },
            None => top_price,
        }
    }
}

/// The trailing bottom after one tick, symmetrically to
/// [`next_top_price`].
pub open spec fn next_bottom_price(price: u64, avg_price: Option<u64>, bottom_price: u64) -> u64 {
    if price < bottom_price {
        price
    } else {
        match avg_price {
            Some(avg) => if price > avg && bottom_price != avg {
                avg
            } else {
                bottom_price
            },
            None => bottom_price,
        }
    }
}

/// The momentum floor after one reading: the running minimum, reset to
/// the current reading whenever the oscillator crosses into overbought
/// territory so that the next dip measures against a fresh floor.
pub open spec fn next_bottom_mfi(mfi: u64, bottom_mfi: u64) -> Option<u64> {
    if bottom_mfi > mfi || mfi > OVERBOUGHT_MFI {
        Some(mfi)
    } else {
        None
    }
}

/// Short-term oscillator direction from its two most recent samples:
/// rising exactly when the latest strictly exceeds the previous.
pub fn mfi_direction(latest: u64, previous: u64) -> (dir: MfiDirection)
    ensures
        dir == (if latest > previous {
            MfiDirection::Up
        } else {
            MfiDirection::Down
        }),
{
    if latest > previous {
        MfiDirection::Up
    } else {
        MfiDirection::Down
    }
}

/// Relies on chrono's `Utc::now`: the wall clock, read once per plan so
/// that rows written together carry one stamp.  Nothing is assumed of
/// the value.
#[verifier::external_body]
fn unix_now() -> u64 {
    chrono::offset::Utc::now().timestamp() as u64
}

/// The ledger row a filled buy order produces: an `Open` trade at the
/// reported fill price and quantity, in the given cycle.
pub fn record_open_trade(info: &BotInfo, cycle: u64, transaction: &Transaction) -> (t: Trade)
    ensures
        t.pair == info.pair,
        t.cycle == cycle,
        t.price == transaction.price,
        t.qty == transaction.qty,
        t.platform == info.platform,
        t.status == TradeStatus::Open,
{
    Trade {
        pair: info.pair.clone(),
        cycle,
        price: transaction.price,
        qty: transaction.qty,
        platform: info.platform.clone(),
        status: TradeStatus::Open,
        timestamp: unix_now(),
    }
}

/// The ledger row a filled sell order produces: the `Close` trade that
/// ends the given cycle.
pub fn record_close_trade(info: &BotInfo, cycle: u64, transaction: &Transaction) -> (t: Trade)
    ensures
        t.pair == info.pair,
        t.cycle == cycle,
        t.price == transaction.price,
        t.qty == transaction.qty,
        t.platform == info.platform,
        t.status == TradeStatus::Close,
{
    Trade {
        pair: info.pair.clone(),
        cycle,
        price: transaction.price,
        qty: transaction.qty,
        platform: info.platform.clone(),
        status: TradeStatus::Close,
        timestamp: unix_now(),
    }
}

impl Bot {
    /// The state updates a successful buy applies: the ladder advances
    /// by exactly one rung, and the momentum floor restarts at the
    /// reading that triggered the buy.
    pub fn record_buy(&self, state: &BotState, mfi: u64) -> (r: (u64, u64))
        requires
            state.margin_position < u64::MAX,
        ensures
            r.0 == state.margin_position + 1,
            r.1 == mfi,
    {
        (state.margin_position + 1, mfi)
    }

    /// Updated trailing extremes for one tick; each side is `Some`
    /// exactly when it moved and must be persisted.
    pub fn update_price_level(
        &self,
        price: u64,
        avg_price: Option<u64>,
        top_price: u64,
        bottom_price: u64,
    ) -> (r: (Option<u64>, Option<u64>))
        ensures
            r.0 == (if next_top_price(price, avg_price, top_price) != top_price {
                Some(next_top_price(price, avg_price, top_price))
            } else {
                None::<u64>
            }),
            r.1 == (if next_bottom_price(price, avg_price, bottom_price) != bottom_price {
                Some(next_bottom_price(price, avg_price, bottom_price))
            } else {
                None::<u64>
            }),
    {
        let new_top: Option<u64> = if price > top_price {
            Some(price)
        } else {
            match avg_price {
                Some(avg) => if price < avg && top_price != avg {
                    Some(avg)
                } else {
                    None
                },
                None => None,
            }
        };
        let new_bottom: Option<u64> = if price < bottom_price {
            Some(price)
        } else {
            match avg_price {
                Some(avg) => if price > avg && bottom_price != avg {
                    Some(avg)
                } else {
                    None
                },
                None => None,
            }
        };
        (new_top, new_bottom)
    }

    /// Updated momentum floor for one reading; `Some` exactly when the
    /// floor rule fires and the value must be persisted.
    pub fn update_mfi_level(&self, mfi: u64, bottom_mfi: u64) -> (r: Option<u64>)
        ensures
            r == next_bottom_mfi(mfi, bottom_mfi),
    {
        if bottom_mfi > mfi || mfi > OVERBOUGHT_MFI {
            Some(mfi)
        } else {
            None
        }
    }

    /// Plans one tick from the persisted rows and the fresh market
    /// sample.  A flat position (no state row, no trade row, or a
    /// closed latest trade) starts a new cycle: the plan carries the
    /// `Wait` marker row of the next cycle and a fresh state anchored at
    /// the tick price.  Otherwise the plan carries the tracker updates
    /// and the strategy's command, decided on the row values as read —
    /// the updates take effect from the next tick on.
    pub fn update(
        &self,
        latest_trade: Option<&Trade>,
        latest_state: Option<&BotState>,
        avg_price: Option<u64>,
        mfi: u64,
        mfi_prev: u64,
        price: u64,
    ) -> (plan: TickPlan)
        requires
            self.info is Some,
            self.strategy is Some,
            self.strategy.unwrap().wf(),
            latest_trade matches Some(t) ==> t.cycle < u64::MAX,
        ensures
            ({
                let info = self.info.unwrap();
                let strat = self.strategy.unwrap();
                let flat = latest_state is None || latest_trade is None
                    || latest_trade.unwrap().status == TradeStatus::Close;
                let prev_cycle = if latest_trade is Some {
                    latest_trade.unwrap().cycle as int
                } else {
                    0
                };
                if flat {
                    plan matches TickPlan::Bootstrap { trade, state } && trade.pair == info.pair
                        && trade.platform == info.platform && trade.cycle == prev_cycle + 1
                        && trade.price == 0 && trade.qty == 0 && trade.status == TradeStatus::Wait
                        && state.id == 0 && state.pair == info.pair && state.platform
                        == info.platform && state.cycle == prev_cycle + 1 && state.margin_position
                        == 0 && state.top_price == price && state.bottom_price == price
                        && state.bottom_mfi == INITIAL_BOTTOM_MFI && state.timestamp
                        == trade.timestamp
                } else {
                    let st = latest_state.unwrap();
                    let session = Session {
                        status: latest_trade.unwrap().status,
                        avg_price: if avg_price is Some {
                            avg_price.unwrap()
                        } else {
                            0
                        },
                        top_price: st.top_price,
                        bottom_price: st.bottom_price,
                        margin_position: st.margin_position,
                        mfi,
                        mfi_dir: if mfi > mfi_prev {
                            MfiDirection::Up
                        } else {
                            MfiDirection::Down
                        },
                        bottom_mfi: st.bottom_mfi,
                    };
                    plan == TickPlan::Act {
                        top_price: if next_top_price(price, avg_price, st.top_price)
                            != st.top_price {
                            Some(next_top_price(price, avg_price, st.top_price))
                        } else {
                            None::<u64>
                        },
                        bottom_price: if next_bottom_price(price, avg_price, st.bottom_price)
                            != st.bottom_price {
                            Some(next_bottom_price(price, avg_price, st.bottom_price))
                        } else {
                            None::<u64>
                        },
                        bottom_mfi: next_bottom_mfi(mfi, st.bottom_mfi),
                        command: strat.decide(price as int, session),
                    }
                }
            }),
    {
        let info = self.info.as_ref().unwrap();

        let flat = match (latest_trade, latest_state) {
            (Some(trade), Some(_state)) => trade.status == TradeStatus::Close,
            _ => true,
        };

        if flat {
            let prev_cycle = match latest_trade {
                Some(trade) => trade.cycle,
                None => 0,
            };
            let ts = unix_now();
            let trade = Trade {
                pair: info.pair.clone(),
                cycle: prev_cycle + 1,
                price: 0,
                qty: 0,
                platform: info.platform.clone(),
                status: TradeStatus::Wait,
                timestamp: ts,
            };
            let state = BotState {
                id: 0,
                pair: info.pair.clone(),
                cycle: prev_cycle + 1,
                margin_position: 0,
                top_price: price,
                bottom_price: price,
                bottom_mfi: INITIAL_BOTTOM_MFI,
                platform: info.platform.clone(),
                timestamp: ts,
            };
            return TickPlan::Bootstrap { trade, state };
        }

        let trade = latest_trade.unwrap();
        let state = latest_state.unwrap();

        let (top_price, bottom_price) = self.update_price_level(
            price,
            avg_price,
            state.top_price,
            state.bottom_price,
        );
        let bottom_mfi = self.update_mfi_level(mfi, state.bottom_mfi);

        let session = Session {
            status: trade.status,
            avg_price: match avg_price {
                Some(avg) => avg,
                None => 0,
            },
            top_price: state.top_price,
            bottom_price: state.bottom_price,
            margin_position: state.margin_position,
            mfi,
            mfi_dir: mfi_direction(mfi, mfi_prev),
            bottom_mfi: state.bottom_mfi,
        };

        let command = self.strategy.as_ref().unwrap().run(price, session);

        TickPlan::Act { top_price, bottom_price, bottom_mfi, command }
    }
}

/// Assembles a [`Bot`] from its parts.
pub struct BotBuilder {
    pub bot: Bot,
}

impl BotBuilder {
    /// An empty builder: no instrument, strategy or connection yet.
    pub fn new() -> (b: BotBuilder)
        ensures
            b.bot.info is None,
            b.bot.strategy is None,
            b.bot.connector is None,
    {
        BotBuilder { bot: Bot { info: None, strategy: None, connector: None } }
    }

    /// The finished bot, exactly as assembled.
    pub fn build(self) -> (bot: Bot)
        ensures
            bot == self.bot,
    {
        self.bot
    }

    /// Sets the instrument, keeping the other parts.
    pub fn with_info(self, info: BotInfo) -> (b: BotBuilder)
        ensures
            b.bot.info == Some(info),
            b.bot.strategy == self.bot.strategy,
            b.bot.connector == self.bot.connector,
    {
        BotBuilder { bot: Bot { info: Some(info), ..self.bot } }
    }

    /// Sets the strategy, keeping the other parts.
    pub fn with_strategy(self, strategy: HellDiverStrategy) -> (b: BotBuilder)
        ensures
            b.bot.strategy == Some(strategy),
            b.bot.info == self.bot.info,
            b.bot.connector == self.bot.connector,
    {
        BotBuilder { bot: Bot { strategy: Some(strategy), ..self.bot } }
    }

    /// Sets the venue connection, keeping the other parts.
    pub fn with_connector(self, connector: Connector) -> (b: BotBuilder)
        ensures
            b.bot.connector == Some(connector),
            b.bot.info == self.bot.info,
            b.bot.strategy == self.bot.strategy,
    {
        BotBuilder { bot: Bot { connector: Some(connector), ..self.bot } }
    }
}

} // verus!
