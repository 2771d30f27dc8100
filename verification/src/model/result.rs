//! Persisted records: the append-only trade ledger, the per-cycle
//! position state, and the records exchanged with the venue.  Prices and
//! quantities are integers in the caller's chosen unit.

use vstd::prelude::*;
use crate::model::TradeStatus;
use crate::model::args::{Margin, Parameters};

verus! {

/// One stored bot row: the configuration under its title plus its
/// activation status.
#[derive(Clone, Debug)]
pub struct Bot {
    pub title: String,
    pub pair: String,
    pub base: String,
    pub quote: String,
    pub platform: String,
    pub strategy: String,
    pub parameters: Parameters,
    pub margin: Margin,
    pub status: String,
}

/// One row of the append-only trade ledger; never changed after it is
/// written.  A `Wait` row opens a cycle and carries no fill.
#[derive(Clone, Debug)]
pub struct Trade {
    pub pair: String,
    pub cycle: u64,
    pub price: u64,
    pub qty: u64,
    pub platform: String,
    pub status: TradeStatus,
    pub timestamp: u64,
}

/// The mutable per-cycle position state: the ladder position, the
/// trailing price extremes and the oscillator floor.  A fresh row is
/// written when a cycle starts; the extremum fields are updated in place
/// while the cycle lives.
#[derive(Clone, Debug)]
pub struct BotState {
    pub id: u64,
    pub pair: String,
    pub cycle: u64,
    pub margin_position: u64,
    pub top_price: u64,
    pub bottom_price: u64,
    pub bottom_mfi: u64,
    pub platform: String,
    pub timestamp: u64,
}

/// A stored credential.
#[derive(Clone, Debug)]
pub struct ApiCredential {
    pub api: String,
    pub secret: String,
    pub platform: String,
}

/// Free balance of one asset, as the venue reports it.
#[derive(Clone, Debug)]
pub struct Balance {
    pub asset: String,
    pub free: u64,
}

/// An executed order as the venue reports it back: the average fill
/// price and the executed quantity.
#[derive(Clone, Debug)]
pub struct Transaction {
    pub order_id: u64,
    pub pair: String,
    pub price: u64,
    pub qty: u64,
    pub platform: String,
    pub timestamp: u64,
}

/// Realized profit of one finished cycle, in price-times-quantity units;
/// negative while the cycle's buys outweigh its sell.
#[derive(Clone, Debug)]
pub struct PnL {
    pub pair: String,
    pub platform: String,
    pub cycle: u64,
    pub pnl: i128,
}

} // verus!
