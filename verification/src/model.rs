//! Shared data model: fixed-point conventions, session snapshots and the
//! commands the strategy can issue.

use vstd::prelude::*;

pub mod args;
pub mod result;

verus! {

/// Fixed-point denominator for fractional values: percent readings,
/// oscillator readings and amount ratios all carry four decimal places,
/// so a stored value `v` stands for the real number `v / 10_000`.
pub const SCALE: u64 = 10_000;

/// A relative price change of one whole percent, in fixed-point units:
/// `percent_change` multiplies the price ratio by 100, so one percent is
/// `100 * SCALE` of the raw ratio.
pub const PCT_FACTOR: u64 = 1_000_000;

/// Oscillator reading above which the market counts as overbought
/// (a reading of 50.0, in fixed-point units).
pub const OVERBOUGHT_MFI: u64 = 500_000;

/// Oscillator floor a fresh position starts from (a reading of 80.0,
/// in fixed-point units): high enough that the first genuine reading
/// replaces it.
pub const INITIAL_BOTTOM_MFI: u64 = 800_000;

/// Lifecycle tag of a ledger row: `Wait` marks the bootstrap row of a new
/// cycle, `Open` an executed buy, `Close` the sell that ends the cycle.
#[derive(Clone, Copy, Debug, PartialEq, Eq, Structural)]
pub enum TradeStatus {
    Wait,
    Open,
    Close,
}

/// Short-term direction of the momentum oscillator, taken from its two
/// most recent samples.
#[derive(Clone, Copy, Debug, PartialEq, Eq, Structural)]
pub enum MfiDirection {
    Up,
    Down,
}

/// Everything the decision rules read on one evaluation: the position
/// status, the cycle's average entry price, the trailing extremes, the
/// ladder position and the momentum readings.  All prices share one unit
/// chosen by the caller; oscillator fields are fixed-point ([`SCALE`]).
/// A cycle with no buy fill has no average yet: `avg_price` is then `0`,
/// and the zero baseline reads as "no signal" through the percent-change
/// sentinel.
#[derive(Clone, Copy, Debug, PartialEq, Eq, Structural)]
pub struct Session {
    pub status: TradeStatus,
    pub avg_price: u64,
    pub top_price: u64,
    pub bottom_price: u64,
    pub margin_position: u64,
    pub mfi: u64,
    pub mfi_dir: MfiDirection,
    pub bottom_mfi: u64,
}

/// What the strategy asks the orchestrator to do with one price sample.
/// `Entry` and `Buy` carry the quote-currency amount to spend.
#[derive(Clone, Copy, Debug, PartialEq, Eq, Structural)]
pub enum BotCommand {
    Entry(u64),
    Buy(u64),
    Sell(),
    Pause(),
}

} // verus!
