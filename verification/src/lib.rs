//! Decision engine for a ladder ("martingale") spot-trading bot.
//!
//! The crate verifies the pure core of the bot: the percent-change
//! arithmetic, the trailing-extremum and momentum trackers, the ladder
//! decision rules, and the ledger computations that reconstruct a cycle's
//! average entry price and profit.  All prices, quantities and oscillator
//! readings are fixed-point integers (see [`model::SCALE`]); the host
//! program converts at the edges and performs the storage and exchange
//! calls that the engine plans.

pub mod bot;
pub mod connector;
pub mod ledger;
pub mod model;
pub mod strategy;
