//! Configuration as the operator writes it: one bot per trading pair,
//! with entry criteria, take-profit criteria and a ladder of
//! averaging-down rungs.  Fractional fields are fixed-point
//! ([`crate::model::SCALE`]); the host program converts from its
//! configuration format and validates once at startup.

use vstd::prelude::*;
use crate::model::SCALE;

verus! {

/// Discriminator of a configuration document.
#[derive(Clone, Debug)]
pub struct Kind {
    pub kind: String,
}

/// Instrument identity: the traded pair, its two assets, the venue and
/// the strategy name.
#[derive(Clone, Debug)]
pub struct General {
    pub pair: String,
    pub base: String,
    pub quote: String,
    pub platform: String,
    pub strategy: String,
}

/// Criteria for opening or extending a position: momentum must sit under
/// `mfi_below` yet have recovered more than `mfi_callback` off its floor,
/// and price must sit under `price_change_below` relative to the
/// reference while having bounced more than `price_callback` off the
/// trailing bottom.  `amount_ratio` scales the first buy-in for this
/// rung.  `mfi_below` and `amount_ratio` are fixed-point; the percent
/// thresholds are signed fixed-point percent values.
#[derive(Clone, Debug)]
pub struct OpenCriteria {
    pub mfi_below: u64,
    pub mfi_callback: i64,
    pub price_change_below: i64,
    pub price_callback: i64,
    pub amount_ratio: u64,
}

/// Criteria for closing a position: price must have gained more than
/// `price_change_above` over the average entry and pulled back more than
/// `price_callback` under the trailing top.
#[derive(Clone, Debug)]
pub struct CloseCriteria {
    pub price_change_above: i64,
    pub price_callback: i64,
}

/// Strategy parameters: the quote amount of the first buy, the entry
/// criteria and the take-profit criteria.
#[derive(Clone, Debug)]
pub struct Parameters {
    pub cycle: String,
    pub first_buy_in: u64,
    pub entry: OpenCriteria,
    pub take_profit: CloseCriteria,
}

/// The ladder of averaging-down rungs, in the order they are taken.
#[derive(Clone, Debug)]
pub struct Margin {
    pub margin_configuration: Vec<OpenCriteria>,
}

/// One bot's whole configuration document.
#[derive(Clone, Debug)]
pub struct Config {
    pub title: String,
    pub general: General,
    pub parameters: Parameters,
    pub margin: Margin,
}

/// Exchange credentials as the operator supplies them.
#[derive(Clone, Debug)]
pub struct ApiCredential {
    pub api_key: String,
    pub secret_key: String,
    pub platform: String,
}

/// A stored credential row.
#[derive(Clone, Debug)]
pub struct ApiKey {
    pub id: u64,
    pub api_key: String,
    pub secret_key: String,
    pub platform: String,
}

/// Why a configuration is rejected at startup.
#[derive(Clone, Copy, Debug, PartialEq, Eq, Structural)]
pub enum ConfigError {
    /// `first_buy_in` is zero: every order amount would be zero.
    ZeroFirstBuyIn,
    /// A ladder rung's `amount_ratio` is zero: the rung would buy nothing.
    ZeroAmountRatio,
    /// A rung's order amount `amount_ratio * first_buy_in / SCALE`
    /// does not fit the amount type.
    AmountOverflow,
}

/// The quote amount a rung spends: its ratio applied to the first buy-in,
/// in fixed-point.
pub open spec fn rung_amount(ratio: u64, first_buy_in: u64) -> int {
    ratio * first_buy_in / (SCALE as int)
}

/// A configuration the engine can run: every rung's order amount fits
/// the amount type.
pub open spec fn ladder_amounts_fit(first_buy_in: u64, ladder: Seq<OpenCriteria>) -> bool {
    forall|i: int|
        0 <= i < ladder.len() ==> rung_amount(ladder[i].amount_ratio, first_buy_in)
            <= u64::MAX
}

impl Parameters {
    /// Rejects a malformed configuration before the bot starts: a zero
    /// first buy-in, a zero rung ratio, or a rung amount that overflows.
    /// Returns `Ok` exactly on the configurations the engine accepts.
    pub fn validate(&self, margin: &Margin) -> (r: Result<(), ConfigError>)
        ensures
            r matches Ok(()) <==> ({
                &&& self.first_buy_in > 0
                &&& forall|i: int|
                    0 <= i < margin.margin_configuration@.len()
                        ==> #[trigger] margin.margin_configuration@[i].amount_ratio > 0
                &&& ladder_amounts_fit(self.first_buy_in, margin.margin_configuration@)
            }),
            r == Err::<(), ConfigError>(ConfigError::ZeroFirstBuyIn) <==> self.first_buy_in == 0,
            r == Err::<(), ConfigError>(ConfigError::ZeroAmountRatio) <==> (self.first_buy_in > 0
                && exists|i: int|
                0 <= i < margin.margin_configuration@.len()
                    && #[trigger] margin.margin_configuration@[i].amount_ratio == 0),
            r == Err::<(), ConfigError>(ConfigError::AmountOverflow) <==> (self.first_buy_in > 0
                && (forall|i: int|
                0 <= i < margin.margin_configuration@.len()
                    ==> #[trigger] margin.margin_configuration@[i].amount_ratio > 0) && !ladder_amounts_fit(
                self.first_buy_in,
                margin.margin_configuration@,
            )),
    {
        if self.first_buy_in == 0 {
            return Err(ConfigError::ZeroFirstBuyIn);
        }
        let n = margin.margin_configuration.len();
        let mut i: usize = 0;
        while i < n
            invariant
                i <= n,
                n == margin.margin_configuration@.len(),
                self.first_buy_in > 0,
                forall|j: int|
                    0 <= j < i ==> #[trigger] margin.margin_configuration@[j].amount_ratio > 0,
            decreases n - i,
        {
            if margin.margin_configuration[i].amount_ratio == 0 {
                proof {
                    assert(margin.margin_configuration@[i as int].amount_ratio == 0);
                }
                return Err(ConfigError::ZeroAmountRatio);
            }
            i = i + 1;
        }
        let mut i: usize = 0;
        while i < n
            invariant
                i <= n,
                n == margin.margin_configuration@.len(),
                self.first_buy_in > 0,
                forall|j: int|
                    0 <= j < n ==> #[trigger] margin.margin_configuration@[j].amount_ratio > 0,
                forall|j: int|
                    0 <= j < i ==> rung_amount(
                        #[trigger] margin.margin_configuration@[j].amount_ratio,
                        self.first_buy_in,
                    ) <= u64::MAX,
            decreases n - i,
        {
            let ratio = margin.margin_configuration[i].amount_ratio;
            proof {
                assert(ratio as u128 * self.first_buy_in as u128 <= u128::MAX) by (nonlinear_arith)
                    requires
                        ratio <= u64::MAX,
                        self.first_buy_in <= u64::MAX,
                ;
            }
            let amount: u128 = ratio as u128 * self.first_buy_in as u128 / SCALE as u128;
            if amount > u64::MAX as u128 {
                proof {
                    assert(rung_amount(
                        margin.margin_configuration@[i as int].amount_ratio,
                        self.first_buy_in,
                    ) > u64::MAX);
                }
                return Err(ConfigError::AmountOverflow);
            }
            i = i + 1;
        }
        Ok(())
    }
}

} // verus!
