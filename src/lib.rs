//! Pricing and trade mathematics of a yield-trading market maker built on a
//! time-decaying logit curve.
//!
//! `numeric` holds the two fixed-point types (18 and 36 decimal places) whose
//! arithmetic is carried out by scrypto's decimal types, `curve` the stateless
//! curve functions, `market` the per-trade orchestration and the market's
//! state machine, `splitter` the yield accounting of the principal/yield
//! token splitter, and `laws` the properties that relate them.
//!
//! Natural logarithms and exponentials are taken by the caller: each function
//! that needs one takes the evaluated value as an argument, and the library
//! offers the function that yields the exact value to evaluate.

pub mod curve;
pub mod error;
pub mod laws;
pub mod market;
pub mod numeric;
pub mod splitter;

pub use curve::{
    annualise_ln_exchange_rate, calc_exchange_rate, calc_fee, calc_proportion, calc_rate_anchor,
    calc_rate_scalar, implied_rate_exponent, max_market_proportion, proportion_odds,
    MAX_MARKET_PROPORTION_ATTOS, PERIOD_SIZE,
};
pub use error::{Failure, MarketError};
pub use laws::{
    law_exchange_rate_rises_with_log_proportion, law_interest_rate_continuity,
    law_odds_rise_with_proportion, law_proportion_falls_as_pt_leaves, law_trade_fee_split,
    law_trade_fees_non_negative,
};
pub use market::{
    calc_trade, compute_market, exchange_rate_from_state, yt_all_in_exchange_rate, Market,
    MarketCompute, MarketFee, MarketFeeInput, MarketState, PoolStat, PoolVaultReserves, Trade,
};
pub use numeric::{Decimal, PreciseDecimal};
pub use splitter::{
    calc_total_yield_owed, calc_yield_owed, determine_redemption_strategy, redemption_amounts,
    update_redemption_factor, RedemptionFactorState, RedemptionStrategy, YieldTokenData,
};
