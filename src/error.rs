//! Errors of the curve and trade computations, and their model.

use crate::numeric::{Decimal, PreciseDecimal};
use vstd::prelude::*;

verus! {

/// Why a curve evaluation, a trade or a market operation was rejected.
#[derive(Clone, Copy, Debug, PartialEq, Eq)]
pub enum MarketError {
    /// The exchange rate fell below 1; it carries that rate.
    InvalidExchangeRate(PreciseDecimal),
    /// The exchange rate after fees fell below 1; it carries that rate.
    InvalidPostFeeExchangeRate(PreciseDecimal),
    /// The stored implied rate decodes to an exchange rate below 1.
    InvalidLastExchangeRate(PreciseDecimal),
    /// The trade would push the proportion past the market's cap.
    MaxMarketProportionReached(Decimal),
    /// The proportion is 1 or more: the trade takes out more asset than the
    /// pool holds.
    ProportionGreaterThanOrEqualToOne(Decimal),
    /// The proportion is negative: the trade takes out more PT than the pool
    /// holds.
    ProportionLessThanZero(Decimal),
    /// An overflow, a division by zero, or a logarithm outside its domain.
    ArithmeticError,
    /// The market has reached its maturity date.
    MarketExpired,
    /// Trading has been switched off for this market.
    MarketInactive,
    /// The initial implied rate has already been set.
    AlreadyInitialized,
    /// The market's parameters are out of their ranges.
    InvalidMarketParameters,
}

/// The model of a `MarketError`: numbers are given by their scaled integers.
pub enum Failure {
    InvalidExchangeRate(int),
    InvalidPostFeeExchangeRate(int),
    InvalidLastExchangeRate(int),
    MaxMarketProportionReached(int),
    ProportionGreaterThanOrEqualToOne(int),
    ProportionLessThanZero(int),
    ArithmeticError,
    MarketExpired,
    MarketInactive,
    AlreadyInitialized,
    InvalidMarketParameters,
}

impl View for MarketError {
    type V = Failure;

    open spec fn view(&self) -> Failure {
        match *self {
            MarketError::InvalidExchangeRate(r) => Failure::InvalidExchangeRate(r.value()),
            MarketError::InvalidPostFeeExchangeRate(r) => Failure::InvalidPostFeeExchangeRate(
                r.value(),
            ),
            MarketError::InvalidLastExchangeRate(r) => Failure::InvalidLastExchangeRate(r.value()),
            MarketError::MaxMarketProportionReached(p) => Failure::MaxMarketProportionReached(
                p.value(),
            ),
            MarketError::ProportionGreaterThanOrEqualToOne(p) =>
                Failure::ProportionGreaterThanOrEqualToOne(p.value()),
            MarketError::ProportionLessThanZero(p) => Failure::ProportionLessThanZero(p.value()),
            MarketError::ArithmeticError => Failure::ArithmeticError,
            MarketError::MarketExpired => Failure::MarketExpired,
            MarketError::MarketInactive => Failure::MarketInactive,
            MarketError::AlreadyInitialized => Failure::AlreadyInitialized,
            MarketError::InvalidMarketParameters => Failure::InvalidMarketParameters,
        }
    }
}

/// An absent result of checked arithmetic becomes an `ArithmeticError`.
pub open spec fn lift(o: Option<int>) -> Result<int, Failure> {
    match o {
        Some(v) => Ok(v),
        None => Err(Failure::ArithmeticError),
    }
}

pub open spec fn dec_outcome(r: Result<Decimal, MarketError>) -> Result<int, Failure> {
    match r {
        Ok(v) => Ok(v.value()),
        Err(e) => Err(e@),
    }
}

pub open spec fn pdec_outcome(r: Result<PreciseDecimal, MarketError>) -> Result<int, Failure> {
    match r {
        Ok(v) => Ok(v.value()),
        Err(e) => Err(e@),
    }
}

} // verus!
