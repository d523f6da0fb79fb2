//! The liquidity curve: stateless functions from pool proportions, rates and
//! times to exchange rates and fees.
//!
//! The exchange rate at proportion `p` is `ln(p / (1 - p)) / rate_scalar +
//! rate_anchor`. The natural logarithm and the exponential are evaluated by the
//! caller: `proportion_odds` yields the `p / (1 - p)` whose logarithm
//! `calc_exchange_rate` and `calc_rate_anchor` take, and
//! `implied_rate_exponent` yields the exponent whose exponential is the
//! exchange rate of an annualised log-rate.

use crate::error::{dec_outcome, lift, pdec_outcome, Failure, MarketError};
use crate::numeric::{
    dec_checked, dec_div_model, dec_mul_model, dec_unit, pdec_checked, pdec_div_model,
    pdec_mul_model, pdec_unit, tdiv, Decimal, PreciseDecimal,
};
use vstd::prelude::*;

verus! {

/// Seconds in the 365-day period that rates are annualised over.
pub const PERIOD_SIZE: i64 = 31_536_000;

/// Attos of the largest proportion of PT that a trade may leave (0.96).
pub const MAX_MARKET_PROPORTION_ATTOS: i128 = 960_000_000_000_000_000;

/// The proportion model: `(total_pt - net_pt_amount) / (total_pt + total_asset)`.
pub open spec fn proportion_model(net_pt_amount: int, total_pt: int, total_asset: int) -> Result<
    int,
    Failure,
> {
    if dec_checked(total_pt - net_pt_amount) is Some && dec_checked(total_pt + total_asset) is Some {
        lift(dec_div_model(total_pt - net_pt_amount, total_pt + total_asset))
    } else {
        Err(Failure::ArithmeticError)
    }
}

/// The odds model: `p / (1 - p)` for a proportion strictly between 0 and 1.
pub open spec fn odds_model(proportion: int) -> Result<int, Failure> {
    if proportion >= dec_unit() {
        Err(Failure::ProportionGreaterThanOrEqualToOne(proportion))
    } else if proportion < 0 {
        Err(Failure::ProportionLessThanZero(proportion))
    } else if proportion == 0 {
        Err(Failure::ArithmeticError)
    } else {
        lift(dec_div_model(proportion, dec_unit() - proportion))
    }
}

/// The exchange rate model: `ln_proportion / rate_scalar + rate_anchor`,
/// rejected below 1.
pub open spec fn exchange_rate_model(ln_proportion: int, rate_anchor: int, rate_scalar: int) -> Result<
    int,
    Failure,
> {
    match pdec_div_model(ln_proportion, rate_scalar * dec_unit()) {
        None => Err(Failure::ArithmeticError),
        Some(q) => if pdec_checked(q + rate_anchor) is None {
            Err(Failure::ArithmeticError)
        } else if q + rate_anchor < pdec_unit() {
            Err(Failure::InvalidExchangeRate(q + rate_anchor))
        } else {
            Ok(q + rate_anchor)
        },
    }
}

/// The rate scalar model: `scalar_root * PERIOD_SIZE / time_to_expiry`.
pub open spec fn rate_scalar_model(scalar_root: int, time_to_expiry: int) -> Result<int, Failure> {
    match dec_mul_model(scalar_root, PERIOD_SIZE * dec_unit()) {
        None => Err(Failure::ArithmeticError),
        Some(m) => lift(dec_div_model(m, time_to_expiry * dec_unit())),
    }
}

/// The rate anchor model: `last_exchange_rate - ln_proportion / rate_scalar`,
/// where the last exchange rate must be at least 1.
pub open spec fn rate_anchor_model(
    last_exchange_rate: int,
    ln_proportion: int,
    rate_scalar: int,
) -> Result<int, Failure> {
    if last_exchange_rate < pdec_unit() {
        Err(Failure::InvalidLastExchangeRate(last_exchange_rate))
    } else {
        match pdec_div_model(ln_proportion, rate_scalar * dec_unit()) {
            None => Err(Failure::ArithmeticError),
            Some(q) => lift(pdec_checked(last_exchange_rate - q)),
        }
    }
}

/// The fee model. Taking PT out of the pool (`net_pt_amount > 0`) charges
/// `pre_fee_amount * (1 - fee_rate)` and requires `exchange_rate / fee_rate >=
/// 1`; putting PT in charges `-(pre_fee_amount * (1 - fee_rate) / fee_rate)`.
pub open spec fn fee_model(
    fee_rate: int,
    net_pt_amount: int,
    exchange_rate: int,
    pre_fee_amount: int,
) -> Result<int, Failure> {
    if net_pt_amount > 0 {
        match pdec_div_model(exchange_rate, fee_rate) {
            None => Err(Failure::ArithmeticError),
            Some(post) => if post < pdec_unit() {
                Err(Failure::InvalidPostFeeExchangeRate(post))
            } else if pdec_checked(pdec_unit() - fee_rate) is None {
                Err(Failure::ArithmeticError)
            } else {
                lift(pdec_mul_model(pre_fee_amount, pdec_unit() - fee_rate))
            },
        }
    } else {
        if pdec_checked(pdec_unit() - fee_rate) is None {
            Err(Failure::ArithmeticError)
        } else {
            match pdec_mul_model(pre_fee_amount, pdec_unit() - fee_rate) {
                None => Err(Failure::ArithmeticError),
                Some(m) => match pdec_div_model(m, fee_rate) {
                    None => Err(Failure::ArithmeticError),
                    Some(q) => lift(pdec_checked(-q)),
                },
            }
        }
    }
}

/// The exponent model: `ln_rate * time_to_expiry / PERIOD_SIZE`.
pub open spec fn exponent_model(ln_rate: int, time_to_expiry: int) -> Result<int, Failure> {
    match pdec_mul_model(ln_rate, time_to_expiry * pdec_unit()) {
        None => Err(Failure::ArithmeticError),
        Some(m) => lift(pdec_div_model(m, PERIOD_SIZE * pdec_unit())),
    }
}

/// The annualisation model: `ln_exchange_rate * PERIOD_SIZE / time_to_expiry`.
pub open spec fn annualised_model(ln_exchange_rate: int, time_to_expiry: int) -> Result<
    int,
    Failure,
> {
    match pdec_mul_model(ln_exchange_rate, PERIOD_SIZE * pdec_unit()) {
        None => Err(Failure::ArithmeticError),
        Some(m) => lift(pdec_div_model(m, time_to_expiry * pdec_unit())),
    }
}

/// The largest proportion of PT that a trade may leave in the pool.
pub fn max_market_proportion() -> (r: Decimal)
    ensures
        r.value() == MAX_MARKET_PROPORTION_ATTOS,
{
    Decimal::from_attos(MAX_MARKET_PROPORTION_ATTOS)
}

/// The proportion of PT in the pool once `net_pt_amount` PT has left it (a
/// negative amount enters it).
pub fn calc_proportion(net_pt_amount: Decimal, total_pt: Decimal, total_asset: Decimal) -> (r:
    Result<Decimal, MarketError>)
    ensures
        dec_outcome(r) == proportion_model(
            net_pt_amount.value(),
            total_pt.value(),
            total_asset.value(),
        ),
{
    let numerator = match total_pt.checked_sub(&net_pt_amount) {
        Some(n) => n,
        None => return Err(MarketError::ArithmeticError),
    };
    let total = match total_pt.checked_add(&total_asset) {
        Some(t) => t,
        None => return Err(MarketError::ArithmeticError),
    };
    match numerator.checked_div(&total) {
        Some(p) => Ok(p),
        None => Err(MarketError::ArithmeticError),
    }
}

/// The odds `p / (1 - p)` of a proportion, whose natural logarithm is the
/// log-proportion of the curve. A proportion of 1 or more, or below 0, is out
/// of the curve's domain; at 0 the odds are 0, which has no logarithm.
pub fn proportion_odds(proportion: Decimal) -> (r: Result<Decimal, MarketError>)
    ensures
        dec_outcome(r) == odds_model(proportion.value()),
        (r is Ok) <==> (0 < proportion.value() < dec_unit()),
        r matches Ok(odds) ==> odds.value() > 0,
{
    let one = Decimal::from_int(1);
    if !proportion.lt(&one) {
        return Err(MarketError::ProportionGreaterThanOrEqualToOne(proportion));
    }
    if proportion.is_negative() {
        return Err(MarketError::ProportionLessThanZero(proportion));
    }
    let zero = Decimal::from_int(0);
    if !zero.lt(&proportion) {
        return Err(MarketError::ArithmeticError);
    }
    let rest = match one.checked_sub(&proportion) {
        Some(d) => d,
        None => return Err(MarketError::ArithmeticError),
    };
    proof {
        lemma_odds_in_range(proportion.value());
    }
    match proportion.checked_div(&rest) {
        Some(odds) => Ok(odds),
        None => Err(MarketError::ArithmeticError),
    }
}

/// For a proportion strictly between 0 and 1 the odds are positive and fit.
proof fn lemma_odds_in_range(p: int)
    requires
        0 < p < dec_unit(),
    ensures
        dec_div_model(p, dec_unit() - p) is Some,
        dec_div_model(p, dec_unit() - p)->Some_0 > 0,
{
    let u = dec_unit();
    let d = u - p;
    assert(p * u >= d) by (nonlinear_arith)
        requires
            p >= 1,
            u > 0,
            d == u - p,
    ;
    assert(p * u <= u * u) by (nonlinear_arith)
        requires
            p < u,
            u > 0,
    ;
    let q = (p * u) / d;
    assert(q >= 1) by (nonlinear_arith)
        requires
            p * u >= d,
            d > 0,
            q == (p * u) / d,
    ;
    assert(q <= p * u) by (nonlinear_arith)
        requires
            p * u >= 0,
            d >= 1,
            q == (p * u) / d,
    ;
    assert(u * u < 0x8000_0000_0000_0000_0000_0000_0000_0000_0000_0000_0000_0000int);
    assert(tdiv(p * u, d) == q);
}

/// The exchange rate `ln_proportion / rate_scalar + rate_anchor`, where
/// `ln_proportion` is the natural logarithm of the pool's `proportion_odds`.
/// A rate below 1 would let PT be bought below its redemption value and is
/// rejected, not clamped.
pub fn calc_exchange_rate(
    ln_proportion: PreciseDecimal,
    rate_anchor: PreciseDecimal,
    rate_scalar: Decimal,
) -> (r: Result<PreciseDecimal, MarketError>)
    ensures
        pdec_outcome(r) == exchange_rate_model(
            ln_proportion.value(),
            rate_anchor.value(),
            rate_scalar.value(),
        ),
        r matches Ok(rate) ==> rate.value() >= pdec_unit(),
        ({
            let q = pdec_div_model(ln_proportion.value(), rate_scalar.value() * dec_unit());
            let e = q->Some_0 + rate_anchor.value();
            q is Some && pdec_checked(e) is Some && e < pdec_unit() ==> (r matches Err(
                MarketError::InvalidExchangeRate(rate),
            ) && rate.value() == e)
        }),
{
    let scalar = rate_scalar.to_precise();
    let component = match ln_proportion.checked_div(&scalar) {
        Some(c) => c,
        None => return Err(MarketError::ArithmeticError),
    };
    let rate = match component.checked_add(&rate_anchor) {
        Some(e) => e,
        None => return Err(MarketError::ArithmeticError),
    };
    if rate.lt(&PreciseDecimal::from_int(1)) {
        return Err(MarketError::InvalidExchangeRate(rate));
    }
    Ok(rate)
}

/// The steepness of the curve, `scalar_root * PERIOD_SIZE / time_to_expiry`.
/// It grows as maturity nears, which flattens the curve.
pub fn calc_rate_scalar(scalar_root: Decimal, time_to_expiry: i64) -> (r: Result<
    Decimal,
    MarketError,
>)
    requires
        scalar_root.value() >= 0,
        time_to_expiry > 0,
    ensures
        dec_outcome(r) == rate_scalar_model(scalar_root.value(), time_to_expiry as int),
        r matches Ok(s) ==> s.value() >= 0,
{
    let period = Decimal::from_int(PERIOD_SIZE);
    let scaled = match scalar_root.checked_mul(&period) {
        Some(m) => m,
        None => return Err(MarketError::ArithmeticError),
    };
    let time = Decimal::from_int(time_to_expiry);
    proof {
        lemma_tdiv_nonneg(scalar_root.value() * (PERIOD_SIZE * dec_unit()), dec_unit());
        lemma_tdiv_nonneg(scaled.value() * dec_unit(), time_to_expiry * dec_unit());
    }
    match scaled.checked_div(&time) {
        Some(s) => Ok(s),
        None => Err(MarketError::ArithmeticError),
    }
}

/// Truncating division of a non-negative by a positive number is
/// non-negative.
proof fn lemma_tdiv_nonneg(a: int, b: int)
    ensures
        a >= 0 && b > 0 ==> tdiv(a, b) >= 0,
{
    if a >= 0 && b > 0 {
        assert(a / b >= 0) by (nonlinear_arith)
            requires
                a >= 0,
                b > 0,
        ;
    }
}

/// The curve offset that makes the exchange rate at the pool's current
/// proportion equal the last exchange rate:
/// `last_exchange_rate - ln_proportion / rate_scalar`. The last exchange rate
/// is the exponential of `implied_rate_exponent` of the stored log-rate, and
/// must be at least 1.
pub fn calc_rate_anchor(
    last_exchange_rate: PreciseDecimal,
    ln_proportion: PreciseDecimal,
    rate_scalar: Decimal,
) -> (r: Result<PreciseDecimal, MarketError>)
    ensures
        pdec_outcome(r) == rate_anchor_model(
            last_exchange_rate.value(),
            ln_proportion.value(),
            rate_scalar.value(),
        ),
{
    if last_exchange_rate.lt(&PreciseDecimal::from_int(1)) {
        return Err(MarketError::InvalidLastExchangeRate(last_exchange_rate));
    }
    let scalar = rate_scalar.to_precise();
    let component = match ln_proportion.checked_div(&scalar) {
        Some(c) => c,
        None => return Err(MarketError::ArithmeticError),
    };
    match last_exchange_rate.checked_sub(&component) {
        Some(a) => Ok(a),
        None => Err(MarketError::ArithmeticError),
    }
}

/// The fee of a trade, given the per-trade fee multiplier `fee_rate` (the
/// exponential of `implied_rate_exponent` of the market's log fee rate), the
/// signed PT amount leaving the pool, the pre-fee exchange rate and the
/// pre-fee asset amount. The sign of the formula follows the direction so
/// that the fee always reduces what the pool pays out.
pub fn calc_fee(
    fee_rate: PreciseDecimal,
    net_pt_amount: Decimal,
    exchange_rate: PreciseDecimal,
    pre_fee_amount: PreciseDecimal,
) -> (r: Result<PreciseDecimal, MarketError>)
    ensures
        pdec_outcome(r) == fee_model(
            fee_rate.value(),
            net_pt_amount.value(),
            exchange_rate.value(),
            pre_fee_amount.value(),
        ),
{
    let one = PreciseDecimal::from_int(1);
    let zero = Decimal::from_int(0);
    if zero.lt(&net_pt_amount) {
        let post_fee_rate = match exchange_rate.checked_div(&fee_rate) {
            Some(p) => p,
            None => return Err(MarketError::ArithmeticError),
        };
        if post_fee_rate.lt(&one) {
            return Err(MarketError::InvalidPostFeeExchangeRate(post_fee_rate));
        }
        let factor = match one.checked_sub(&fee_rate) {
            Some(f) => f,
            None => return Err(MarketError::ArithmeticError),
        };
        match pre_fee_amount.checked_mul(&factor) {
            Some(fee) => Ok(fee),
            None => Err(MarketError::ArithmeticError),
        }
    } else {
        let factor = match one.checked_sub(&fee_rate) {
            Some(f) => f,
            None => return Err(MarketError::ArithmeticError),
        };
        let scaled = match pre_fee_amount.checked_mul(&factor) {
            Some(m) => m,
            None => return Err(MarketError::ArithmeticError),
        };
        let quotient = match scaled.checked_div(&fee_rate) {
            Some(q) => q,
            None => return Err(MarketError::ArithmeticError),
        };
        match quotient.checked_neg() {
            Some(fee) => Ok(fee),
            None => Err(MarketError::ArithmeticError),
        }
    }
}

/// The exponent `ln_rate * time_to_expiry / PERIOD_SIZE` whose exponential is
/// the exchange rate over `time_to_expiry` seconds of the annualised log-rate
/// `ln_rate`.
pub fn implied_rate_exponent(ln_rate: PreciseDecimal, time_to_expiry: i64) -> (r: Result<
    PreciseDecimal,
    MarketError,
>)
    ensures
        pdec_outcome(r) == exponent_model(ln_rate.value(), time_to_expiry as int),
{
    let time = PreciseDecimal::from_int(time_to_expiry);
    let scaled = match ln_rate.checked_mul(&time) {
        Some(m) => m,
        None => return Err(MarketError::ArithmeticError),
    };
    match scaled.checked_div(&PreciseDecimal::from_int(PERIOD_SIZE)) {
        Some(e) => Ok(e),
        None => Err(MarketError::ArithmeticError),
    }
}

/// The annualised log-rate `ln_exchange_rate * PERIOD_SIZE / time_to_expiry`
/// of an exchange rate whose natural logarithm is `ln_exchange_rate`.
pub fn annualise_ln_exchange_rate(ln_exchange_rate: PreciseDecimal, time_to_expiry: i64) -> (r:
    Result<PreciseDecimal, MarketError>)
    ensures
        pdec_outcome(r) == annualised_model(ln_exchange_rate.value(), time_to_expiry as int),
{
    let period = PreciseDecimal::from_int(PERIOD_SIZE);
    let scaled = match ln_exchange_rate.checked_mul(&period) {
        Some(m) => m,
        None => return Err(MarketError::ArithmeticError),
    };
    match scaled.checked_div(&PreciseDecimal::from_int(time_to_expiry)) {
        Some(l) => Ok(l),
        None => Err(MarketError::ArithmeticError),
    }
}

} // verus!
