//! Per-trade orchestration and the market's state.
//!
//! A trade runs as: `Market::begin_trade` (the expiry and activity check, which
//! yields the time to expiry), `compute_market` on the reserves before the
//! trade, `calc_trade`, the settlement of the amounts outside this library,
//! `exchange_rate_from_state` on the reserves after it, and
//! `Market::record_trade` with the new annualised log-rate.

use crate::curve::{
    calc_exchange_rate, calc_fee, calc_proportion, calc_rate_anchor, calc_rate_scalar,
    exchange_rate_model, fee_model, max_market_proportion, odds_model, proportion_model,
    proportion_odds, rate_anchor_model, rate_scalar_model, MAX_MARKET_PROPORTION_ATTOS,
};
use crate::error::{dec_outcome, pdec_outcome, Failure, MarketError};
use crate::numeric::{
    abs, dec_checked, dec_div_model, dec_unit, pdec_checked, pdec_div_model, pdec_mul_model,
    pdec_round_model, pdec_unit, tdiv, Decimal, PreciseDecimal,
};
use vstd::prelude::*;

verus! {

/// The curve's persistent parameters.
#[derive(Clone, Copy, Debug, PartialEq, Eq)]
pub struct MarketState {
    /// The rate anchor used once, to derive the first implied rate.
    pub initial_rate_anchor: PreciseDecimal,
    /// The seed of the curve's steepness; positive.
    pub scalar_root: Decimal,
    /// The natural log of the last annualised implied rate; zero until the
    /// market is initialised.
    pub last_ln_implied_rate: PreciseDecimal,
}

/// The market's fee parameters.
#[derive(Clone, Copy, Debug, PartialEq, Eq)]
pub struct MarketFee {
    /// The natural log of the annual fee multiplier.
    pub ln_fee_rate: PreciseDecimal,
    /// The share of each fee that goes to the protocol reserve, in (0, 1).
    pub reserve_fee_percent: Decimal,
}

/// The fee parameters as a market is created with them.
#[derive(Clone, Copy, Debug, PartialEq, Eq)]
pub struct MarketFeeInput {
    /// The annual fee multiplier; positive.
    pub fee_rate: Decimal,
    /// The share of each fee that goes to the protocol reserve, in (0, 1).
    pub reserve_fee_percent: Decimal,
}

/// The curve's shape at one instant, derived before a trade.
#[derive(Clone, Copy, Debug, PartialEq, Eq)]
pub struct MarketCompute {
    pub rate_scalar: Decimal,
    pub rate_anchor: PreciseDecimal,
    pub total_pt_amount: Decimal,
    pub total_base_asset_amount: Decimal,
}

/// The pool's balances at one instant.
#[derive(Clone, Copy, Debug, PartialEq, Eq)]
pub struct PoolVaultReserves {
    pub total_pt_amount: Decimal,
    pub total_underlying_asset_amount: Decimal,
}

/// Fees collected over the market's life.
#[derive(Clone, Copy, Debug, PartialEq, Eq)]
pub struct PoolStat {
    pub trading_fees_collected: PreciseDecimal,
    pub reserve_fees_collected: PreciseDecimal,
    pub total_fees_collected: PreciseDecimal,
}

/// The amounts of one trade.
#[derive(Clone, Copy, Debug, PartialEq, Eq)]
pub struct Trade {
    /// The asset amount the pool pays out (PT into the pool) or takes in (PT
    /// out of the pool), fees included.
    pub net_amount: Decimal,
    pub pre_fee_exchange_rate: PreciseDecimal,
    pub total_fees: PreciseDecimal,
    /// The part of the fee that goes to the protocol reserve.
    pub reserve_fee: PreciseDecimal,
    /// The part of the fee that stays with liquidity providers.
    pub trading_fee: PreciseDecimal,
}

/// The model of a `Trade`.
pub struct TradeModel {
    pub net_amount: int,
    pub pre_fee_exchange_rate: int,
    pub total_fees: int,
    pub reserve_fee: int,
    pub trading_fee: int,
}

impl Trade {
    pub open spec fn model(&self) -> TradeModel {
        TradeModel {
            net_amount: self.net_amount.value(),
            pre_fee_exchange_rate: self.pre_fee_exchange_rate.value(),
            total_fees: self.total_fees.value(),
            reserve_fee: self.reserve_fee.value(),
            trading_fee: self.trading_fee.value(),
        }
    }
}

/// The model of `compute_market`: the rate scalar and the rate anchor.
pub open spec fn compute_market_model(
    scalar_root: int,
    total_pt: int,
    total_base_asset: int,
    time_to_expiry: int,
    last_exchange_rate: int,
    ln_proportion: int,
) -> Result<(int, int), Failure> {
    match proportion_model(0, total_pt, total_base_asset) {
        Err(e) => Err(e),
        Ok(p) => match odds_model(p) {
            Err(e) => Err(e),
            Ok(_) => match rate_scalar_model(scalar_root, time_to_expiry) {
                Err(e) => Err(e),
                Ok(s) => match rate_anchor_model(last_exchange_rate, ln_proportion, s) {
                    Err(e) => Err(e),
                    Ok(a) => Ok((s, a)),
                },
            },
        },
    }
}

/// The curve's shape before a trade. `ln_proportion` is the natural log of
/// the `proportion_odds` of the reserves' zero-trade proportion, and
/// `last_exchange_rate` the exponential of the `implied_rate_exponent` of the
/// last log implied rate. The anchor is chosen so that the exchange rate at
/// the current proportion is exactly the last exchange rate.
pub fn compute_market(
    market_state: &MarketState,
    total_pt_amount: Decimal,
    total_base_asset_amount: Decimal,
    time_to_expiry: i64,
    last_exchange_rate: PreciseDecimal,
    ln_proportion: PreciseDecimal,
) -> (r: Result<MarketCompute, MarketError>)
    requires
        market_state.scalar_root.value() > 0,
        time_to_expiry > 0,
    ensures
        match r {
            Ok(mc) => compute_market_model(
                market_state.scalar_root.value(),
                total_pt_amount.value(),
                total_base_asset_amount.value(),
                time_to_expiry as int,
                last_exchange_rate.value(),
                ln_proportion.value(),
            ) == Ok::<(int, int), Failure>((mc.rate_scalar.value(), mc.rate_anchor.value()))
                && mc.total_pt_amount == total_pt_amount && mc.total_base_asset_amount
                == total_base_asset_amount,
            Err(e) => compute_market_model(
                market_state.scalar_root.value(),
                total_pt_amount.value(),
                total_base_asset_amount.value(),
                time_to_expiry as int,
                last_exchange_rate.value(),
                ln_proportion.value(),
            ) == Err::<(int, int), Failure>(e@),
        },
{
    let proportion = match calc_proportion(
        Decimal::from_int(0),
        total_pt_amount,
        total_base_asset_amount,
    ) {
        Ok(p) => p,
        Err(e) => return Err(e),
    };
    match proportion_odds(proportion) {
        Ok(_) => {},
        Err(e) => return Err(e),
    }
    let rate_scalar = match calc_rate_scalar(market_state.scalar_root, time_to_expiry) {
        Ok(s) => s,
        Err(e) => return Err(e),
    };
    let rate_anchor = match calc_rate_anchor(last_exchange_rate, ln_proportion, rate_scalar) {
        Ok(a) => a,
        Err(e) => return Err(e),
    };
    Ok(MarketCompute { rate_scalar, rate_anchor, total_pt_amount, total_base_asset_amount })
}

/// The model of `exchange_rate_from_state`.
pub open spec fn state_exchange_rate_model(
    total_pt: int,
    total_base_asset: int,
    rate_anchor: int,
    rate_scalar: int,
    ln_proportion: int,
) -> Result<int, Failure> {
    match proportion_model(0, total_pt, total_base_asset) {
        Err(e) => Err(e),
        Ok(p) => match odds_model(p) {
            Err(e) => Err(e),
            Ok(_) => exchange_rate_model(ln_proportion, rate_anchor, rate_scalar),
        },
    }
}

/// The exchange rate at the zero-trade proportion of the given reserves, on
/// the curve of `rate_anchor` and `rate_scalar`. `ln_proportion` is the
/// natural log of that proportion's `proportion_odds`. The natural log of the
/// result, passed to `annualise_ln_exchange_rate`, gives the market's new log
/// implied rate.
pub fn exchange_rate_from_state(
    current_total_pt: Decimal,
    current_total_base_asset: Decimal,
    rate_anchor: PreciseDecimal,
    rate_scalar: Decimal,
    ln_proportion: PreciseDecimal,
) -> (r: Result<PreciseDecimal, MarketError>)
    ensures
        pdec_outcome(r) == state_exchange_rate_model(
            current_total_pt.value(),
            current_total_base_asset.value(),
            rate_anchor.value(),
            rate_scalar.value(),
            ln_proportion.value(),
        ),
        r matches Ok(rate) ==> rate.value() >= pdec_unit(),
{
    let proportion = match calc_proportion(
        Decimal::from_int(0),
        current_total_pt,
        current_total_base_asset,
    ) {
        Ok(p) => p,
        Err(e) => return Err(e),
    };
    match proportion_odds(proportion) {
        Ok(_) => {},
        Err(e) => return Err(e),
    }
    calc_exchange_rate(ln_proportion, rate_anchor, rate_scalar)
}

/// The pre-fee asset amount model: `-(net_pt_amount / exchange_rate)`, rounded
/// half to even at `places` decimal places.
pub open spec fn pre_fee_amount_model(net_pt_amount: int, exchange_rate: int, places: nat) -> Option<
    int,
> {
    match pdec_div_model(net_pt_amount * dec_unit(), exchange_rate) {
        None => None,
        Some(q) => match pdec_checked(-q) {
            None => None,
            Some(n) => pdec_round_model(n, places),
        },
    }
}

/// The fee split model: the reserve fee `round(total_fees *
/// reserve_fee_percent)` and the trading fee `round(total_fees -
/// reserve_fee)`.
pub open spec fn fee_split_model(total_fees: int, reserve_fee_percent: int, places: nat) -> Option<
    (int, int),
> {
    match pdec_mul_model(total_fees, reserve_fee_percent * dec_unit()) {
        None => None,
        Some(m) => match pdec_round_model(m, places) {
            None => None,
            Some(reserve) => match pdec_checked(total_fees - reserve) {
                None => None,
                Some(d) => match pdec_round_model(d, places) {
                    None => None,
                    Some(trading) => Some((reserve, trading)),
                },
            },
        },
    }
}

/// The net amount model: `round(pre_fee_amount - trading_fee)`, then, when
/// negative (asset into the pool), `round(|that + reserve_fee|)`, and
/// otherwise `round(that - reserve_fee)`; finally truncated to 18 places.
pub open spec fn net_amount_model(
    pre_fee_amount: int,
    trading_fee: int,
    reserve_fee: int,
    places: nat,
) -> Option<int> {
    let corrected = match pdec_checked(pre_fee_amount - trading_fee) {
        None => None,
        Some(d) => match pdec_round_model(d, places) {
            None => None,
            Some(n) => if n < 0 {
                match pdec_checked(n + reserve_fee) {
                    None => None,
                    Some(t) => match pdec_checked(abs(t)) {
                        None => None,
                        Some(a) => pdec_round_model(a, places),
                    },
                }
            } else {
                match pdec_checked(n - reserve_fee) {
                    None => None,
                    Some(t) => pdec_round_model(t, places),
                }
            },
        },
    };
    match corrected {
        None => None,
        Some(c) => dec_checked(tdiv(c, dec_unit())),
    }
}

/// The model of `calc_trade`.
pub open spec fn trade_model(
    net_pt_amount: int,
    total_pt: int,
    total_base_asset: int,
    rate_anchor: int,
    rate_scalar: int,
    reserve_fee_percent: int,
    places: nat,
    ln_proportion: int,
    fee_rate: int,
) -> Result<TradeModel, Failure> {
    match proportion_model(net_pt_amount, total_pt, total_base_asset) {
        Err(e) => Err(e),
        Ok(p) => if p > MAX_MARKET_PROPORTION_ATTOS {
            Err(Failure::MaxMarketProportionReached(p))
        } else {
            match odds_model(p) {
                Err(e) => Err(e),
                Ok(_) => match exchange_rate_model(ln_proportion, rate_anchor, rate_scalar) {
                    Err(e) => Err(e),
                    Ok(rate) => match pre_fee_amount_model(net_pt_amount, rate, places) {
                        None => Err(Failure::ArithmeticError),
                        Some(pre) => match fee_model(fee_rate, net_pt_amount, rate, pre) {
                            Err(e) => Err(e),
                            Ok(total) => match fee_split_model(
                                total,
                                reserve_fee_percent,
                                places,
                            ) {
                                None => Err(Failure::ArithmeticError),
                                Some((reserve, trading)) => match net_amount_model(
                                    pre,
                                    trading,
                                    reserve,
                                    places,
                                ) {
                                    None => Err(Failure::ArithmeticError),
                                    Some(amount) => Ok(
                                        TradeModel {
                                            net_amount: amount,
                                            pre_fee_exchange_rate: rate,
                                            total_fees: total,
                                            reserve_fee: reserve,
                                            trading_fee: trading,
                                        },
                                    ),
                                },
                            },
                        },
                    },
                },
            }
        },
    }
}

/// The amounts of a trade of `net_pt_amount` PT out of the pool (a negative
/// amount puts PT in), on the curve of `market_compute`. `ln_proportion` is
/// the natural log of the `proportion_odds` of the proportion after the trade,
/// `fee_rate` the exponential of the `implied_rate_exponent` of the market's
/// log fee rate, and `divisibility` the decimal places of the asset, at which
/// every amount is rounded half to even.
pub fn calc_trade(
    net_pt_amount: Decimal,
    market_compute: &MarketCompute,
    market_fee: &MarketFee,
    divisibility: u8,
    ln_proportion: PreciseDecimal,
    fee_rate: PreciseDecimal,
) -> (r: Result<Trade, MarketError>)
    requires
        divisibility <= 18,
    ensures
        match r {
            Ok(t) => trade_model(
                net_pt_amount.value(),
                market_compute.total_pt_amount.value(),
                market_compute.total_base_asset_amount.value(),
                market_compute.rate_anchor.value(),
                market_compute.rate_scalar.value(),
                market_fee.reserve_fee_percent.value(),
                divisibility as nat,
                ln_proportion.value(),
                fee_rate.value(),
            ) == Ok::<TradeModel, Failure>(t.model()),
            Err(e) => trade_model(
                net_pt_amount.value(),
                market_compute.total_pt_amount.value(),
                market_compute.total_base_asset_amount.value(),
                market_compute.rate_anchor.value(),
                market_compute.rate_scalar.value(),
                market_fee.reserve_fee_percent.value(),
                divisibility as nat,
                ln_proportion.value(),
                fee_rate.value(),
            ) == Err::<TradeModel, Failure>(e@),
        },
        proportion_model(
            net_pt_amount.value(),
            market_compute.total_pt_amount.value(),
            market_compute.total_base_asset_amount.value(),
        ) matches Ok(p) && p > MAX_MARKET_PROPORTION_ATTOS ==> r matches Err(
            MarketError::MaxMarketProportionReached(_),
        ),
{
    let proportion = match calc_proportion(
        net_pt_amount,
        market_compute.total_pt_amount,
        market_compute.total_base_asset_amount,
    ) {
        Ok(p) => p,
        Err(e) => return Err(e),
    };
    if max_market_proportion().lt(&proportion) {
        return Err(MarketError::MaxMarketProportionReached(proportion));
    }
    match proportion_odds(proportion) {
        Ok(_) => {},
        Err(e) => return Err(e),
    }
    let rate = match calc_exchange_rate(
        ln_proportion,
        market_compute.rate_anchor,
        market_compute.rate_scalar,
    ) {
        Ok(e) => e,
        Err(e) => return Err(e),
    };
    let pre_fee_amount = match net_pt_amount.to_precise().checked_div(&rate) {
        None => return Err(MarketError::ArithmeticError),
        Some(q) => match q.checked_neg() {
            None => return Err(MarketError::ArithmeticError),
            Some(n) => match n.checked_round_half_even(divisibility) {
                None => return Err(MarketError::ArithmeticError),
                Some(a) => a,
            },
        },
    };
    let total_fees = match calc_fee(fee_rate, net_pt_amount, rate, pre_fee_amount) {
        Ok(f) => f,
        Err(e) => return Err(e),
    };
    let reserve_fee = match total_fees.checked_mul(&market_fee.reserve_fee_percent.to_precise()) {
        None => return Err(MarketError::ArithmeticError),
        Some(m) => match m.checked_round_half_even(divisibility) {
            None => return Err(MarketError::ArithmeticError),
            Some(f) => f,
        },
    };
    let trading_fee = match total_fees.checked_sub(&reserve_fee) {
        None => return Err(MarketError::ArithmeticError),
        Some(d) => match d.checked_round_half_even(divisibility) {
            None => return Err(MarketError::ArithmeticError),
            Some(f) => f,
        },
    };
    let signed = match pre_fee_amount.checked_sub(&trading_fee) {
        None => return Err(MarketError::ArithmeticError),
        Some(d) => match d.checked_round_half_even(divisibility) {
            None => return Err(MarketError::ArithmeticError),
            Some(n) => n,
        },
    };
    let corrected = if signed.is_negative() {
        // Asset into the pool: the reserve fee is added to what the trader pays.
        match signed.checked_add(&reserve_fee) {
            None => return Err(MarketError::ArithmeticError),
            Some(t) => match t.checked_abs() {
                None => return Err(MarketError::ArithmeticError),
                Some(a) => match a.checked_round_half_even(divisibility) {
                    None => return Err(MarketError::ArithmeticError),
                    Some(c) => c,
                },
            },
        }
    } else {
        // Asset out of the pool: the reserve fee is taken from what it pays.
        match signed.checked_sub(&reserve_fee) {
            None => return Err(MarketError::ArithmeticError),
            Some(t) => match t.checked_round_half_even(divisibility) {
                None => return Err(MarketError::ArithmeticError),
                Some(c) => c,
            },
        }
    };
    let net_amount = match corrected.to_decimal() {
        Some(n) => n,
        None => return Err(MarketError::ArithmeticError),
    };
    Ok(Trade { net_amount, pre_fee_exchange_rate: rate, total_fees, reserve_fee, trading_fee })
}

/// A market: its curve state, fee parameters, fee statistics, maturity date
/// (seconds since the Unix epoch) and whether trading is switched on.
///
/// It starts uninitialised (`last_ln_implied_rate` zero), becomes active once
/// `set_initial_ln_implied_rate` has run, and is expired from its maturity
/// date on, when no trade or initialisation is accepted.
#[derive(Clone, Copy, Debug, PartialEq, Eq)]
pub struct Market {
    pub market_state: MarketState,
    pub market_fee: MarketFee,
    pub pool_stat: PoolStat,
    pub maturity_date: i64,
    pub market_is_active: bool,
}

/// The parameters a market may be created with.
pub open spec fn valid_market_parameters(scalar_root: int, fee_rate: int, reserve_fee_percent: int) -> bool {
    &&& scalar_root > 0
    &&& fee_rate > 0
    &&& 0 < reserve_fee_percent < dec_unit()
}

impl Market {
    /// The market's invariant: a positive scalar root and a reserve share in
    /// (0, 1).
    pub open spec fn wf(&self) -> bool {
        &&& self.market_state.scalar_root.value() > 0
        &&& 0 < self.market_fee.reserve_fee_percent.value() < dec_unit()
    }

    /// A new, uninitialised and active market. `ln_fee_rate` is the natural
    /// log of `market_fee_input.fee_rate`. The parameters must be valid and
    /// the maturity date still ahead of `now`.
    pub fn instantiate(
        initial_rate_anchor: PreciseDecimal,
        scalar_root: Decimal,
        market_fee_input: &MarketFeeInput,
        ln_fee_rate: PreciseDecimal,
        maturity_date: i64,
        now: i64,
    ) -> (r: Result<Market, MarketError>)
        ensures
            !valid_market_parameters(
                scalar_root.value(),
                market_fee_input.fee_rate.value(),
                market_fee_input.reserve_fee_percent.value(),
            ) ==> r == Err::<Market, MarketError>(MarketError::InvalidMarketParameters),
            valid_market_parameters(
                scalar_root.value(),
                market_fee_input.fee_rate.value(),
                market_fee_input.reserve_fee_percent.value(),
            ) && now >= maturity_date ==> r == Err::<Market, MarketError>(
                MarketError::MarketExpired,
            ),
            (r is Ok) <==> (valid_market_parameters(
                scalar_root.value(),
                market_fee_input.fee_rate.value(),
                market_fee_input.reserve_fee_percent.value(),
            ) && now < maturity_date),
            r matches Ok(m) ==> {
                &&& m.wf()
                &&& m.market_state.initial_rate_anchor == initial_rate_anchor
                &&& m.market_state.scalar_root == scalar_root
                &&& m.market_state.last_ln_implied_rate.value() == 0
                &&& m.market_fee.ln_fee_rate == ln_fee_rate
                &&& m.market_fee.reserve_fee_percent == market_fee_input.reserve_fee_percent
                &&& m.pool_stat.trading_fees_collected.value() == 0
                &&& m.pool_stat.reserve_fees_collected.value() == 0
                &&& m.pool_stat.total_fees_collected.value() == 0
                &&& m.maturity_date == maturity_date
                &&& m.market_is_active
            },
    {
        let zero = Decimal::from_int(0);
        let one = Decimal::from_int(1);
        if !zero.lt(&scalar_root) || !zero.lt(&market_fee_input.fee_rate) || !zero.lt(
            &market_fee_input.reserve_fee_percent,
        ) || !market_fee_input.reserve_fee_percent.lt(&one) {
            return Err(MarketError::InvalidMarketParameters);
        }
        if now >= maturity_date {
            return Err(MarketError::MarketExpired);
        }
        let none = PreciseDecimal::from_int(0);
        Ok(Market {
            market_state: MarketState {
                initial_rate_anchor,
                scalar_root,
                last_ln_implied_rate: none,
            },
            market_fee: MarketFee {
                ln_fee_rate,
                reserve_fee_percent: market_fee_input.reserve_fee_percent,
            },
            pool_stat: PoolStat {
                trading_fees_collected: none,
                reserve_fees_collected: none,
                total_fees_collected: none,
            },
            maturity_date,
            market_is_active: true,
        })
    }

    /// Seconds from `now` to the maturity date; negative once it has passed.
    pub fn time_to_expiry(&self, now: i64) -> (r: i64)
        requires
            i64::MIN <= self.maturity_date - now <= i64::MAX,
        ensures
            r == self.maturity_date - now,
    {
        self.maturity_date - now
    }

    /// Whether the maturity date has been reached at `now`.
    pub fn check_maturity(&self, now: i64) -> (r: bool)
        ensures
            r == (now >= self.maturity_date),
    {
        now >= self.maturity_date
    }

    /// The market's curve state.
    pub fn get_market_state(&self) -> (r: MarketState)
        ensures
            r == self.market_state,
    {
        self.market_state
    }

    /// Switches trading on or off.
    pub fn change_market_status(&mut self, status: bool)
        ensures
            *final(self) == (Market { market_is_active: status, ..*old(self) }),
    {
        self.market_is_active = status;
    }

    /// Whether a trade may start at `now`: the time to expiry, when the market
    /// has not matured and trading is on.
    pub fn begin_trade(&self, now: i64) -> (r: Result<i64, MarketError>)
        ensures
            now >= self.maturity_date ==> r == Err::<i64, MarketError>(MarketError::MarketExpired),
            now < self.maturity_date && !self.market_is_active ==> r == Err::<i64, MarketError>(
                MarketError::MarketInactive,
            ),
            now < self.maturity_date && self.market_is_active && self.maturity_date - now
                <= i64::MAX ==> r == Ok::<i64, MarketError>((self.maturity_date - now) as i64),
            now < self.maturity_date && self.market_is_active && self.maturity_date - now
                > i64::MAX ==> r == Err::<i64, MarketError>(MarketError::ArithmeticError),
            r matches Ok(t) ==> t > 0,
    {
        if now >= self.maturity_date {
            return Err(MarketError::MarketExpired);
        }
        if !self.market_is_active {
            return Err(MarketError::MarketInactive);
        }
        let t: i128 = self.maturity_date as i128 - now as i128;
        if t > i64::MAX as i128 {
            return Err(MarketError::ArithmeticError);
        }
        Ok(t as i64)
    }

    /// Sets the first log implied rate, computed with the initial rate anchor.
    /// Accepted once, before maturity.
    pub fn set_initial_ln_implied_rate(&mut self, now: i64, ln_implied_rate: PreciseDecimal) -> (r:
        Result<(), MarketError>)
        ensures
            now >= old(self).maturity_date ==> r == Err::<(), MarketError>(
                MarketError::MarketExpired,
            ),
            now < old(self).maturity_date && old(self).market_state.last_ln_implied_rate.value()
                != 0 ==> r == Err::<(), MarketError>(MarketError::AlreadyInitialized),
            (r is Ok) <==> (now < old(self).maturity_date
                && old(self).market_state.last_ln_implied_rate.value() == 0),
            r is Ok ==> *final(self) == (Market {
                market_state: MarketState {
                    last_ln_implied_rate: ln_implied_rate,
                    ..old(self).market_state
                },
                ..*old(self)
            }),
            r is Err ==> *final(self) == *old(self),
    {
        if now >= self.maturity_date {
            return Err(MarketError::MarketExpired);
        }
        if self.market_state.last_ln_implied_rate.is_negative()
            || PreciseDecimal::from_int(0).lt(&self.market_state.last_ln_implied_rate) {
            return Err(MarketError::AlreadyInitialized);
        }
        self.market_state.last_ln_implied_rate = ln_implied_rate;
        Ok(())
    }

    /// Adds one trade's fees to the collected totals; on overflow nothing
    /// changes.
    pub fn update_pool_stat(
        &mut self,
        trading_fees: PreciseDecimal,
        reserve_fees: PreciseDecimal,
        total_fees: PreciseDecimal,
    ) -> (r: Result<(), MarketError>)
        ensures
            (r is Ok) <==> (pdec_checked(
                old(self).pool_stat.trading_fees_collected.value() + trading_fees.value(),
            ) is Some && pdec_checked(
                old(self).pool_stat.reserve_fees_collected.value() + reserve_fees.value(),
            ) is Some && pdec_checked(
                old(self).pool_stat.total_fees_collected.value() + total_fees.value(),
            ) is Some),
            r is Ok ==> {
                &&& final(self).pool_stat.trading_fees_collected.value() == old(
                    self,
                ).pool_stat.trading_fees_collected.value() + trading_fees.value()
                &&& final(self).pool_stat.reserve_fees_collected.value() == old(
                    self,
                ).pool_stat.reserve_fees_collected.value() + reserve_fees.value()
                &&& final(self).pool_stat.total_fees_collected.value() == old(
                    self,
                ).pool_stat.total_fees_collected.value() + total_fees.value()
                &&& final(self).market_state == old(self).market_state
                &&& final(self).market_fee == old(self).market_fee
                &&& final(self).maturity_date == old(self).maturity_date
                &&& final(self).market_is_active == old(self).market_is_active
            },
            r is Err ==> r == Err::<(), MarketError>(MarketError::ArithmeticError) && *final(self)
                == *old(self),
    {
        let trading = match self.pool_stat.trading_fees_collected.checked_add(&trading_fees) {
            Some(v) => v,
            None => return Err(MarketError::ArithmeticError),
        };
        let reserve = match self.pool_stat.reserve_fees_collected.checked_add(&reserve_fees) {
            Some(v) => v,
            None => return Err(MarketError::ArithmeticError),
        };
        let total = match self.pool_stat.total_fees_collected.checked_add(&total_fees) {
            Some(v) => v,
            None => return Err(MarketError::ArithmeticError),
        };
        self.pool_stat = PoolStat {
            trading_fees_collected: trading,
            reserve_fees_collected: reserve,
            total_fees_collected: total,
        };
        Ok(())
    }

    /// Records a settled trade: adds its fees to the totals and stores the new
    /// log implied rate. Rejected at or after maturity and while trading is
    /// off; on any error nothing changes.
    pub fn record_trade(&mut self, now: i64, trade: &Trade, new_ln_implied_rate: PreciseDecimal) -> (r:
        Result<(), MarketError>)
        ensures
            now >= old(self).maturity_date ==> r == Err::<(), MarketError>(
                MarketError::MarketExpired,
            ),
            now < old(self).maturity_date && !old(self).market_is_active ==> r == Err::<
                (),
                MarketError,
            >(MarketError::MarketInactive),
            r is Ok ==> {
                &&& final(self).pool_stat.trading_fees_collected.value() == old(
                    self,
                ).pool_stat.trading_fees_collected.value() + trade.trading_fee.value()
                &&& final(self).pool_stat.reserve_fees_collected.value() == old(
                    self,
                ).pool_stat.reserve_fees_collected.value() + trade.reserve_fee.value()
                &&& final(self).pool_stat.total_fees_collected.value() == old(
                    self,
                ).pool_stat.total_fees_collected.value() + trade.total_fees.value()
                &&& final(self).market_state == (MarketState {
                    last_ln_implied_rate: new_ln_implied_rate,
                    ..old(self).market_state
                })
                &&& final(self).market_fee == old(self).market_fee
                &&& final(self).maturity_date == old(self).maturity_date
                &&& final(self).market_is_active == old(self).market_is_active
            },
            (r is Ok) <==> (now < old(self).maturity_date && old(self).market_is_active
                && pdec_checked(
                old(self).pool_stat.trading_fees_collected.value() + trade.trading_fee.value(),
            ) is Some && pdec_checked(
                old(self).pool_stat.reserve_fees_collected.value() + trade.reserve_fee.value(),
            ) is Some && pdec_checked(
                old(self).pool_stat.total_fees_collected.value() + trade.total_fees.value(),
            ) is Some),
            r is Err ==> *final(self) == *old(self),
    {
        if now >= self.maturity_date {
            return Err(MarketError::MarketExpired);
        }
        if !self.market_is_active {
            return Err(MarketError::MarketInactive);
        }
        match self.update_pool_stat(trade.trading_fee, trade.reserve_fee, trade.total_fees) {
            Ok(()) => {},
            Err(e) => return Err(e),
        }
        self.market_state.last_ln_implied_rate = new_ln_implied_rate;
        Ok(())
    }
}

/// The model of `yt_all_in_exchange_rate`.
pub open spec fn yt_all_in_model(yt_exchange_rate: int) -> Result<int, Failure> {
    if dec_checked(dec_unit() - yt_exchange_rate) is None {
        Err(Failure::ArithmeticError)
    } else {
        match dec_div_model(dec_unit(), dec_unit() - yt_exchange_rate) {
            None => Ok(dec_unit()),
            Some(q) => if q < 0 {
                Ok(dec_unit())
            } else {
                Ok(q)
            },
        }
    }
}

/// The all-in exchange rate, in PT terms, of a YT trade that exchanged
/// `yt_exchange_rate` asset per YT: `1 / (1 - yt_exchange_rate)`, or 1 where
/// that is negative or undefined.
pub fn yt_all_in_exchange_rate(yt_exchange_rate: Decimal) -> (r: Result<Decimal, MarketError>)
    ensures
        dec_outcome(r) == yt_all_in_model(yt_exchange_rate.value()),
        r matches Ok(rate) ==> rate.value() >= 0,
{
    let one = Decimal::from_int(1);
    let rest = match one.checked_sub(&yt_exchange_rate) {
        Some(d) => d,
        None => return Err(MarketError::ArithmeticError),
    };
    match one.checked_div(&rest) {
        Some(q) => if q.is_negative() {
            Ok(one)
        } else {
            Ok(q)
        },
        None => Ok(one),
    }
}

} // verus!
