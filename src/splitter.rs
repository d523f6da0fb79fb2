//! The principal/yield splitter's yield accounting: what a yield token (YT)
//! position has earned as the underlying asset's redemption factor grows, and
//! what a redemption of principal tokens (PT) pays out.

use crate::numeric::{
    dec_checked, dec_opt, dec_unit, pdec_checked, pdec_div_model, pdec_mul_model, pdec_opt,
    pdec_round_toward_zero_model, pdec_unit, tdiv, Decimal, PreciseDecimal,
};
use vstd::prelude::*;

verus! {

/// The amounts recorded on one YT position.
#[derive(Clone, Copy, Debug, PartialEq, Eq)]
pub struct YieldTokenData {
    /// The redemption factor when the position last claimed or changed.
    pub last_claim_redemption_factor: Decimal,
    pub yt_amount: Decimal,
    pub yield_claimed: Decimal,
    /// Yield earned and not yet paid out.
    pub accrued_yield: Decimal,
}

/// How a redemption of PT with YT is settled.
#[derive(Clone, Copy, Debug, PartialEq, Eq)]
pub enum RedemptionStrategy {
    /// All of the position's YT is redeemed.
    FullRedemption,
    /// Part of it is redeemed before maturity.
    PartialRedemption,
    /// Part of it is redeemed at or after maturity.
    ExpiredMarket,
}

/// The redemption factor as the splitter tracks it: its value, whether it was
/// locked at maturity, and when it was last updated (seconds since the Unix
/// epoch).
#[derive(Clone, Copy, Debug, PartialEq, Eq)]
pub struct RedemptionFactorState {
    pub redemption_factor: Decimal,
    pub locked: bool,
    pub last_updated: i64,
}

/// The yield model: `(yt_amount + accrued_yield) * (redemption_factor /
/// last_claim_redemption_factor - 1)`, at 36 decimal places.
pub open spec fn yield_owed_model(
    redemption_factor: int,
    last_claim_redemption_factor: int,
    yt_amount: int,
    accrued_yield: int,
) -> Option<int> {
    match pdec_div_model(
        redemption_factor * dec_unit(),
        last_claim_redemption_factor * dec_unit(),
    ) {
        None => None,
        Some(growth) => if pdec_checked(growth - pdec_unit()) is None {
            None
        } else if pdec_checked((yt_amount + accrued_yield) * dec_unit()) is None {
            None
        } else {
            pdec_mul_model((yt_amount + accrued_yield) * dec_unit(), growth - pdec_unit())
        },
    }
}

/// The total yield model: the yield plus the accrued yield, rounded half
/// toward zero at `places` decimal places and truncated to 18.
pub open spec fn total_yield_owed_model(
    redemption_factor: int,
    last_claim_redemption_factor: int,
    yt_amount: int,
    accrued_yield: int,
    places: nat,
) -> Option<int> {
    match yield_owed_model(redemption_factor, last_claim_redemption_factor, yt_amount, accrued_yield) {
        None => None,
        Some(y) => if pdec_checked(y + accrued_yield * dec_unit()) is None {
            None
        } else {
            match pdec_round_toward_zero_model(y + accrued_yield * dec_unit(), places) {
                None => None,
                Some(v) => dec_checked(tdiv(v, dec_unit())),
            }
        },
    }
}

/// The yield that `yt_amount` YT of the position has earned since its last
/// claim, at the current `redemption_factor`.
pub fn calc_yield_owed(redemption_factor: Decimal, yt_data: &YieldTokenData, yt_amount: Decimal) -> (r:
    Option<PreciseDecimal>)
    ensures
        pdec_opt(r) == yield_owed_model(
            redemption_factor.value(),
            yt_data.last_claim_redemption_factor.value(),
            yt_amount.value(),
            yt_data.accrued_yield.value(),
        ),
{
    let current = redemption_factor.to_precise();
    let last = yt_data.last_claim_redemption_factor.to_precise();
    let growth = match current.checked_div(&last) {
        Some(g) => g,
        None => return None,
    };
    let factor = match growth.checked_sub(&PreciseDecimal::from_int(1)) {
        Some(f) => f,
        None => return None,
    };
    let amount = match yt_amount.to_precise().checked_add(&yt_data.accrued_yield.to_precise()) {
        Some(a) => a,
        None => return None,
    };
    amount.checked_mul(&factor)
}

/// The yield owed plus the accrued yield, rounded to the asset's
/// `divisibility`.
pub fn calc_total_yield_owed(
    redemption_factor: Decimal,
    yt_data: &YieldTokenData,
    yt_amount: Decimal,
    divisibility: u8,
) -> (r: Option<Decimal>)
    requires
        divisibility <= 18,
    ensures
        dec_opt(r) == total_yield_owed_model(
            redemption_factor.value(),
            yt_data.last_claim_redemption_factor.value(),
            yt_amount.value(),
            yt_data.accrued_yield.value(),
            divisibility as nat,
        ),
{
    let owed = match calc_yield_owed(redemption_factor, yt_data, yt_amount) {
        Some(y) => y,
        None => return None,
    };
    let total = match owed.checked_add(&yt_data.accrued_yield.to_precise()) {
        Some(t) => t,
        None => return None,
    };
    match total.checked_round_half_toward_zero(divisibility) {
        Some(v) => v.to_decimal(),
        None => None,
    }
}

/// Whether the redemption takes the whole position, happens after maturity,
/// or takes part of it before.
pub fn determine_redemption_strategy(
    yt_amount_to_redeem: Decimal,
    yt_data: &YieldTokenData,
    market_expired: bool,
) -> (r: RedemptionStrategy)
    ensures
        yt_amount_to_redeem.value() == yt_data.yt_amount.value() ==> r
            == RedemptionStrategy::FullRedemption,
        yt_amount_to_redeem.value() != yt_data.yt_amount.value() && market_expired ==> r
            == RedemptionStrategy::ExpiredMarket,
        yt_amount_to_redeem.value() != yt_data.yt_amount.value() && !market_expired ==> r
            == RedemptionStrategy::PartialRedemption,
{
    if !yt_amount_to_redeem.lt(&yt_data.yt_amount) && !yt_data.yt_amount.lt(&yt_amount_to_redeem) {
        RedemptionStrategy::FullRedemption
    } else if market_expired {
        RedemptionStrategy::ExpiredMarket
    } else {
        RedemptionStrategy::PartialRedemption
    }
}

/// The model of `redemption_amounts`: the yield left accrued on the position
/// and the total value the redemption pays.
pub open spec fn redemption_model(
    strategy: RedemptionStrategy,
    redemption_factor: int,
    last_claim_redemption_factor: int,
    position_yt_amount: int,
    accrued_yield: int,
    pt_amount: int,
    places: nat,
) -> Option<(int, int)> {
    let whole = total_yield_owed_model(
        redemption_factor,
        last_claim_redemption_factor,
        position_yt_amount,
        accrued_yield,
        places,
    );
    match strategy {
        RedemptionStrategy::FullRedemption => if pt_amount != position_yt_amount {
            None
        } else {
            match whole {
                None => None,
                Some(y) => match dec_checked(position_yt_amount + y) {
                    None => None,
                    Some(v) => Some((0, v)),
                },
            }
        },
        RedemptionStrategy::ExpiredMarket => match whole {
            None => None,
            Some(y) => match dec_checked(pt_amount + y) {
                None => None,
                Some(v) => Some((0, v)),
            },
        },
        RedemptionStrategy::PartialRedemption => match yield_owed_model(
            redemption_factor,
            last_claim_redemption_factor,
            pt_amount,
            accrued_yield,
        ) {
            None => None,
            Some(p) => match pdec_round_toward_zero_model(p, places) {
                None => None,
                Some(pr) => match dec_checked(tdiv(pr, dec_unit())) {
                    None => None,
                    Some(share) => match (dec_checked(pt_amount + share), whole) {
                        (Some(value), Some(y)) => match dec_checked(y - share) {
                            None => None,
                            Some(left) => Some((left, value)),
                        },
                        _ => None,
                    },
                },
            },
        },
    }
}

/// What redeeming `pt_amount` PT with the position's YT pays under
/// `strategy`: the yield left accrued on the position and the total value
/// paid (principal plus yield). A full redemption must redeem exactly the
/// position's YT amount.
pub fn redemption_amounts(
    strategy: RedemptionStrategy,
    redemption_factor: Decimal,
    yt_data: &YieldTokenData,
    pt_amount: Decimal,
    divisibility: u8,
) -> (r: Option<(Decimal, Decimal)>)
    requires
        divisibility <= 18,
    ensures
        match r {
            Some((left, value)) => redemption_model(
                strategy,
                redemption_factor.value(),
                yt_data.last_claim_redemption_factor.value(),
                yt_data.yt_amount.value(),
                yt_data.accrued_yield.value(),
                pt_amount.value(),
                divisibility as nat,
            ) == Some((left.value(), value.value())),
            None => redemption_model(
                strategy,
                redemption_factor.value(),
                yt_data.last_claim_redemption_factor.value(),
                yt_data.yt_amount.value(),
                yt_data.accrued_yield.value(),
                pt_amount.value(),
                divisibility as nat,
            ) is None,
        },
{
    let zero = Decimal::from_int(0);
    match strategy {
        RedemptionStrategy::FullRedemption => {
            if pt_amount.lt(&yt_data.yt_amount) || yt_data.yt_amount.lt(&pt_amount) {
                return None;
            }
            let owed = match calc_total_yield_owed(
                redemption_factor,
                yt_data,
                yt_data.yt_amount,
                divisibility,
            ) {
                Some(y) => y,
                None => return None,
            };
            match yt_data.yt_amount.checked_add(&owed) {
                Some(v) => Some((zero, v)),
                None => None,
            }
        },
        RedemptionStrategy::ExpiredMarket => {
            let owed = match calc_total_yield_owed(
                redemption_factor,
                yt_data,
                yt_data.yt_amount,
                divisibility,
            ) {
                Some(y) => y,
                None => return None,
            };
            match pt_amount.checked_add(&owed) {
                Some(v) => Some((zero, v)),
                None => None,
            }
        },
        RedemptionStrategy::PartialRedemption => {
            let share = match calc_yield_owed(redemption_factor, yt_data, pt_amount) {
                None => return None,
                Some(p) => match p.checked_round_half_toward_zero(divisibility) {
                    None => return None,
                    Some(pr) => match pr.to_decimal() {
                        None => return None,
                        Some(s) => s,
                    },
                },
            };
            let value = match pt_amount.checked_add(&share) {
                Some(v) => v,
                None => return None,
            };
            let whole = match calc_total_yield_owed(
                redemption_factor,
                yt_data,
                yt_data.yt_amount,
                divisibility,
            ) {
                Some(y) => y,
                None => return None,
            };
            match whole.checked_sub(&share) {
                Some(left) => Some((left, value)),
                None => None,
            }
        },
    }
}

/// Brings the redemption factor up to date at `now`. At or after maturity the
/// factor is locked, once, at the asset's `current_factor`; before maturity
/// it follows `current_factor` whenever time has moved on and the splitter
/// holds some asset.
pub fn update_redemption_factor(
    state: &mut RedemptionFactorState,
    now: i64,
    maturity_date: i64,
    asset_vault_positive: bool,
    current_factor: Decimal,
)
    ensures
        now >= maturity_date && !old(state).locked ==> *final(state) == (RedemptionFactorState {
            redemption_factor: current_factor,
            locked: true,
            last_updated: now,
        }),
        now >= maturity_date && old(state).locked ==> *final(state) == *old(state),
        now < maturity_date && now > old(state).last_updated && asset_vault_positive
            ==> *final(state) == (RedemptionFactorState {
            redemption_factor: current_factor,
            last_updated: now,
            ..*old(state)
        }),
        now < maturity_date && (now <= old(state).last_updated || !asset_vault_positive)
            ==> *final(state) == *old(state),
{
    if now >= maturity_date {
        if !state.locked {
            state.redemption_factor = current_factor;
            state.locked = true;
            state.last_updated = now;
        }
        return;
    }
    if now > state.last_updated && asset_vault_positive {
        state.redemption_factor = current_factor;
        state.last_updated = now;
    }
}

} // verus!
