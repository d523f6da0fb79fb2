//! Properties that relate several of the library's functions, proved over
//! their models.

use crate::curve::{exchange_rate_model, fee_model, odds_model, proportion_model};
use crate::error::Failure;
use crate::market::{
    compute_market_model, fee_split_model, pre_fee_amount_model, state_exchange_rate_model,
    trade_model,
};
use crate::numeric::{dec_unit, pdec_checked, pdec_unit, pow10, round_half_even, tdiv};
use vstd::arithmetic::div_mod::{
    lemma_div_is_ordered, lemma_div_is_ordered_by_denominator, lemma_fundamental_div_mod,
    lemma_mod_multiples_basic,
};
use vstd::prelude::*;

verus! {

/// Interest-rate continuity: once `compute_market` has derived a curve from
/// a last exchange rate, the exchange rate of that curve at the same reserves
/// is exactly that last exchange rate.
pub proof fn law_interest_rate_continuity(
    scalar_root: int,
    total_pt: int,
    total_base_asset: int,
    time_to_expiry: int,
    last_exchange_rate: int,
    ln_proportion: int,
)
    requires
        pdec_checked(last_exchange_rate) is Some,
        compute_market_model(
            scalar_root,
            total_pt,
            total_base_asset,
            time_to_expiry,
            last_exchange_rate,
            ln_proportion,
        ) is Ok,
    ensures
        ({
            let (rate_scalar, rate_anchor) = compute_market_model(
                scalar_root,
                total_pt,
                total_base_asset,
                time_to_expiry,
                last_exchange_rate,
                ln_proportion,
            )->Ok_0;
            state_exchange_rate_model(
                total_pt,
                total_base_asset,
                rate_anchor,
                rate_scalar,
                ln_proportion,
            ) == Ok::<int, Failure>(last_exchange_rate)
        }),
{
}

proof fn lemma_pow10_positive(n: nat)
    ensures
        pow10(n) > 0,
    decreases n,
{
    if n > 0 {
        lemma_pow10_positive((n - 1) as nat);
    }
}

/// Rounding half to even gives a multiple of the unit within half a unit of
/// the input, keeps multiples unchanged and keeps the sign.
proof fn lemma_round_half_even(x: int, unit: int)
    requires
        unit > 0,
    ensures
        round_half_even(x, unit) % unit == 0,
        -unit <= 2 * (round_half_even(x, unit) - x) <= unit,
        x % unit == 0 ==> round_half_even(x, unit) == x,
        x >= 0 ==> round_half_even(x, unit) >= 0,
        x <= 0 ==> round_half_even(x, unit) <= 0,
{
    let q = x / unit;
    let r = x % unit;
    lemma_fundamental_div_mod(x, unit);
    assert(0 <= r < unit);
    lemma_mod_multiples_basic(q, unit);
    lemma_mod_multiples_basic(q + 1, unit);
    assert((q + 1) * unit == q * unit + unit) by (nonlinear_arith);
    assert(unit * q == q * unit) by (nonlinear_arith);
    if x >= 0 {
        assert(q >= 0) by (nonlinear_arith)
            requires
                x == unit * q + r,
                r < unit,
                x >= 0,
                unit > 0,
        ;
        assert(q * unit >= 0) by (nonlinear_arith)
            requires
                q >= 0,
                unit > 0,
        ;
    }
    if x <= 0 {
        assert(q <= 0) by (nonlinear_arith)
            requires
                x == unit * q + r,
                r >= 0,
                x <= 0,
                unit > 0,
        ;
        if q == 0 {
            assert(r == 0);
        } else {
            assert((q + 1) * unit <= 0) by (nonlinear_arith)
                requires
                    q <= -1,
                    unit > 0,
            ;
        }
    }
}

/// The difference of two multiples of `unit` is a multiple of it.
proof fn lemma_sub_multiples(a: int, b: int, unit: int)
    requires
        unit > 0,
        a % unit == 0,
        b % unit == 0,
    ensures
        (a - b) % unit == 0,
{
    lemma_fundamental_div_mod(a, unit);
    lemma_fundamental_div_mod(b, unit);
    let k = a / unit - b / unit;
    assert(a - b == k * unit) by (nonlinear_arith)
        requires
            a == unit * (a / unit),
            b == unit * (b / unit),
            k == a / unit - b / unit,
    ;
    lemma_mod_multiples_basic(k, unit);
}

/// The reserve and trading fees differ from the total fee by at most half a
/// rounding unit, and not at all when the total is a multiple of it.
proof fn lemma_fee_split(total_fees: int, reserve_fee_percent: int, places: nat)
    requires
        places <= 36,
        fee_split_model(total_fees, reserve_fee_percent, places) is Some,
    ensures
        ({
            let (reserve, trading) = fee_split_model(
                total_fees,
                reserve_fee_percent,
                places,
            )->Some_0;
            let unit = pow10((36 - places) as nat);
            &&& -unit <= 2 * (reserve + trading - total_fees) <= unit
            &&& total_fees % unit == 0 ==> reserve + trading == total_fees
        }),
{
    let unit = pow10((36 - places) as nat);
    lemma_pow10_positive((36 - places) as nat);
    let m = tdiv(total_fees * (reserve_fee_percent * dec_unit()), pdec_unit());
    let reserve = round_half_even(m, unit);
    lemma_round_half_even(m, unit);
    let d = total_fees - reserve;
    lemma_round_half_even(d, unit);
    if total_fees % unit == 0 {
        lemma_sub_multiples(total_fees, reserve, unit);
    }
}

/// Fee split of a trade: `trading_fee + reserve_fee` equals `total_fees`
/// whenever the total fee is a multiple of the asset's rounding unit
/// (10^-divisibility), and is never more than half that unit away from it,
/// in either trade direction and for any size.
pub proof fn law_trade_fee_split(
    net_pt_amount: int,
    total_pt: int,
    total_base_asset: int,
    rate_anchor: int,
    rate_scalar: int,
    reserve_fee_percent: int,
    places: nat,
    ln_proportion: int,
    fee_rate: int,
)
    requires
        places <= 18,
        trade_model(
            net_pt_amount,
            total_pt,
            total_base_asset,
            rate_anchor,
            rate_scalar,
            reserve_fee_percent,
            places,
            ln_proportion,
            fee_rate,
        ) is Ok,
    ensures
        ({
            let t = trade_model(
                net_pt_amount,
                total_pt,
                total_base_asset,
                rate_anchor,
                rate_scalar,
                reserve_fee_percent,
                places,
                ln_proportion,
                fee_rate,
            )->Ok_0;
            let unit = pow10((36 - places) as nat);
            &&& -unit <= 2 * (t.reserve_fee + t.trading_fee - t.total_fees) <= unit
            &&& t.total_fees % unit == 0 ==> t.reserve_fee + t.trading_fee == t.total_fees
        }),
{
    let p = proportion_model(net_pt_amount, total_pt, total_base_asset)->Ok_0;
    let rate = exchange_rate_model(ln_proportion, rate_anchor, rate_scalar)->Ok_0;
    let pre = pre_fee_amount_model(net_pt_amount, rate, places)->Some_0;
    let total = fee_model(fee_rate, net_pt_amount, rate, pre)->Ok_0;
    lemma_fee_split(total, reserve_fee_percent, places);
}

/// Truncating division by a positive number keeps the sign.
proof fn lemma_tdiv_sign(a: int, b: int)
    requires
        b > 0,
    ensures
        a >= 0 ==> tdiv(a, b) >= 0,
        a <= 0 ==> tdiv(a, b) <= 0,
{
    let m = if a < 0 { -a } else { a };
    assert(m / b >= 0) by (nonlinear_arith)
        requires
            m >= 0,
            b > 0,
    ;
}

/// With a fee multiplier of at least 1 the fee of a trade is never negative,
/// in either direction: the fee only ever reduces what the pool pays out.
pub proof fn law_trade_fees_non_negative(
    net_pt_amount: int,
    total_pt: int,
    total_base_asset: int,
    rate_anchor: int,
    rate_scalar: int,
    reserve_fee_percent: int,
    places: nat,
    ln_proportion: int,
    fee_rate: int,
)
    requires
        places <= 18,
        fee_rate >= pdec_unit(),
        trade_model(
            net_pt_amount,
            total_pt,
            total_base_asset,
            rate_anchor,
            rate_scalar,
            reserve_fee_percent,
            places,
            ln_proportion,
            fee_rate,
        ) is Ok,
    ensures
        trade_model(
            net_pt_amount,
            total_pt,
            total_base_asset,
            rate_anchor,
            rate_scalar,
            reserve_fee_percent,
            places,
            ln_proportion,
            fee_rate,
        )->Ok_0.total_fees >= 0,
{
    let rate = exchange_rate_model(ln_proportion, rate_anchor, rate_scalar)->Ok_0;
    let pre = pre_fee_amount_model(net_pt_amount, rate, places)->Some_0;
    let unit = pow10((36 - places) as nat);
    lemma_pow10_positive((36 - places) as nat);
    let u = pdec_unit();
    let scaled = net_pt_amount * dec_unit();
    let q = tdiv(scaled * u, rate);
    lemma_tdiv_sign(scaled * u, rate);
    lemma_round_half_even(-q, unit);
    assert(pre == round_half_even(-q, unit));
    if net_pt_amount > 0 {
        assert(scaled * u >= 0) by (nonlinear_arith)
            requires
                net_pt_amount > 0,
                scaled == net_pt_amount * dec_unit(),
                u > 0,
        ;
        assert(pre <= 0);
        assert(pre * (u - fee_rate) >= 0) by (nonlinear_arith)
            requires
                pre <= 0,
                u - fee_rate <= 0,
        ;
        lemma_tdiv_sign(pre * (u - fee_rate), u);
    } else {
        assert(scaled * u <= 0) by (nonlinear_arith)
            requires
                net_pt_amount <= 0,
                scaled == net_pt_amount * dec_unit(),
                u > 0,
        ;
        assert(pre >= 0);
        assert(pre * (u - fee_rate) <= 0) by (nonlinear_arith)
            requires
                pre >= 0,
                u - fee_rate <= 0,
        ;
        let m = tdiv(pre * (u - fee_rate), u);
        lemma_tdiv_sign(pre * (u - fee_rate), u);
        assert(m * u <= 0) by (nonlinear_arith)
            requires
                m <= 0,
                u > 0,
        ;
        lemma_tdiv_sign(m * u, fee_rate);
    }
}

/// Truncating division by a positive number is monotone in the dividend.
proof fn lemma_tdiv_monotone(a1: int, a2: int, b: int)
    requires
        a1 <= a2,
        b > 0,
    ensures
        tdiv(a1, b) <= tdiv(a2, b),
{
    if a1 >= 0 {
        lemma_div_is_ordered(a1, a2, b);
    } else if a2 < 0 {
        lemma_div_is_ordered(-a2, -a1, b);
    } else {
        lemma_tdiv_sign(a1, b);
        lemma_tdiv_sign(a2, b);
    }
}

/// The more PT a trade takes out of a pool, the lower the proportion of PT it
/// leaves: `net_pt_amount_1 <= net_pt_amount_2` gives a proportion at least
/// as high for the first.
pub proof fn law_proportion_falls_as_pt_leaves(
    net_pt_amount_1: int,
    net_pt_amount_2: int,
    total_pt: int,
    total_asset: int,
)
    requires
        net_pt_amount_1 <= net_pt_amount_2,
        total_pt + total_asset > 0,
        proportion_model(net_pt_amount_1, total_pt, total_asset) is Ok,
        proportion_model(net_pt_amount_2, total_pt, total_asset) is Ok,
    ensures
        proportion_model(net_pt_amount_2, total_pt, total_asset)->Ok_0 <= proportion_model(
            net_pt_amount_1,
            total_pt,
            total_asset,
        )->Ok_0,
{
    let u = dec_unit();
    let n1 = total_pt - net_pt_amount_1;
    let n2 = total_pt - net_pt_amount_2;
    assert(n2 * u <= n1 * u) by (nonlinear_arith)
        requires
            n2 <= n1,
            u > 0,
    ;
    lemma_tdiv_monotone(n2 * u, n1 * u, total_pt + total_asset);
}

/// The odds `p / (1 - p)` rise with the proportion.
pub proof fn law_odds_rise_with_proportion(proportion_1: int, proportion_2: int)
    requires
        proportion_1 <= proportion_2,
        odds_model(proportion_1) is Ok,
        odds_model(proportion_2) is Ok,
    ensures
        odds_model(proportion_1)->Ok_0 <= odds_model(proportion_2)->Ok_0,
{
    let u = dec_unit();
    let d1 = u - proportion_1;
    let d2 = u - proportion_2;
    assert(proportion_1 * u <= proportion_2 * u) by (nonlinear_arith)
        requires
            proportion_1 <= proportion_2,
            u > 0,
    ;
    assert(proportion_1 * u > 0) by (nonlinear_arith)
        requires
            proportion_1 > 0,
            u > 0,
    ;
    lemma_div_is_ordered(proportion_1 * u, proportion_2 * u, d1);
    lemma_div_is_ordered_by_denominator(proportion_2 * u, d2, d1);
}

/// On a curve with a positive rate scalar the exchange rate rises with the
/// log-proportion. With the logarithm increasing, a trade that puts PT into
/// the pool raises the exchange rate (and the implied rate derived from it)
/// and one that takes PT out lowers it.
pub proof fn law_exchange_rate_rises_with_log_proportion(
    ln_proportion_1: int,
    ln_proportion_2: int,
    rate_anchor: int,
    rate_scalar: int,
)
    requires
        ln_proportion_1 <= ln_proportion_2,
        rate_scalar > 0,
        exchange_rate_model(ln_proportion_1, rate_anchor, rate_scalar) is Ok,
        exchange_rate_model(ln_proportion_2, rate_anchor, rate_scalar) is Ok,
    ensures
        exchange_rate_model(ln_proportion_1, rate_anchor, rate_scalar)->Ok_0
            <= exchange_rate_model(ln_proportion_2, rate_anchor, rate_scalar)->Ok_0,
{
    let u = pdec_unit();
    let s = rate_scalar * dec_unit();
    assert(s > 0) by (nonlinear_arith)
        requires
            rate_scalar > 0,
            s == rate_scalar * dec_unit(),
    ;
    assert(ln_proportion_1 * u <= ln_proportion_2 * u) by (nonlinear_arith)
        requires
            ln_proportion_1 <= ln_proportion_2,
            u > 0,
    ;
    lemma_tdiv_monotone(ln_proportion_1 * u, ln_proportion_2 * u, s);
}

} // verus!
