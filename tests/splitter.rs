use scrypto::math::Decimal as ScDecimal;
use yield_amm::{
    calc_total_yield_owed, calc_yield_owed, determine_redemption_strategy, redemption_amounts,
    update_redemption_factor, Decimal, PreciseDecimal, RedemptionFactorState, RedemptionStrategy,
    YieldTokenData,
};

fn dec(s: &str) -> Decimal {
    let d = ScDecimal::try_from(s).unwrap();
    Decimal::from_le_bytes(d.to_vec().try_into().unwrap())
}

fn position(yt_amount: &str, accrued_yield: &str) -> YieldTokenData {
    YieldTokenData {
        last_claim_redemption_factor: dec("1"),
        yt_amount: dec(yt_amount),
        yield_claimed: dec("0"),
        accrued_yield: dec(accrued_yield),
    }
}

#[test]
fn yield_grows_with_redemption_factor() {
    let data = position("100", "0");
    assert_eq!(
        calc_yield_owed(dec("1.1"), &data, dec("100")),
        Some(dec("10").to_precise())
    );
    assert_eq!(calc_yield_owed(dec("1"), &data, dec("100")), Some(PreciseDecimal::from_int(0)));
}

#[test]
fn yield_counts_accrued_yield() {
    let data = position("100", "2");
    assert_eq!(calc_yield_owed(dec("1.05"), &data, dec("100")), Some(dec("5.1").to_precise()));
    assert_eq!(calc_total_yield_owed(dec("1.05"), &data, dec("100"), 18), Some(dec("7.1")));
}

#[test]
fn yield_with_zero_last_factor_is_none() {
    let mut data = position("100", "0");
    data.last_claim_redemption_factor = dec("0");
    assert_eq!(calc_yield_owed(dec("1.1"), &data, dec("100")), None);
}

#[test]
fn total_yield_rounds_ties_toward_zero() {
    let data = position("1.5", "0");
    assert_eq!(
        calc_total_yield_owed(dec("1.000000000000000001"), &data, dec("1.5"), 18),
        Some(dec("0.000000000000000001"))
    );
    assert_eq!(calc_total_yield_owed(dec("1.1"), &data, dec("1.5"), 0), Some(dec("0")));
}

#[test]
fn redemption_strategy_choice() {
    let data = position("100", "0");
    assert_eq!(
        determine_redemption_strategy(dec("100"), &data, false),
        RedemptionStrategy::FullRedemption
    );
    assert_eq!(
        determine_redemption_strategy(dec("100"), &data, true),
        RedemptionStrategy::FullRedemption
    );
    assert_eq!(
        determine_redemption_strategy(dec("40"), &data, true),
        RedemptionStrategy::ExpiredMarket
    );
    assert_eq!(
        determine_redemption_strategy(dec("40"), &data, false),
        RedemptionStrategy::PartialRedemption
    );
}

#[test]
fn full_redemption_pays_principal_and_yield() {
    let data = position("100", "0");
    assert_eq!(
        redemption_amounts(RedemptionStrategy::FullRedemption, dec("1.1"), &data, dec("100"), 18),
        Some((dec("0"), dec("110")))
    );
    assert_eq!(
        redemption_amounts(RedemptionStrategy::FullRedemption, dec("1.1"), &data, dec("90"), 18),
        None
    );
}

#[test]
fn partial_redemption_keeps_the_rest_accrued() {
    let data = position("100", "0");
    assert_eq!(
        redemption_amounts(RedemptionStrategy::PartialRedemption, dec("1.1"), &data, dec("40"), 18),
        Some((dec("6"), dec("44")))
    );
}

#[test]
fn expired_redemption_pays_all_yield() {
    let data = position("100", "0");
    assert_eq!(
        redemption_amounts(RedemptionStrategy::ExpiredMarket, dec("1.1"), &data, dec("40"), 18),
        Some((dec("0"), dec("50")))
    );
}

#[test]
fn redemption_factor_follows_before_maturity() {
    let mut state = RedemptionFactorState { redemption_factor: dec("1"), locked: false, last_updated: 100 };
    update_redemption_factor(&mut state, 200, 1000, true, dec("1.02"));
    assert_eq!(state, RedemptionFactorState { redemption_factor: dec("1.02"), locked: false, last_updated: 200 });
    update_redemption_factor(&mut state, 200, 1000, true, dec("1.03"));
    assert_eq!(state.redemption_factor, dec("1.02"));
    update_redemption_factor(&mut state, 300, 1000, false, dec("1.03"));
    assert_eq!(state.redemption_factor, dec("1.02"));
}

#[test]
fn redemption_factor_locks_at_maturity() {
    let mut state = RedemptionFactorState { redemption_factor: dec("1.02"), locked: false, last_updated: 200 };
    update_redemption_factor(&mut state, 1000, 1000, false, dec("1.05"));
    assert_eq!(state, RedemptionFactorState { redemption_factor: dec("1.05"), locked: true, last_updated: 1000 });
    update_redemption_factor(&mut state, 2000, 1000, true, dec("1.09"));
    assert_eq!(state, RedemptionFactorState { redemption_factor: dec("1.05"), locked: true, last_updated: 1000 });
}
