use scrypto::math::Decimal as ScDecimal;
use scrypto::math::PreciseDecimal as ScPreciseDecimal;
use yield_amm::{
    annualise_ln_exchange_rate, calc_proportion, calc_rate_scalar, calc_trade, compute_market,
    exchange_rate_from_state, implied_rate_exponent, proportion_odds, Decimal, Market,
    MarketCompute, MarketError, MarketFeeInput, PreciseDecimal, Trade, PERIOD_SIZE,
    yt_all_in_exchange_rate,
};

// 2024-03-05T00:00:00Z and 2025-03-05T00:00:00Z.
const NOW: i64 = 1_709_596_800;
const MATURITY: i64 = 1_741_132_800;

fn dec(s: &str) -> Decimal {
    let d = ScDecimal::try_from(s).unwrap();
    Decimal::from_le_bytes(d.to_vec().try_into().unwrap())
}

fn pdec(s: &str) -> PreciseDecimal {
    let d = ScPreciseDecimal::try_from(s).unwrap();
    PreciseDecimal::from_le_bytes(d.to_vec().try_into().unwrap())
}

fn sc(d: Decimal) -> ScDecimal {
    ScDecimal::try_from(&d.to_le_bytes()[..]).unwrap()
}

fn scp(p: PreciseDecimal) -> ScPreciseDecimal {
    ScPreciseDecimal::try_from(&p.to_le_bytes()[..]).unwrap()
}

fn pdec_f64(x: f64) -> PreciseDecimal {
    pdec(&format!("{:.30}", x))
}

fn to_f64(p: PreciseDecimal) -> f64 {
    scp(p).to_string().parse().unwrap()
}

fn dec_to_f64(d: Decimal) -> f64 {
    sc(d).to_string().parse().unwrap()
}

/// The natural log of the odds of the proportion after `net_pt` PT leaves the
/// pool.
fn ln_odds(net_pt: Decimal, total_pt: Decimal, total_asset: Decimal) -> PreciseDecimal {
    let p = calc_proportion(net_pt, total_pt, total_asset).unwrap();
    let odds = proportion_odds(p).unwrap();
    pdec_f64(dec_to_f64(odds).ln())
}

fn fee_input() -> MarketFeeInput {
    MarketFeeInput { fee_rate: dec("1.01"), reserve_fee_percent: dec("0.80") }
}

fn new_market(now: i64) -> Result<Market, MarketError> {
    Market::instantiate(pdec("1.04"), dec("50"), &fee_input(), pdec_f64(1.01f64.ln()), MATURITY, now)
}

/// The log implied rate of the pool at the given reserves on the given curve.
fn ln_implied_rate(
    total_pt: Decimal,
    total_asset: Decimal,
    anchor: PreciseDecimal,
    scalar: Decimal,
    t: i64,
) -> PreciseDecimal {
    let ln_p = ln_odds(dec("0"), total_pt, total_asset);
    let rate = exchange_rate_from_state(total_pt, total_asset, anchor, scalar, ln_p).unwrap();
    annualise_ln_exchange_rate(pdec_f64(to_f64(rate).ln()), t).unwrap()
}

/// A market seeded with 1000 PT and 1000 asset, initialised at `NOW`.
fn bootstrap() -> Market {
    let mut market = new_market(NOW).unwrap();
    let t = market.begin_trade(NOW).unwrap();
    let scalar = calc_rate_scalar(market.market_state.scalar_root, t).unwrap();
    let ln_rate = ln_implied_rate(
        dec("1000"),
        dec("1000"),
        market.market_state.initial_rate_anchor,
        scalar,
        t,
    );
    market.set_initial_ln_implied_rate(NOW, ln_rate).unwrap();
    market
}

fn last_exchange_rate(market: &Market, t: i64) -> PreciseDecimal {
    let exponent = implied_rate_exponent(market.market_state.last_ln_implied_rate, t).unwrap();
    pdec_f64(to_f64(exponent).exp())
}

fn market_compute(market: &Market, total_pt: Decimal, total_asset: Decimal, t: i64) -> MarketCompute {
    compute_market(
        &market.market_state,
        total_pt,
        total_asset,
        t,
        last_exchange_rate(market, t),
        ln_odds(dec("0"), total_pt, total_asset),
    )
    .unwrap()
}

fn fee_rate(market: &Market, t: i64) -> PreciseDecimal {
    let exponent = implied_rate_exponent(market.market_fee.ln_fee_rate, t).unwrap();
    pdec_f64(to_f64(exponent).exp())
}

fn trade(market: &Market, net_pt: Decimal, mc: &MarketCompute, t: i64) -> Result<Trade, MarketError> {
    let ln_p = ln_odds(net_pt, mc.total_pt_amount, mc.total_base_asset_amount);
    calc_trade(net_pt, mc, &market.market_fee, 18, ln_p, fee_rate(market, t))
}

#[test]
fn bootstrap_sets_rate_of_initial_anchor() {
    let market = bootstrap();
    let t = market.time_to_expiry(NOW);
    assert_eq!(t, PERIOD_SIZE);
    let scalar = calc_rate_scalar(dec("50"), t).unwrap();
    assert_eq!(scalar, dec("50"));
    let pre_trade_rate = exchange_rate_from_state(
        dec("1000"),
        dec("1000"),
        pdec("1.04"),
        scalar,
        ln_odds(dec("0"), dec("1000"), dec("1000")),
    )
    .unwrap();
    assert_eq!(pre_trade_rate, pdec("1.04"));
    let implied = to_f64(market.market_state.last_ln_implied_rate).exp();
    assert!((implied - 1.04).abs() < 1e-12);
}

#[test]
fn compute_market_keeps_rate_continuous() {
    let market = bootstrap();
    let t = market.time_to_expiry(NOW + 86_400);
    let last = last_exchange_rate(&market, t);
    let mc = market_compute(&market, dec("1000"), dec("1000"), t);
    assert_eq!(mc.total_pt_amount, dec("1000"));
    assert_eq!(mc.total_base_asset_amount, dec("1000"));
    let rate = exchange_rate_from_state(
        dec("1000"),
        dec("1000"),
        mc.rate_anchor,
        mc.rate_scalar,
        ln_odds(dec("0"), dec("1000"), dec("1000")),
    );
    assert_eq!(rate, Ok(last));
}

#[test]
fn compute_market_keeps_rate_continuous_off_balance() {
    let market = bootstrap();
    let t = market.time_to_expiry(NOW + 30 * 86_400);
    let last = last_exchange_rate(&market, t);
    let mc = market_compute(&market, dec("1100"), dec("905.5"), t);
    let ln_p = ln_odds(dec("0"), dec("1100"), dec("905.5"));
    assert_eq!(
        exchange_rate_from_state(dec("1100"), dec("905.5"), mc.rate_anchor, mc.rate_scalar, ln_p),
        Ok(last)
    );
}

#[test]
fn compute_market_rejects_last_rate_below_one() {
    let market = bootstrap();
    assert_eq!(
        compute_market(&market.market_state, dec("1000"), dec("1000"), PERIOD_SIZE, pdec("0.9"), pdec("0")),
        Err(MarketError::InvalidLastExchangeRate(pdec("0.9")))
    );
}

#[test]
fn buying_pt_charges_fees() {
    let mut market = bootstrap();
    let t = market.begin_trade(NOW).unwrap();
    let mc = market_compute(&market, dec("1000"), dec("1000"), t);
    let tr = trade(&market, dec("100"), &mc, t).unwrap();
    let zero = pdec("0");
    assert!(dec("0").lt(&tr.net_amount));
    assert!(zero.lt(&tr.total_fees));
    assert!(!tr.reserve_fee.is_negative());
    assert!(!tr.trading_fee.is_negative());
    let sum = scp(tr.reserve_fee) + scp(tr.trading_fee);
    let leak = (sum - scp(tr.total_fees)).checked_abs().unwrap();
    assert!(leak <= ScPreciseDecimal::try_from("0.0000000000000000005").unwrap());
    let new_rate = ln_implied_rate(
        dec("900"),
        dec("1000").checked_add(&tr.net_amount).unwrap(),
        mc.rate_anchor,
        mc.rate_scalar,
        t,
    );
    market.record_trade(NOW, &tr, new_rate).unwrap();
    assert_eq!(market.pool_stat.reserve_fees_collected, tr.reserve_fee);
    assert_eq!(market.pool_stat.trading_fees_collected, tr.trading_fee);
    assert_eq!(market.pool_stat.total_fees_collected, tr.total_fees);
    assert_eq!(market.market_state.last_ln_implied_rate, new_rate);
}

#[test]
fn trade_amounts_follow_the_formulas() {
    let market = bootstrap();
    let mc = MarketCompute {
        rate_scalar: dec("50"),
        rate_anchor: pdec("1.04"),
        total_pt_amount: dec("1000"),
        total_base_asset_amount: dec("1000"),
    };
    let tr = calc_trade(
        dec("100"),
        &mc,
        &market.market_fee,
        18,
        pdec("-0.200670695462151"),
        pdec("1.01"),
    )
    .unwrap();
    assert_eq!(tr.pre_fee_exchange_rate, pdec("1.03598658609075698"));
    assert_eq!(tr.total_fees, pdec("0.96526346327846720128"));
    assert_eq!(tr.reserve_fee, pdec("0.772210770622773761"));
    assert_eq!(tr.trading_fee, pdec("0.19305269265569344"));
    assert_eq!(tr.net_amount, dec("95.947188249879639807"));
    let tr = calc_trade(
        dec("-100"),
        &mc,
        &market.market_fee,
        18,
        pdec("0.200670695462151"),
        pdec("1.01"),
    )
    .unwrap();
    assert_eq!(tr.pre_fee_exchange_rate, pdec("1.04401341390924302"));
    assert_eq!(tr.total_fees, pdec("0.948358514086161208752475247524752475"));
    assert_eq!(tr.reserve_fee, pdec("0.758686811268928967"));
    assert_eq!(tr.trading_fee, pdec("0.189671702817232242"));
    assert_eq!(tr.net_amount, dec("94.835851408616120875"));
}

#[test]
fn fee_split_is_exact_on_whole_attos() {
    let market = bootstrap();
    let mc = MarketCompute {
        rate_scalar: dec("50"),
        rate_anchor: pdec("1"),
        total_pt_amount: dec("1000"),
        total_base_asset_amount: dec("1000"),
    };
    // A rate of exactly 1.25 and a fee multiplier of 1.1 give whole-atto fees.
    let tr = calc_trade(dec("100"), &mc, &market.market_fee, 18, pdec("12.5"), pdec("1.1"))
        .unwrap();
    assert_eq!(tr.pre_fee_exchange_rate, pdec("1.25"));
    assert_eq!(tr.total_fees, pdec("8"));
    assert_eq!(tr.reserve_fee, pdec("6.4"));
    assert_eq!(tr.trading_fee, pdec("1.6"));
    assert_eq!(tr.net_amount, dec("75.2"));
}

#[test]
fn round_trip_pays_fees_and_moves_rate() {
    let mut market = bootstrap();
    let t = market.begin_trade(NOW).unwrap();
    let start_rate = market.market_state.last_ln_implied_rate;

    // Sell 100 PT into the pool.
    let mc = market_compute(&market, dec("1000"), dec("1000"), t);
    let sell = trade(&market, dec("-100"), &mc, t).unwrap();
    let asset_after_sell = dec("1000").checked_sub(&sell.net_amount).unwrap();
    let rate_after_sell = ln_implied_rate(dec("1100"), asset_after_sell, mc.rate_anchor, mc.rate_scalar, t);
    market.record_trade(NOW, &sell, rate_after_sell).unwrap();
    assert!(start_rate.lt(&rate_after_sell));

    // Buy the same 100 PT back.
    let mc = market_compute(&market, dec("1100"), asset_after_sell, t);
    let buy = trade(&market, dec("100"), &mc, t).unwrap();
    let asset_after_buy = asset_after_sell.checked_add(&buy.net_amount).unwrap();
    let rate_after_buy = ln_implied_rate(dec("1000"), asset_after_buy, mc.rate_anchor, mc.rate_scalar, t);
    market.record_trade(NOW, &buy, rate_after_buy).unwrap();
    assert!(rate_after_buy.lt(&rate_after_sell));

    assert!(pdec("0").lt(&market.pool_stat.total_fees_collected));
    assert!(pdec("0").lt(&sell.total_fees));
    assert!(pdec("0").lt(&buy.total_fees));
}

#[test]
fn expired_market_rejects_trades_and_initialisation() {
    let mut market = bootstrap();
    assert_eq!(market.begin_trade(MATURITY), Err(MarketError::MarketExpired));
    assert_eq!(market.begin_trade(MATURITY + 1), Err(MarketError::MarketExpired));
    let before = market;
    let tr = Trade {
        net_amount: dec("1"),
        pre_fee_exchange_rate: pdec("1.04"),
        total_fees: pdec("0.01"),
        reserve_fee: pdec("0.008"),
        trading_fee: pdec("0.002"),
    };
    assert_eq!(market.record_trade(MATURITY, &tr, pdec("0.05")), Err(MarketError::MarketExpired));
    assert_eq!(market, before);

    let mut fresh = new_market(NOW).unwrap();
    assert_eq!(fresh.set_initial_ln_implied_rate(MATURITY, pdec("0.04")), Err(MarketError::MarketExpired));
    assert_eq!(new_market(MATURITY), Err(MarketError::MarketExpired));

    assert!(market.check_maturity(MATURITY));
    assert!(!market.check_maturity(MATURITY - 1));
    assert_eq!(market.get_market_state(), before.market_state);
}

#[test]
fn trade_past_market_cap_is_rejected() {
    let market = bootstrap();
    let t = market.begin_trade(NOW).unwrap();
    let mc = market_compute(&market, dec("1000"), dec("1000"), t);
    let r = calc_trade(dec("-921"), &mc, &market.market_fee, 18, pdec("3.2"), fee_rate(&market, t));
    assert_eq!(r, Err(MarketError::MaxMarketProportionReached(dec("0.9605"))));
    // Exactly at the cap the trade goes through.
    assert!(trade(&market, dec("-920"), &mc, t).is_ok());
}

#[test]
fn trade_draining_pt_is_rejected() {
    let market = bootstrap();
    let t = market.begin_trade(NOW).unwrap();
    let mc = market_compute(&market, dec("1000"), dec("1000"), t);
    let r = calc_trade(dec("1001"), &mc, &market.market_fee, 18, pdec("0"), fee_rate(&market, t));
    assert_eq!(r, Err(MarketError::ProportionLessThanZero(dec("-0.0005"))));
}

#[test]
fn invalid_parameters_are_rejected() {
    let bad_root = Market::instantiate(pdec("1.04"), dec("0"), &fee_input(), pdec("0.00995"), MATURITY, NOW);
    assert_eq!(bad_root, Err(MarketError::InvalidMarketParameters));
    let bad_fee = MarketFeeInput { fee_rate: dec("0"), reserve_fee_percent: dec("0.8") };
    let r = Market::instantiate(pdec("1.04"), dec("50"), &bad_fee, pdec("0"), MATURITY, NOW);
    assert_eq!(r, Err(MarketError::InvalidMarketParameters));
    let bad_share = MarketFeeInput { fee_rate: dec("1.01"), reserve_fee_percent: dec("1") };
    let r = Market::instantiate(pdec("1.04"), dec("50"), &bad_share, pdec("0.00995"), MATURITY, NOW);
    assert_eq!(r, Err(MarketError::InvalidMarketParameters));
}

#[test]
fn new_market_starts_uninitialised_and_active() {
    let market = new_market(NOW).unwrap();
    assert_eq!(market.market_state.last_ln_implied_rate, pdec("0"));
    assert_eq!(market.market_state.scalar_root, dec("50"));
    assert_eq!(market.market_fee.reserve_fee_percent, dec("0.80"));
    assert_eq!(market.pool_stat.total_fees_collected, pdec("0"));
    assert!(market.market_is_active);
    assert_eq!(market.maturity_date, MATURITY);
}

#[test]
fn initialisation_happens_once() {
    let mut market = new_market(NOW).unwrap();
    assert_eq!(market.set_initial_ln_implied_rate(NOW, pdec("0.039")), Ok(()));
    assert_eq!(market.market_state.last_ln_implied_rate, pdec("0.039"));
    assert_eq!(
        market.set_initial_ln_implied_rate(NOW, pdec("0.05")),
        Err(MarketError::AlreadyInitialized)
    );
    assert_eq!(market.market_state.last_ln_implied_rate, pdec("0.039"));
}

#[test]
fn inactive_market_rejects_trades() {
    let mut market = bootstrap();
    market.change_market_status(false);
    assert_eq!(market.begin_trade(NOW), Err(MarketError::MarketInactive));
    market.change_market_status(true);
    assert_eq!(market.begin_trade(NOW), Ok(PERIOD_SIZE));
}

#[test]
fn pool_stat_overflow_changes_nothing() {
    let mut market = bootstrap();
    let max = PreciseDecimal::from_le_bytes(ScPreciseDecimal::MAX.to_vec().try_into().unwrap());
    market.update_pool_stat(pdec("1"), pdec("1"), pdec("2")).unwrap();
    let before = market;
    assert_eq!(market.update_pool_stat(max, pdec("0"), pdec("0")), Err(MarketError::ArithmeticError));
    assert_eq!(market, before);
    assert_eq!(market.pool_stat.total_fees_collected, pdec("2"));
}

#[test]
fn yt_all_in_rate_inverts_the_pt_share() {
    assert_eq!(yt_all_in_exchange_rate(dec("0.2")), Ok(dec("1.25")));
    assert_eq!(yt_all_in_exchange_rate(dec("0")), Ok(dec("1")));
}

#[test]
fn yt_all_in_rate_falls_back_to_one() {
    assert_eq!(yt_all_in_exchange_rate(dec("1")), Ok(dec("1")));
    assert_eq!(yt_all_in_exchange_rate(dec("1.5")), Ok(dec("1")));
}
