use bs_options::{
    charm, delta, gamma, price, rational_implied_vol, rational_price, rho, speed, theta, vanna,
    vega, vomma, zomma, IvError, MarketData, OptionStyle, OptionType, PricingError, VanillaOption,
    UNIT,
};

const SC: f64 = 1099511627776.0;

fn units(x: f64) -> i64 {
    (x * SC).round() as i64
}

fn val(u: i64) -> f64 {
    (u as f64) / SC
}

fn opt(kind: OptionType, strike: f64, maturity: f64) -> VanillaOption {
    VanillaOption::new(OptionStyle::European, kind, units(strike), units(maturity))
}

fn mkt(spot: f64, rate: f64, dividend: f64) -> MarketData {
    MarketData::new(units(spot), units(rate), units(dividend))
}

fn engine_opt(kind: OptionType, o: &VanillaOption) -> quant_opts::VanillaOption {
    let k = match kind {
        OptionType::Call => quant_opts::OptionType::Call,
        OptionType::Put => quant_opts::OptionType::Put,
    };
    quant_opts::VanillaOption::new(
        quant_opts::OptionStyle::European,
        k,
        val(o.strike),
        val(o.maturity),
    )
}

fn engine_mkt(m: &MarketData) -> quant_opts::MarketData {
    quant_opts::MarketData::new(val(m.spot), val(m.rate), val(m.dividend_yield))
}

#[test]
fn regression_call_price_both_paths_agree() {
    let o = opt(OptionType::Call, 100.0, 20.0 / 365.25);
    let m = mkt(100.0, 0.05, 0.05);
    let p = price(&o, &m, units(0.2)).unwrap();
    let pr = rational_price(&o, &m, units(0.2)).unwrap();
    // ten decimal places, with one unit of slack for the fixed-point rounding
    assert!((p - pr).abs() <= units(1e-10) + 1, "p={} pr={}", p, pr);
    assert!((val(p) - 1.861792517363).abs() < 1e-9, "p={}", val(p));
}

#[test]
fn pricers_agree_across_moneyness() {
    let m = mkt(100.0, 0.05, 0.05);
    let t = 20.0 / 365.25;
    let cases = [
        (OptionType::Call, 110.0),
        (OptionType::Call, 90.0),
        (OptionType::Put, 90.0),
        (OptionType::Put, 110.0),
        (OptionType::Call, 100.0),
        (OptionType::Put, 100.0),
    ];
    for (kind, strike) in cases {
        let o = opt(kind, strike, t);
        let p = val(price(&o, &m, units(0.2)).unwrap());
        let pr = val(rational_price(&o, &m, units(0.2)).unwrap());
        let scale = if p.abs() > 1.0 { p.abs() } else { 1.0 };
        assert!(
            (p - pr).abs() / scale < 1e-6,
            "kind={:?} strike={} p={} pr={}",
            kind,
            strike,
            p,
            pr
        );
    }
}

#[test]
fn branch_cut_put_is_finite_and_continuous() {
    let o = opt(OptionType::Put, 100.0, 1.0);
    let m = mkt(100.0, 0.0, 0.0);
    let p = val(rational_price(&o, &m, units(0.421)).unwrap());
    assert!(p.is_finite());
    assert!((p - 16.672254833932).abs() < 1e-9, "p={}", p);
    // the two pricing paths still agree near the branch cut
    let pc = val(price(&o, &m, units(0.421)).unwrap());
    assert!((p - pc).abs() < 1e-4, "p={} pc={}", p, pc);
    // continuity across the transition point
    let lo = val(rational_price(&o, &m, units(0.421) - units(1e-6)).unwrap());
    let hi = val(rational_price(&o, &m, units(0.421) + units(1e-6)).unwrap());
    assert!((hi - lo).abs() < 1e-4, "lo={} hi={}", lo, hi);
    assert!(lo <= p && p <= hi, "lo={} p={} hi={}", lo, p, hi);
}

#[test]
fn price_matches_engine_directly() {
    let o = opt(OptionType::Call, 90.0, 20.0 / 365.25);
    let m = mkt(100.0, 0.05, 0.05);
    let lib = price(&o, &m, units(0.2)).unwrap();
    let eng = quant_opts::BlackScholes::price(
        &engine_opt(OptionType::Call, &o),
        &engine_mkt(&m),
        val(units(0.2)),
    )
    .unwrap();
    assert!((lib - units(eng)).abs() <= 1, "lib={} eng={}", lib, units(eng));
}

#[test]
fn rational_price_matches_engine_directly() {
    let o = opt(OptionType::Put, 110.0, 20.0 / 365.25);
    let m = mkt(100.0, 0.05, 0.05);
    let lib = rational_price(&o, &m, units(0.2)).unwrap();
    let eng = quant_opts::BlackScholes::rational_price(
        &engine_opt(OptionType::Put, &o),
        &engine_mkt(&m),
        val(units(0.2)),
    )
    .unwrap();
    assert!((lib - units(eng)).abs() <= 1, "lib={} eng={}", lib, units(eng));
}

#[test]
fn iv_recovers_true_sigma_across_market() {
    let cases = [
        (OptionType::Put, 100.0, 45.0 / 365.25, 90.0, 0.03, 0.02, 0.25),
        (OptionType::Call, 100.0, 60.0 / 365.25, 120.0, 0.01, 0.0, 0.15),
        (OptionType::Put, 100.0, 60.0 / 365.25, 80.0, 0.04, 0.03, 0.18),
        (OptionType::Call, 100.0, 90.0 / 365.25, 100.0, 0.05, 0.04, 0.20),
        (OptionType::Put, 100.0, 120.0 / 365.25, 100.0, 0.06, 0.01, 0.22),
    ];
    for (kind, strike, t, spot, rate, q, true_sigma) in cases {
        let o = opt(kind, strike, t);
        let m = mkt(spot, rate, q);
        let p = price(&o, &m, units(true_sigma)).unwrap();
        let iv = rational_implied_vol(p, &o, &m).unwrap();
        assert!(
            (val(iv) - true_sigma).abs() < 1e-8,
            "kind={:?} strike={} true={} iv={}",
            kind,
            strike,
            true_sigma,
            val(iv)
        );
    }
}

#[test]
fn iv_round_trip_across_volatility_range() {
    let o = opt(OptionType::Call, 100.0, 0.75);
    for spot in [100.0, 105.0] {
        let m = mkt(spot, 0.02, 0.01);
        for sigma in [0.05, 0.2, 0.8, 1.5, 3.0, 4.5] {
            let p = price(&o, &m, units(sigma)).unwrap();
            let iv = rational_implied_vol(p, &o, &m).unwrap();
            assert!(
                (val(iv) - sigma).abs() < 1e-6,
                "spot={} sigma={} iv={}",
                spot,
                sigma,
                val(iv)
            );
        }
    }
}

#[test]
fn price_is_strictly_increasing_in_volatility() {
    let o = opt(OptionType::Call, 100.0, 0.5);
    let m = mkt(100.0, 0.03, 0.01);
    let mut last = price(&o, &m, units(0.05)).unwrap();
    for sigma in [0.1, 0.2, 0.4, 0.8, 1.6, 3.2] {
        let p = price(&o, &m, units(sigma)).unwrap();
        assert!(p > last, "sigma={} p={} last={}", sigma, p, last);
        last = p;
    }
}

#[test]
fn vega_is_positive_for_standard_inputs() {
    let o = opt(OptionType::Call, 100.0, 0.5);
    let m = mkt(100.0, 0.03, 0.01);
    assert!(vega(&o, &m, units(0.2)).unwrap() > 0);
    let o2 = opt(OptionType::Put, 120.0, 1.5);
    assert!(vega(&o2, &m, units(0.35)).unwrap() > 0);
}

#[test]
fn zero_maturity_gives_exact_intrinsic_value() {
    let m = mkt(110.0, 0.05, 0.02);
    let call_itm = opt(OptionType::Call, 100.0, 0.0);
    assert_eq!(price(&call_itm, &m, units(0.2)).unwrap(), 10 * UNIT);
    assert_eq!(rational_price(&call_itm, &m, units(0.2)).unwrap(), 10 * UNIT);
    let call_otm = opt(OptionType::Call, 120.0, 0.0);
    assert_eq!(price(&call_otm, &m, units(0.2)).unwrap(), 0);
    assert_eq!(rational_price(&call_otm, &m, units(0.2)).unwrap(), 0);
    let put_itm = opt(OptionType::Put, 130.0, 0.0);
    assert_eq!(price(&put_itm, &m, units(0.2)).unwrap(), 20 * UNIT);
    assert_eq!(rational_price(&put_itm, &m, units(0.2)).unwrap(), 20 * UNIT);
}

#[test]
fn price_below_intrinsic_is_out_of_bounds() {
    // exact regime: zero rate and dividend, intrinsic value 20
    let o = opt(OptionType::Put, 100.0, 60.0 / 365.25);
    let m = mkt(80.0, 0.0, 0.0);
    let r = rational_implied_vol(units(10.0), &o, &m);
    assert_eq!(r, Err(IvError::PriceOutOfBounds));
    // discounting regime: the solver's own intrinsic guard fires
    let m2 = mkt(80.0, 0.04, 0.03);
    let r2 = rational_implied_vol(units(10.0), &o, &m2);
    assert_eq!(r2, Err(IvError::PriceOutOfBounds));
    // a negative price is below every intrinsic value
    let r3 = rational_implied_vol(units(-1.0), &o, &m);
    assert_eq!(r3, Err(IvError::PriceOutOfBounds));
}

#[test]
fn price_above_maximum_is_out_of_bounds() {
    let o = opt(OptionType::Call, 100.0, 1.0);
    let m = mkt(100.0, 0.0, 0.0);
    let r = rational_implied_vol(units(150.0), &o, &m);
    assert_eq!(r, Err(IvError::PriceOutOfBounds));
}

#[test]
fn invalid_inputs_are_rejected() {
    let good_o = opt(OptionType::Call, 100.0, 0.5);
    let good_m = mkt(100.0, 0.03, 0.01);
    let bad_strike = opt(OptionType::Call, -100.0, 0.5);
    let bad_t = opt(OptionType::Call, 100.0, -0.5);
    let bad_m = mkt(-100.0, 0.03, 0.01);
    assert_eq!(price(&bad_strike, &good_m, units(0.2)), Err(PricingError::InvalidInput));
    assert_eq!(price(&bad_t, &good_m, units(0.2)), Err(PricingError::InvalidInput));
    assert_eq!(price(&good_o, &bad_m, units(0.2)), Err(PricingError::InvalidInput));
    assert_eq!(price(&good_o, &good_m, 0), Err(PricingError::InvalidInput));
    assert_eq!(price(&good_o, &good_m, units(-0.2)), Err(PricingError::InvalidInput));
    assert_eq!(rational_price(&bad_strike, &good_m, units(0.2)), Err(PricingError::InvalidInput));
    assert_eq!(rational_price(&good_o, &good_m, 0), Err(PricingError::InvalidInput));
    assert_eq!(
        rational_implied_vol(units(5.0), &bad_strike, &good_m),
        Err(IvError::InvalidInput)
    );
    assert_eq!(rational_implied_vol(units(5.0), &bad_t, &good_m), Err(IvError::InvalidInput));
    assert_eq!(rational_implied_vol(units(5.0), &good_o, &bad_m), Err(IvError::InvalidInput));
}

#[test]
fn greeks_reject_zero_maturity_and_zero_volatility() {
    let o0 = opt(OptionType::Call, 100.0, 0.0);
    let o = opt(OptionType::Call, 100.0, 0.5);
    let m = mkt(100.0, 0.03, 0.01);
    assert_eq!(delta(&o0, &m, units(0.2)), Err(PricingError::InvalidInput));
    assert_eq!(gamma(&o0, &m, units(0.2)), Err(PricingError::InvalidInput));
    assert_eq!(vega(&o, &m, 0), Err(PricingError::InvalidInput));
    assert_eq!(theta(&o, &m, 0), Err(PricingError::InvalidInput));
    assert_eq!(rho(&o0, &m, units(0.2)), Err(PricingError::InvalidInput));
}

#[test]
fn greeks_match_engine_directly() {
    let o = opt(OptionType::Call, 100.0, 0.5);
    let m = mkt(105.0, 0.03, 0.01);
    let eo = engine_opt(OptionType::Call, &o);
    let em = engine_mkt(&m);
    let v = val(units(0.2));
    let d = quant_opts::BlackScholes::delta(&eo, &em, v).unwrap();
    let g = quant_opts::BlackScholes::gamma(&eo, &em, v).unwrap();
    let ve = quant_opts::BlackScholes::vega(&eo, &em, v).unwrap();
    let th = quant_opts::BlackScholes::theta(&eo, &em, v).unwrap();
    let rh = quant_opts::BlackScholes::rho(&eo, &em, v).unwrap();
    assert!((delta(&o, &m, units(0.2)).unwrap() - units(d)).abs() <= 1);
    assert!((gamma(&o, &m, units(0.2)).unwrap() - units(g)).abs() <= 1);
    assert!((vega(&o, &m, units(0.2)).unwrap() - units(ve)).abs() <= 1);
    assert!((theta(&o, &m, units(0.2)).unwrap() - units(th)).abs() <= 1);
    assert!((rho(&o, &m, units(0.2)).unwrap() - units(rh)).abs() <= 1);
}

#[test]
fn greek_values_have_expected_signs() {
    let o = opt(OptionType::Call, 100.0, 0.5);
    let po = opt(OptionType::Put, 100.0, 0.5);
    let m = mkt(100.0, 0.03, 0.01);
    let dc = delta(&o, &m, units(0.2)).unwrap();
    let dp = delta(&po, &m, units(0.2)).unwrap();
    assert!(dc > units(0.3) && dc < units(0.8), "dc={}", val(dc));
    assert!(dp < 0 && dp > units(-0.8), "dp={}", val(dp));
    assert!(gamma(&o, &m, units(0.2)).unwrap() > 0);
    assert!(theta(&o, &m, units(0.2)).unwrap() < 0);
    assert!(rho(&o, &m, units(0.2)).unwrap() > 0);
    assert!(rho(&po, &m, units(0.2)).unwrap() < 0);
}

#[test]
fn constructors_store_fields_unchanged() {
    let o = VanillaOption::new(OptionStyle::European, OptionType::Put, 7, -3);
    assert_eq!(o.kind, OptionType::Put);
    assert_eq!(o.strike, 7);
    assert_eq!(o.maturity, -3);
    let m = MarketData::new(5, -2, 9);
    assert_eq!(m.spot, 5);
    assert_eq!(m.rate, -2);
    assert_eq!(m.dividend_yield, 9);
}

#[test]
fn higher_order_greeks_match_engine_directly() {
    let o = opt(OptionType::Put, 95.0, 0.8);
    let m = mkt(100.0, 0.02, 0.03);
    let eo = engine_opt(OptionType::Put, &o);
    let em = engine_mkt(&m);
    let v = val(units(0.25));
    let va = quant_opts::BlackScholes::vanna(&eo, &em, v).unwrap();
    let ch = quant_opts::BlackScholes::charm(&eo, &em, v).unwrap();
    let vo = quant_opts::BlackScholes::vomma(&eo, &em, v).unwrap();
    let sp = quant_opts::BlackScholes::speed(&eo, &em, v).unwrap();
    let zo = quant_opts::BlackScholes::zomma(&eo, &em, v).unwrap();
    assert!((vanna(&o, &m, units(0.25)).unwrap() - units(va)).abs() <= 1);
    assert!((charm(&o, &m, units(0.25)).unwrap() - units(ch)).abs() <= 1);
    assert!((vomma(&o, &m, units(0.25)).unwrap() - units(vo)).abs() <= 1);
    assert!((speed(&o, &m, units(0.25)).unwrap() - units(sp)).abs() <= 1);
    assert!((zomma(&o, &m, units(0.25)).unwrap() - units(zo)).abs() <= 1);
}

#[test]
fn higher_order_greeks_reject_bad_inputs() {
    let o0 = opt(OptionType::Call, 100.0, 0.0);
    let o = opt(OptionType::Call, 100.0, 0.5);
    let m = mkt(100.0, 0.03, 0.01);
    assert_eq!(vanna(&o0, &m, units(0.2)), Err(PricingError::InvalidInput));
    assert_eq!(charm(&o0, &m, units(0.2)), Err(PricingError::InvalidInput));
    assert_eq!(vomma(&o, &m, 0), Err(PricingError::InvalidInput));
    assert_eq!(speed(&o, &m, units(-0.1)), Err(PricingError::InvalidInput));
    assert_eq!(zomma(&o0, &m, units(0.2)), Err(PricingError::InvalidInput));
}

#[test]
fn deep_itm_call_inverts_within_spec_bounds() {
    // the observed price sits between the discounted intrinsic value (50)
    // and the discounted forward value (100), so a volatility must exist
    let o = opt(OptionType::Call, 50.0, 1.0);
    let m = mkt(100.0, 0.0, 0.0);
    let iv = rational_implied_vol(units(60.0), &o, &m).unwrap();
    assert!(iv > 0, "iv={}", val(iv));
    let back = price(&o, &m, iv).unwrap();
    assert!((val(back) - 60.0).abs() < 1e-6, "back={}", val(back));
}

#[test]
fn deep_itm_put_inverts_within_spec_bounds() {
    let o = opt(OptionType::Put, 200.0, 1.0);
    let m = mkt(100.0, 0.0, 0.0);
    let iv = rational_implied_vol(units(120.0), &o, &m).unwrap();
    assert!(iv > 0, "iv={}", val(iv));
    let back = price(&o, &m, iv).unwrap();
    assert!((val(back) - 120.0).abs() < 1e-6, "back={}", val(back));
}

#[test]
fn time_value_at_expiry_cannot_converge() {
    // within the no-arbitrage bounds [10, 110], but at expiry every
    // volatility prices the option at its intrinsic value of 10
    let o = opt(OptionType::Call, 100.0, 0.0);
    let m = mkt(110.0, 0.05, 0.02);
    let r = rational_implied_vol(units(12.0), &o, &m);
    assert_eq!(r, Err(IvError::NoConvergence));
}
