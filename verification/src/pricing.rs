use vstd::prelude::*;
use num_traits::ToPrimitive;
use quant_opts::{
    BlackScholes as Engine, MarketData as EngineMarket, OptionStyle as EngineStyle,
    OptionType as EngineType, VanillaOption as EngineOption,
};
use crate::domain::{
    MarketData, OptionType, VanillaOption, MAX_UNITS, expiry_payoff, expiry_value,
    market_in_range, option_in_range, pricing_inputs_ok,
};

verus! {

/// Error returned by the pricing functions.
#[derive(Clone, Copy, PartialEq, Eq, Structural, Debug)]
pub enum PricingError {
    /// Non-positive strike, spot or volatility, or negative maturity.
    InvalidInput,
}

/// The Black-Scholes-Merton price computed by `quant_opts::BlackScholes::price`
/// on the given inputs (units of `UNIT`), rounded to the nearest unit.
pub uninterp spec fn bs_price_of(
    call: bool,
    strike: int,
    maturity: int,
    spot: int,
    rate: int,
    dividend: int,
    vol: int,
) -> int;

/// The price computed by `quant_opts::BlackScholes::rational_price` on the
/// given inputs (units of `UNIT`), rounded to the nearest unit.
pub uninterp spec fn rational_price_of(
    call: bool,
    strike: int,
    maturity: int,
    spot: int,
    rate: int,
    dividend: int,
    vol: int,
) -> int;

/// Relies on `quant_opts::BlackScholes::price`: the closed-form
/// Black-Scholes-Merton price through the standard d1/d2 formulation.
/// Arguments convert exactly (denominator two to the fortieth, magnitudes at
/// most two to the fifty-third) to the engine's numeric inputs; the result
/// converts back by rounding to the nearest unit, saturating if it is not
/// representable. Under these preconditions the engine's own guards (finite
/// volatility, non-zero maturity, finite log-moneyness) all pass, so the call
/// returns a value, and that value is clamped non-negative at the source.
#[verifier::external_body]
fn bs_price_units(
    call: bool,
    strike: i64,
    maturity: i64,
    spot: i64,
    rate: i64,
    dividend: i64,
    vol: i64,
) -> (r: i64)
    requires
        1 <= strike <= MAX_UNITS,
        1 <= maturity <= MAX_UNITS,
        1 <= spot <= MAX_UNITS,
        -MAX_UNITS <= rate <= MAX_UNITS,
        -MAX_UNITS <= dividend <= MAX_UNITS,
        1 <= vol <= MAX_UNITS,
    ensures
        r == bs_price_of(
            call,
            strike as int,
            maturity as int,
            spot as int,
            rate as int,
            dividend as int,
            vol as int,
        ),
        r >= 0,
{
    let sc = (-40_i64).to_f64().unwrap().exp2();
    let knd = if call { EngineType::Call } else { EngineType::Put };
    let k = strike.to_f64().unwrap() * sc;
    let t = maturity.to_f64().unwrap() * sc;
    let o = EngineOption::new(EngineStyle::European, knd, k, t);
    let y = dividend.to_f64().unwrap() * sc;
    let m = EngineMarket::new(spot.to_f64().unwrap() * sc, rate.to_f64().unwrap() * sc, y);
    let p = Engine::price(&o, &m, vol.to_f64().unwrap() * sc).unwrap();
    (p / sc).round().to_i64().unwrap_or(i64::MAX)
}

/// Relies on `quant_opts::BlackScholes::rational_price`: the same model
/// evaluated through the "let's be rational" normalised Black formula on the
/// forward, then discounted. Conversions are as in `bs_price_units`. The
/// source returns unconditionally, and the returned price is a product of
/// non-negative factors, so the converted result is non-negative.
#[verifier::external_body]
fn rational_price_units(
    call: bool,
    strike: i64,
    maturity: i64,
    spot: i64,
    rate: i64,
    dividend: i64,
    vol: i64,
) -> (r: i64)
    requires
        1 <= strike <= MAX_UNITS,
        1 <= maturity <= MAX_UNITS,
        1 <= spot <= MAX_UNITS,
        -MAX_UNITS <= rate <= MAX_UNITS,
        -MAX_UNITS <= dividend <= MAX_UNITS,
        1 <= vol <= MAX_UNITS,
    ensures
        r == rational_price_of(
            call,
            strike as int,
            maturity as int,
            spot as int,
            rate as int,
            dividend as int,
            vol as int,
        ),
        r >= 0,
{
    let sc = (-40_i64).to_f64().unwrap().exp2();
    let knd = if call { EngineType::Call } else { EngineType::Put };
    let k = strike.to_f64().unwrap() * sc;
    let t = maturity.to_f64().unwrap() * sc;
    let o = EngineOption::new(EngineStyle::European, knd, k, t);
    let y = dividend.to_f64().unwrap() * sc;
    let m = EngineMarket::new(spot.to_f64().unwrap() * sc, rate.to_f64().unwrap() * sc, y);
    let p = Engine::rational_price(&o, &m, vol.to_f64().unwrap() * sc).unwrap();
    (p / sc).round().to_i64().unwrap_or(i64::MAX)
}

/// True exactly when the option is a call.
pub open spec fn is_call(o: VanillaOption) -> bool {
    o.kind == OptionType::Call
}

/// Closed-form Black-Scholes price of the option, in units of `UNIT`.
///
/// Rejects non-positive strike, spot or volatility and negative maturity with
/// `InvalidInput`. At zero maturity the price is exactly the discounted
/// intrinsic value (the discount factors are one). For positive maturity the
/// price is the closed-form value computed by the pricing engine.
pub fn price(option: &VanillaOption, market: &MarketData, vol: i64) -> (r: Result<
    i64,
    PricingError,
>)
    requires
        option_in_range(*option),
        market_in_range(*market),
        -MAX_UNITS <= vol <= MAX_UNITS,
    ensures
        r is Err <==> !pricing_inputs_ok(*option, *market, vol),
        r is Err ==> r == Err::<i64, PricingError>(PricingError::InvalidInput),
        pricing_inputs_ok(*option, *market, vol) && option.maturity == 0 ==> r
            == Ok::<i64, PricingError>(
            expiry_payoff(option.kind, option.strike as int, market.spot as int) as i64,
        ),
        pricing_inputs_ok(*option, *market, vol) && option.maturity > 0 ==> (r matches Ok(p) && p
            == bs_price_of(
            is_call(*option),
            option.strike as int,
            option.maturity as int,
            market.spot as int,
            market.rate as int,
            market.dividend_yield as int,
            vol as int,
        ) && p >= 0),
{
    if option.strike <= 0 || market.spot <= 0 || option.maturity < 0 || vol <= 0 {
        return Err(PricingError::InvalidInput);
    }
    if option.maturity == 0 {
        return Ok(expiry_value(option.kind, option.strike, market.spot));
    }
    let call = match option.kind {
        OptionType::Call => true,
        OptionType::Put => false,
    };
    Ok(
        bs_price_units(
            call,
            option.strike,
            option.maturity,
            market.spot,
            market.rate,
            market.dividend_yield,
            vol,
        ),
    )
}

/// Black-Scholes price of the option through the numerically reformulated
/// "rational" path, in units of `UNIT`.
///
/// Validation and the zero-maturity case agree exactly with `price`; for
/// positive maturity the value is the engine's rational-formula price.
pub fn rational_price(option: &VanillaOption, market: &MarketData, vol: i64) -> (r: Result<
    i64,
    PricingError,
>)
    requires
        option_in_range(*option),
        market_in_range(*market),
        -MAX_UNITS <= vol <= MAX_UNITS,
    ensures
        r is Err <==> !pricing_inputs_ok(*option, *market, vol),
        r is Err ==> r == Err::<i64, PricingError>(PricingError::InvalidInput),
        pricing_inputs_ok(*option, *market, vol) && option.maturity == 0 ==> r
            == Ok::<i64, PricingError>(
            expiry_payoff(option.kind, option.strike as int, market.spot as int) as i64,
        ),
        pricing_inputs_ok(*option, *market, vol) && option.maturity > 0 ==> (r matches Ok(p) && p
            == rational_price_of(
            is_call(*option),
            option.strike as int,
            option.maturity as int,
            market.spot as int,
            market.rate as int,
            market.dividend_yield as int,
            vol as int,
        ) && p >= 0),
{
    if option.strike <= 0 || market.spot <= 0 || option.maturity < 0 || vol <= 0 {
        return Err(PricingError::InvalidInput);
    }
    if option.maturity == 0 {
        return Ok(expiry_value(option.kind, option.strike, market.spot));
    }
    let call = match option.kind {
        OptionType::Call => true,
        OptionType::Put => false,
    };
    Ok(
        rational_price_units(
            call,
            option.strike,
            option.maturity,
            market.spot,
            market.rate,
            market.dividend_yield,
            vol,
        ),
    )
}

} // verus!
