use vstd::prelude::*;
use num_traits::ToPrimitive;
use quant_opts::{
    BlackScholes as Engine, MarketData as EngineMarket, OptionStyle as EngineStyle,
    OptionType as EngineType, VanillaOption as EngineOption,
};
use crate::domain::{MarketData, OptionType, VanillaOption, MAX_UNITS, market_in_range, option_in_range};
use crate::pricing::{is_call, PricingError};

verus! {

/// Inputs on which the Greeks are well defined. Unlike the price, every
/// Greek involves d1/d2 and so needs a strictly positive maturity.
pub open spec fn greek_inputs_ok(o: VanillaOption, m: MarketData, vol: i64) -> bool {
    &&& o.strike > 0
    &&& o.maturity > 0
    &&& m.spot > 0
    &&& vol > 0
}

/// Sensitivity of the price to the spot, as computed by
/// `quant_opts::BlackScholes::delta` (units of `UNIT`, nearest unit).
pub uninterp spec fn delta_of(
    call: bool,
    strike: int,
    maturity: int,
    spot: int,
    rate: int,
    dividend: int,
    vol: int,
) -> int;

/// Second sensitivity of the price to the spot, as computed by
/// `quant_opts::BlackScholes::gamma` (units of `UNIT`, nearest unit).
pub uninterp spec fn gamma_of(
    call: bool,
    strike: int,
    maturity: int,
    spot: int,
    rate: int,
    dividend: int,
    vol: int,
) -> int;

/// Sensitivity of the price to one percentage point of volatility, as
/// computed by `quant_opts::BlackScholes::vega` (units of `UNIT`, nearest
/// unit).
pub uninterp spec fn vega_of(
    call: bool,
    strike: int,
    maturity: int,
    spot: int,
    rate: int,
    dividend: int,
    vol: int,
) -> int;

/// Sensitivity of the price to the passage of one day, as computed by
/// `quant_opts::BlackScholes::theta` (units of `UNIT`, nearest unit).
pub uninterp spec fn theta_of(
    call: bool,
    strike: int,
    maturity: int,
    spot: int,
    rate: int,
    dividend: int,
    vol: int,
) -> int;

/// Sensitivity of the price to one percentage point of rate, as computed by
/// `quant_opts::BlackScholes::rho` (units of `UNIT`, nearest unit).
pub uninterp spec fn rho_of(
    call: bool,
    strike: int,
    maturity: int,
    spot: int,
    rate: int,
    dividend: int,
    vol: int,
) -> int;

/// Relies on `quant_opts::BlackScholes::delta`. Conversions are exact as in
/// the pricing wrappers; under the preconditions the engine's d1/d2 guards
/// pass, so the call returns a value.
#[verifier::external_body]
fn delta_units(call: bool, strike: i64, maturity: i64, spot: i64, rate: i64, dividend: i64, vol: i64) -> (r: i64)
    requires
        1 <= strike <= MAX_UNITS,
        1 <= maturity <= MAX_UNITS,
        1 <= spot <= MAX_UNITS,
        -MAX_UNITS <= rate <= MAX_UNITS,
        -MAX_UNITS <= dividend <= MAX_UNITS,
        1 <= vol <= MAX_UNITS,
    ensures
        r == delta_of(call, strike as int, maturity as int, spot as int, rate as int, dividend as int, vol as int),
{
    let sc = (-40_i64).to_f64().unwrap().exp2();
    let knd = if call { EngineType::Call } else { EngineType::Put };
    let k = strike.to_f64().unwrap() * sc;
    let t = maturity.to_f64().unwrap() * sc;
    let o = EngineOption::new(EngineStyle::European, knd, k, t);
    let y = dividend.to_f64().unwrap() * sc;
    let m = EngineMarket::new(spot.to_f64().unwrap() * sc, rate.to_f64().unwrap() * sc, y);
    let g = Engine::delta(&o, &m, vol.to_f64().unwrap() * sc).unwrap();
    (g / sc).round().to_i64().unwrap_or(i64::MAX)
}

/// Relies on `quant_opts::BlackScholes::gamma`; otherwise as `delta_units`.
#[verifier::external_body]
fn gamma_units(call: bool, strike: i64, maturity: i64, spot: i64, rate: i64, dividend: i64, vol: i64) -> (r: i64)
    requires
        1 <= strike <= MAX_UNITS,
        1 <= maturity <= MAX_UNITS,
        1 <= spot <= MAX_UNITS,
        -MAX_UNITS <= rate <= MAX_UNITS,
        -MAX_UNITS <= dividend <= MAX_UNITS,
        1 <= vol <= MAX_UNITS,
    ensures
        r == gamma_of(call, strike as int, maturity as int, spot as int, rate as int, dividend as int, vol as int),
{
    let sc = (-40_i64).to_f64().unwrap().exp2();
    let knd = if call { EngineType::Call } else { EngineType::Put };
    let k = strike.to_f64().unwrap() * sc;
    let t = maturity.to_f64().unwrap() * sc;
    let o = EngineOption::new(EngineStyle::European, knd, k, t);
    let y = dividend.to_f64().unwrap() * sc;
    let m = EngineMarket::new(spot.to_f64().unwrap() * sc, rate.to_f64().unwrap() * sc, y);
    let g = Engine::gamma(&o, &m, vol.to_f64().unwrap() * sc).unwrap();
    (g / sc).round().to_i64().unwrap_or(i64::MAX)
}

/// Relies on `quant_opts::BlackScholes::vega`; otherwise as `delta_units`.
#[verifier::external_body]
fn vega_units(call: bool, strike: i64, maturity: i64, spot: i64, rate: i64, dividend: i64, vol: i64) -> (r: i64)
    requires
        1 <= strike <= MAX_UNITS,
        1 <= maturity <= MAX_UNITS,
        1 <= spot <= MAX_UNITS,
        -MAX_UNITS <= rate <= MAX_UNITS,
        -MAX_UNITS <= dividend <= MAX_UNITS,
        1 <= vol <= MAX_UNITS,
    ensures
        r == vega_of(call, strike as int, maturity as int, spot as int, rate as int, dividend as int, vol as int),
{
    let sc = (-40_i64).to_f64().unwrap().exp2();
    let knd = if call { EngineType::Call } else { EngineType::Put };
    let k = strike.to_f64().unwrap() * sc;
    let t = maturity.to_f64().unwrap() * sc;
    let o = EngineOption::new(EngineStyle::European, knd, k, t);
    let y = dividend.to_f64().unwrap() * sc;
    let m = EngineMarket::new(spot.to_f64().unwrap() * sc, rate.to_f64().unwrap() * sc, y);
    let g = Engine::vega(&o, &m, vol.to_f64().unwrap() * sc).unwrap();
    (g / sc).round().to_i64().unwrap_or(i64::MAX)
}

/// Relies on `quant_opts::BlackScholes::theta`; otherwise as `delta_units`.
#[verifier::external_body]
fn theta_units(call: bool, strike: i64, maturity: i64, spot: i64, rate: i64, dividend: i64, vol: i64) -> (r: i64)
    requires
        1 <= strike <= MAX_UNITS,
        1 <= maturity <= MAX_UNITS,
        1 <= spot <= MAX_UNITS,
        -MAX_UNITS <= rate <= MAX_UNITS,
        -MAX_UNITS <= dividend <= MAX_UNITS,
        1 <= vol <= MAX_UNITS,
    ensures
        r == theta_of(call, strike as int, maturity as int, spot as int, rate as int, dividend as int, vol as int),
{
    let sc = (-40_i64).to_f64().unwrap().exp2();
    let knd = if call { EngineType::Call } else { EngineType::Put };
    let k = strike.to_f64().unwrap() * sc;
    let t = maturity.to_f64().unwrap() * sc;
    let o = EngineOption::new(EngineStyle::European, knd, k, t);
    let y = dividend.to_f64().unwrap() * sc;
    let m = EngineMarket::new(spot.to_f64().unwrap() * sc, rate.to_f64().unwrap() * sc, y);
    let g = Engine::theta(&o, &m, vol.to_f64().unwrap() * sc).unwrap();
    (g / sc).round().to_i64().unwrap_or(i64::MAX)
}

/// Relies on `quant_opts::BlackScholes::rho`; otherwise as `delta_units`.
#[verifier::external_body]
fn rho_units(call: bool, strike: i64, maturity: i64, spot: i64, rate: i64, dividend: i64, vol: i64) -> (r: i64)
    requires
        1 <= strike <= MAX_UNITS,
        1 <= maturity <= MAX_UNITS,
        1 <= spot <= MAX_UNITS,
        -MAX_UNITS <= rate <= MAX_UNITS,
        -MAX_UNITS <= dividend <= MAX_UNITS,
        1 <= vol <= MAX_UNITS,
    ensures
        r == rho_of(call, strike as int, maturity as int, spot as int, rate as int, dividend as int, vol as int),
{
    let sc = (-40_i64).to_f64().unwrap().exp2();
    let knd = if call { EngineType::Call } else { EngineType::Put };
    let k = strike.to_f64().unwrap() * sc;
    let t = maturity.to_f64().unwrap() * sc;
    let o = EngineOption::new(EngineStyle::European, knd, k, t);
    let y = dividend.to_f64().unwrap() * sc;
    let m = EngineMarket::new(spot.to_f64().unwrap() * sc, rate.to_f64().unwrap() * sc, y);
    let g = Engine::rho(&o, &m, vol.to_f64().unwrap() * sc).unwrap();
    (g / sc).round().to_i64().unwrap_or(i64::MAX)
}

/// Delta of the option, in units of `UNIT`. Errors with `InvalidInput`
/// exactly when strike, spot, volatility or maturity is not strictly
/// positive: the Greeks have no zero-maturity closed form.
pub fn delta(option: &VanillaOption, market: &MarketData, vol: i64) -> (r: Result<i64, PricingError>)
    requires
        option_in_range(*option),
        market_in_range(*market),
        -MAX_UNITS <= vol <= MAX_UNITS,
    ensures
        r is Err <==> !greek_inputs_ok(*option, *market, vol),
        r is Err ==> r == Err::<i64, PricingError>(PricingError::InvalidInput),
        greek_inputs_ok(*option, *market, vol) ==> r == Ok::<i64, PricingError>(
            delta_of(
                is_call(*option),
                option.strike as int,
                option.maturity as int,
                market.spot as int,
                market.rate as int,
                market.dividend_yield as int,
                vol as int,
            ) as i64,
        ),
{
    if option.strike <= 0 || market.spot <= 0 || option.maturity <= 0 || vol <= 0 {
        return Err(PricingError::InvalidInput);
    }
    let call = match option.kind {
        OptionType::Call => true,
        OptionType::Put => false,
    };
    Ok(delta_units(call, option.strike, option.maturity, market.spot, market.rate, market.dividend_yield, vol))
}

/// Gamma of the option, in units of `UNIT`; validation as in `delta`.
pub fn gamma(option: &VanillaOption, market: &MarketData, vol: i64) -> (r: Result<i64, PricingError>)
    requires
        option_in_range(*option),
        market_in_range(*market),
        -MAX_UNITS <= vol <= MAX_UNITS,
    ensures
        r is Err <==> !greek_inputs_ok(*option, *market, vol),
        r is Err ==> r == Err::<i64, PricingError>(PricingError::InvalidInput),
        greek_inputs_ok(*option, *market, vol) ==> r == Ok::<i64, PricingError>(
            gamma_of(
                is_call(*option),
                option.strike as int,
                option.maturity as int,
                market.spot as int,
                market.rate as int,
                market.dividend_yield as int,
                vol as int,
            ) as i64,
        ),
{
    if option.strike <= 0 || market.spot <= 0 || option.maturity <= 0 || vol <= 0 {
        return Err(PricingError::InvalidInput);
    }
    let call = match option.kind {
        OptionType::Call => true,
        OptionType::Put => false,
    };
    Ok(gamma_units(call, option.strike, option.maturity, market.spot, market.rate, market.dividend_yield, vol))
}

/// Vega of the option, in units of `UNIT`; validation as in `delta`.
pub fn vega(option: &VanillaOption, market: &MarketData, vol: i64) -> (r: Result<i64, PricingError>)
    requires
        option_in_range(*option),
        market_in_range(*market),
        -MAX_UNITS <= vol <= MAX_UNITS,
    ensures
        r is Err <==> !greek_inputs_ok(*option, *market, vol),
        r is Err ==> r == Err::<i64, PricingError>(PricingError::InvalidInput),
        greek_inputs_ok(*option, *market, vol) ==> r == Ok::<i64, PricingError>(
            vega_of(
                is_call(*option),
                option.strike as int,
                option.maturity as int,
                market.spot as int,
                market.rate as int,
                market.dividend_yield as int,
                vol as int,
            ) as i64,
        ),
{
    if option.strike <= 0 || market.spot <= 0 || option.maturity <= 0 || vol <= 0 {
        return Err(PricingError::InvalidInput);
    }
    let call = match option.kind {
        OptionType::Call => true,
        OptionType::Put => false,
    };
    Ok(vega_units(call, option.strike, option.maturity, market.spot, market.rate, market.dividend_yield, vol))
}

/// Theta of the option per day, in units of `UNIT`; validation as in `delta`.
pub fn theta(option: &VanillaOption, market: &MarketData, vol: i64) -> (r: Result<i64, PricingError>)
    requires
        option_in_range(*option),
        market_in_range(*market),
        -MAX_UNITS <= vol <= MAX_UNITS,
    ensures
        r is Err <==> !greek_inputs_ok(*option, *market, vol),
        r is Err ==> r == Err::<i64, PricingError>(PricingError::InvalidInput),
        greek_inputs_ok(*option, *market, vol) ==> r == Ok::<i64, PricingError>(
            theta_of(
                is_call(*option),
                option.strike as int,
                option.maturity as int,
                market.spot as int,
                market.rate as int,
                market.dividend_yield as int,
                vol as int,
            ) as i64,
        ),
{
    if option.strike <= 0 || market.spot <= 0 || option.maturity <= 0 || vol <= 0 {
        return Err(PricingError::InvalidInput);
    }
    let call = match option.kind {
        OptionType::Call => true,
        OptionType::Put => false,
    };
    Ok(theta_units(call, option.strike, option.maturity, market.spot, market.rate, market.dividend_yield, vol))
}

/// Rho of the option, in units of `UNIT`; validation as in `delta`.
pub fn rho(option: &VanillaOption, market: &MarketData, vol: i64) -> (r: Result<i64, PricingError>)
    requires
        option_in_range(*option),
        market_in_range(*market),
        -MAX_UNITS <= vol <= MAX_UNITS,
    ensures
        r is Err <==> !greek_inputs_ok(*option, *market, vol),
        r is Err ==> r == Err::<i64, PricingError>(PricingError::InvalidInput),
        greek_inputs_ok(*option, *market, vol) ==> r == Ok::<i64, PricingError>(
            rho_of(
                is_call(*option),
                option.strike as int,
                option.maturity as int,
                market.spot as int,
                market.rate as int,
                market.dividend_yield as int,
                vol as int,
            ) as i64,
        ),
{
    if option.strike <= 0 || market.spot <= 0 || option.maturity <= 0 || vol <= 0 {
        return Err(PricingError::InvalidInput);
    }
    let call = match option.kind {
        OptionType::Call => true,
        OptionType::Put => false,
    };
    Ok(rho_units(call, option.strike, option.maturity, market.spot, market.rate, market.dividend_yield, vol))
}

/// Sensitivity of delta to volatility, as computed by
/// `quant_opts::BlackScholes::vanna` (units of `UNIT`, nearest unit).
pub uninterp spec fn vanna_of(
    call: bool,
    strike: int,
    maturity: int,
    spot: int,
    rate: int,
    dividend: int,
    vol: int,
) -> int;

/// Relies on `quant_opts::BlackScholes::vanna`; otherwise as `delta_units`.
#[verifier::external_body]
fn vanna_units(call: bool, strike: i64, maturity: i64, spot: i64, rate: i64, dividend: i64, vol: i64) -> (r: i64)
    requires
        1 <= strike <= MAX_UNITS,
        1 <= maturity <= MAX_UNITS,
        1 <= spot <= MAX_UNITS,
        -MAX_UNITS <= rate <= MAX_UNITS,
        -MAX_UNITS <= dividend <= MAX_UNITS,
        1 <= vol <= MAX_UNITS,
    ensures
        r == vanna_of(call, strike as int, maturity as int, spot as int, rate as int, dividend as int, vol as int),
{
    let sc = (-40_i64).to_f64().unwrap().exp2();
    let knd = if call { EngineType::Call } else { EngineType::Put };
    let k = strike.to_f64().unwrap() * sc;
    let t = maturity.to_f64().unwrap() * sc;
    let o = EngineOption::new(EngineStyle::European, knd, k, t);
    let y = dividend.to_f64().unwrap() * sc;
    let m = EngineMarket::new(spot.to_f64().unwrap() * sc, rate.to_f64().unwrap() * sc, y);
    let g = Engine::vanna(&o, &m, vol.to_f64().unwrap() * sc).unwrap();
    (g / sc).round().to_i64().unwrap_or(i64::MAX)
}

/// Vanna of the option, in units of `UNIT`; validation as in `delta`.
pub fn vanna(option: &VanillaOption, market: &MarketData, vol: i64) -> (r: Result<i64, PricingError>)
    requires
        option_in_range(*option),
        market_in_range(*market),
        -MAX_UNITS <= vol <= MAX_UNITS,
    ensures
        r is Err <==> !greek_inputs_ok(*option, *market, vol),
        r is Err ==> r == Err::<i64, PricingError>(PricingError::InvalidInput),
        greek_inputs_ok(*option, *market, vol) ==> r == Ok::<i64, PricingError>(
            vanna_of(
                is_call(*option),
                option.strike as int,
                option.maturity as int,
                market.spot as int,
                market.rate as int,
                market.dividend_yield as int,
                vol as int,
            ) as i64,
        ),
{
    if option.strike <= 0 || market.spot <= 0 || option.maturity <= 0 || vol <= 0 {
        return Err(PricingError::InvalidInput);
    }
    let call = match option.kind {
        OptionType::Call => true,
        OptionType::Put => false,
    };
    Ok(vanna_units(call, option.strike, option.maturity, market.spot, market.rate, market.dividend_yield, vol))
}

/// Sensitivity of delta to the passage of time, as computed by
/// `quant_opts::BlackScholes::charm` (units of `UNIT`, nearest unit).
pub uninterp spec fn charm_of(
    call: bool,
    strike: int,
    maturity: int,
    spot: int,
    rate: int,
    dividend: int,
    vol: int,
) -> int;

/// Relies on `quant_opts::BlackScholes::charm`; otherwise as `delta_units`.
#[verifier::external_body]
fn charm_units(call: bool, strike: i64, maturity: i64, spot: i64, rate: i64, dividend: i64, vol: i64) -> (r: i64)
    requires
        1 <= strike <= MAX_UNITS,
        1 <= maturity <= MAX_UNITS,
        1 <= spot <= MAX_UNITS,
        -MAX_UNITS <= rate <= MAX_UNITS,
        -MAX_UNITS <= dividend <= MAX_UNITS,
        1 <= vol <= MAX_UNITS,
    ensures
        r == charm_of(call, strike as int, maturity as int, spot as int, rate as int, dividend as int, vol as int),
{
    let sc = (-40_i64).to_f64().unwrap().exp2();
    let knd = if call { EngineType::Call } else { EngineType::Put };
    let k = strike.to_f64().unwrap() * sc;
    let t = maturity.to_f64().unwrap() * sc;
    let o = EngineOption::new(EngineStyle::European, knd, k, t);
    let y = dividend.to_f64().unwrap() * sc;
    let m = EngineMarket::new(spot.to_f64().unwrap() * sc, rate.to_f64().unwrap() * sc, y);
    let g = Engine::charm(&o, &m, vol.to_f64().unwrap() * sc).unwrap();
    (g / sc).round().to_i64().unwrap_or(i64::MAX)
}

/// Charm of the option, in units of `UNIT`; validation as in `delta`.
pub fn charm(option: &VanillaOption, market: &MarketData, vol: i64) -> (r: Result<i64, PricingError>)
    requires
        option_in_range(*option),
        market_in_range(*market),
        -MAX_UNITS <= vol <= MAX_UNITS,
    ensures
        r is Err <==> !greek_inputs_ok(*option, *market, vol),
        r is Err ==> r == Err::<i64, PricingError>(PricingError::InvalidInput),
        greek_inputs_ok(*option, *market, vol) ==> r == Ok::<i64, PricingError>(
            charm_of(
                is_call(*option),
                option.strike as int,
                option.maturity as int,
                market.spot as int,
                market.rate as int,
                market.dividend_yield as int,
                vol as int,
            ) as i64,
        ),
{
    if option.strike <= 0 || market.spot <= 0 || option.maturity <= 0 || vol <= 0 {
        return Err(PricingError::InvalidInput);
    }
    let call = match option.kind {
        OptionType::Call => true,
        OptionType::Put => false,
    };
    Ok(charm_units(call, option.strike, option.maturity, market.spot, market.rate, market.dividend_yield, vol))
}

/// Sensitivity of vega to volatility (volga), as computed by
/// `quant_opts::BlackScholes::vomma` (units of `UNIT`, nearest unit).
pub uninterp spec fn vomma_of(
    call: bool,
    strike: int,
    maturity: int,
    spot: int,
    rate: int,
    dividend: int,
    vol: int,
) -> int;

/// Relies on `quant_opts::BlackScholes::vomma`; otherwise as `delta_units`.
#[verifier::external_body]
fn vomma_units(call: bool, strike: i64, maturity: i64, spot: i64, rate: i64, dividend: i64, vol: i64) -> (r: i64)
    requires
        1 <= strike <= MAX_UNITS,
        1 <= maturity <= MAX_UNITS,
        1 <= spot <= MAX_UNITS,
        -MAX_UNITS <= rate <= MAX_UNITS,
        -MAX_UNITS <= dividend <= MAX_UNITS,
        1 <= vol <= MAX_UNITS,
    ensures
        r == vomma_of(call, strike as int, maturity as int, spot as int, rate as int, dividend as int, vol as int),
{
    let sc = (-40_i64).to_f64().unwrap().exp2();
    let knd = if call { EngineType::Call } else { EngineType::Put };
    let k = strike.to_f64().unwrap() * sc;
    let t = maturity.to_f64().unwrap() * sc;
    let o = EngineOption::new(EngineStyle::European, knd, k, t);
    let y = dividend.to_f64().unwrap() * sc;
    let m = EngineMarket::new(spot.to_f64().unwrap() * sc, rate.to_f64().unwrap() * sc, y);
    let g = Engine::vomma(&o, &m, vol.to_f64().unwrap() * sc).unwrap();
    (g / sc).round().to_i64().unwrap_or(i64::MAX)
}

/// Vomma of the option, in units of `UNIT`; validation as in `delta`.
pub fn vomma(option: &VanillaOption, market: &MarketData, vol: i64) -> (r: Result<i64, PricingError>)
    requires
        option_in_range(*option),
        market_in_range(*market),
        -MAX_UNITS <= vol <= MAX_UNITS,
    ensures
        r is Err <==> !greek_inputs_ok(*option, *market, vol),
        r is Err ==> r == Err::<i64, PricingError>(PricingError::InvalidInput),
        greek_inputs_ok(*option, *market, vol) ==> r == Ok::<i64, PricingError>(
            vomma_of(
                is_call(*option),
                option.strike as int,
                option.maturity as int,
                market.spot as int,
                market.rate as int,
                market.dividend_yield as int,
                vol as int,
            ) as i64,
        ),
{
    if option.strike <= 0 || market.spot <= 0 || option.maturity <= 0 || vol <= 0 {
        return Err(PricingError::InvalidInput);
    }
    let call = match option.kind {
        OptionType::Call => true,
        OptionType::Put => false,
    };
    Ok(vomma_units(call, option.strike, option.maturity, market.spot, market.rate, market.dividend_yield, vol))
}

/// Third sensitivity of the price to the spot, as computed by
/// `quant_opts::BlackScholes::speed` (units of `UNIT`, nearest unit).
pub uninterp spec fn speed_of(
    call: bool,
    strike: int,
    maturity: int,
    spot: int,
    rate: int,
    dividend: int,
    vol: int,
) -> int;

/// Relies on `quant_opts::BlackScholes::speed`; otherwise as `delta_units`.
#[verifier::external_body]
fn speed_units(call: bool, strike: i64, maturity: i64, spot: i64, rate: i64, dividend: i64, vol: i64) -> (r: i64)
    requires
        1 <= strike <= MAX_UNITS,
        1 <= maturity <= MAX_UNITS,
        1 <= spot <= MAX_UNITS,
        -MAX_UNITS <= rate <= MAX_UNITS,
        -MAX_UNITS <= dividend <= MAX_UNITS,
        1 <= vol <= MAX_UNITS,
    ensures
        r == speed_of(call, strike as int, maturity as int, spot as int, rate as int, dividend as int, vol as int),
{
    let sc = (-40_i64).to_f64().unwrap().exp2();
    let knd = if call { EngineType::Call } else { EngineType::Put };
    let k = strike.to_f64().unwrap() * sc;
    let t = maturity.to_f64().unwrap() * sc;
    let o = EngineOption::new(EngineStyle::European, knd, k, t);
    let y = dividend.to_f64().unwrap() * sc;
    let m = EngineMarket::new(spot.to_f64().unwrap() * sc, rate.to_f64().unwrap() * sc, y);
    let g = Engine::speed(&o, &m, vol.to_f64().unwrap() * sc).unwrap();
    (g / sc).round().to_i64().unwrap_or(i64::MAX)
}

/// Speed of the option, in units of `UNIT`; validation as in `delta`.
pub fn speed(option: &VanillaOption, market: &MarketData, vol: i64) -> (r: Result<i64, PricingError>)
    requires
        option_in_range(*option),
        market_in_range(*market),
        -MAX_UNITS <= vol <= MAX_UNITS,
    ensures
        r is Err <==> !greek_inputs_ok(*option, *market, vol),
        r is Err ==> r == Err::<i64, PricingError>(PricingError::InvalidInput),
        greek_inputs_ok(*option, *market, vol) ==> r == Ok::<i64, PricingError>(
            speed_of(
                is_call(*option),
                option.strike as int,
                option.maturity as int,
                market.spot as int,
                market.rate as int,
                market.dividend_yield as int,
                vol as int,
            ) as i64,
        ),
{
    if option.strike <= 0 || market.spot <= 0 || option.maturity <= 0 || vol <= 0 {
        return Err(PricingError::InvalidInput);
    }
    let call = match option.kind {
        OptionType::Call => true,
        OptionType::Put => false,
    };
    Ok(speed_units(call, option.strike, option.maturity, market.spot, market.rate, market.dividend_yield, vol))
}

/// Sensitivity of gamma to volatility, as computed by
/// `quant_opts::BlackScholes::zomma` (units of `UNIT`, nearest unit).
pub uninterp spec fn zomma_of(
    call: bool,
    strike: int,
    maturity: int,
    spot: int,
    rate: int,
    dividend: int,
    vol: int,
) -> int;

/// Relies on `quant_opts::BlackScholes::zomma`; otherwise as `delta_units`.
#[verifier::external_body]
fn zomma_units(call: bool, strike: i64, maturity: i64, spot: i64, rate: i64, dividend: i64, vol: i64) -> (r: i64)
    requires
        1 <= strike <= MAX_UNITS,
        1 <= maturity <= MAX_UNITS,
        1 <= spot <= MAX_UNITS,
        -MAX_UNITS <= rate <= MAX_UNITS,
        -MAX_UNITS <= dividend <= MAX_UNITS,
        1 <= vol <= MAX_UNITS,
    ensures
        r == zomma_of(call, strike as int, maturity as int, spot as int, rate as int, dividend as int, vol as int),
{
    let sc = (-40_i64).to_f64().unwrap().exp2();
    let knd = if call { EngineType::Call } else { EngineType::Put };
    let k = strike.to_f64().unwrap() * sc;
    let t = maturity.to_f64().unwrap() * sc;
    let o = EngineOption::new(EngineStyle::European, knd, k, t);
    let y = dividend.to_f64().unwrap() * sc;
    let m = EngineMarket::new(spot.to_f64().unwrap() * sc, rate.to_f64().unwrap() * sc, y);
    let g = Engine::zomma(&o, &m, vol.to_f64().unwrap() * sc).unwrap();
    (g / sc).round().to_i64().unwrap_or(i64::MAX)
}

/// Zomma of the option, in units of `UNIT`; validation as in `delta`.
pub fn zomma(option: &VanillaOption, market: &MarketData, vol: i64) -> (r: Result<i64, PricingError>)
    requires
        option_in_range(*option),
        market_in_range(*market),
        -MAX_UNITS <= vol <= MAX_UNITS,
    ensures
        r is Err <==> !greek_inputs_ok(*option, *market, vol),
        r is Err ==> r == Err::<i64, PricingError>(PricingError::InvalidInput),
        greek_inputs_ok(*option, *market, vol) ==> r == Ok::<i64, PricingError>(
            zomma_of(
                is_call(*option),
                option.strike as int,
                option.maturity as int,
                market.spot as int,
                market.rate as int,
                market.dividend_yield as int,
                vol as int,
            ) as i64,
        ),
{
    if option.strike <= 0 || market.spot <= 0 || option.maturity <= 0 || vol <= 0 {
        return Err(PricingError::InvalidInput);
    }
    let call = match option.kind {
        OptionType::Call => true,
        OptionType::Put => false,
    };
    Ok(zomma_units(call, option.strike, option.maturity, market.spot, market.rate, market.dividend_yield, vol))
}

} // verus!
