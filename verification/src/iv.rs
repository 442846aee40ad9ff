use vstd::prelude::*;
use num_traits::ToPrimitive;
use quant_opts::{
    BlackScholes as Engine, MarketData as EngineMarket, OptionStyle as EngineStyle,
    OptionType as EngineType, VanillaOption as EngineOption,
};
use crate::domain::{
    MarketData, OptionType, VanillaOption, MAX_EXPONENT_PRODUCT, MAX_UNITS, UNIT, expiry_payoff,
    exponents_in_range, market_in_range, option_in_range,
};
use crate::pricing::is_call;

verus! {

/// Error returned by the implied-volatility solver.
#[derive(Clone, Copy, PartialEq, Eq, Structural, Debug)]
pub enum IvError {
    /// Non-positive strike or spot, or negative maturity.
    InvalidInput,
    /// The observed price lies outside the no-arbitrage bounds: below the
    /// discounted intrinsic value, or at or above the maximum value the model
    /// can reach, so no volatility reproduces it.
    PriceOutOfBounds,
    /// The refinement failed on a price inside the no-arbitrage bounds: the
    /// bounded iteration left a non-finite or negative iterate, so no reliable
    /// volatility can be reported for this pathological input.
    NoConvergence,
}

/// Inputs on which an implied-volatility query is well formed.
pub open spec fn iv_inputs_ok(o: VanillaOption, m: MarketData) -> bool {
    &&& o.strike > 0
    &&& o.maturity >= 0
    &&& m.spot > 0
}

/// Intrinsic value against the forward when the forward equals the spot,
/// keyed by the payoff direction as a boolean.
pub open spec fn undiscounted_payoff(call: bool, strike: int, spot: int) -> int {
    expiry_payoff(if call { OptionType::Call } else { OptionType::Put }, strike, spot)
}

/// The discount factor over the option's life for a rate-times-maturity
/// product `xt` in squared units: `exp(-xt)` scaled to units of `UNIT` and
/// rounded to the nearest unit.
pub uninterp spec fn discount_of(xt: int) -> int;

/// Relies on `f64::exp`: computes `discount_of(xt)`, the discount factor for
/// the exponent product `xt` (squared units), scaled to units of `UNIT`.
/// The conversions are the fixed-point scalings used throughout this crate.
/// At `xt == 0` the factor is exactly one, hence exactly `UNIT`. Within the
/// admitted range the exponential lies between `exp(-15)` and `exp(15)`, a
/// positive, finite float whose scaled value fits an `i64`.
#[verifier::external_body]
fn discount_units(xt: i128) -> (r: i64)
    requires
        -MAX_EXPONENT_PRODUCT <= xt <= MAX_EXPONENT_PRODUCT,
    ensures
        r == discount_of(xt as int),
        r >= 0,
        xt == 0 ==> r == UNIT,
{
    let s80 = (-80_i64).to_f64().unwrap().exp2();
    let e = (-(xt.to_f64().unwrap() * s80)).exp();
    let s40 = (40_i64).to_f64().unwrap().exp2();
    (e * s40).round().to_i64().unwrap_or(i64::MAX)
}

/// The discounted gap between the forward values of the underlying and the
/// strike, in squared units: positive where a call is in the money, negative
/// where a put is.
pub open spec fn forward_gap(o: VanillaOption, m: MarketData) -> int {
    m.spot * discount_of((m.dividend_yield as int) * (o.maturity as int)) - o.strike * discount_of(
        (m.rate as int) * (o.maturity as int),
    )
}

/// Whether the option is in the money under the discounted forward gap.
pub open spec fn in_the_money(o: VanillaOption, m: MarketData) -> bool {
    if o.kind == OptionType::Call {
        forward_gap(o, m) > 0
    } else {
        forward_gap(o, m) < 0
    }
}

/// The discounted intrinsic value of an in-the-money option, in units:
/// the magnitude of the forward gap, brought back from squared units.
pub open spec fn discounted_intrinsic(o: VanillaOption, m: MarketData) -> int {
    (if forward_gap(o, m) >= 0 {
        forward_gap(o, m)
    } else {
        -forward_gap(o, m)
    }) / (UNIT as int)
}

/// The outcome of `quant_opts::BlackScholes::rational_implied_vol` on the
/// given inputs (units of `UNIT`): the implied volatility rounded to the
/// nearest unit, or `None` where the engine reports failure.
pub uninterp spec fn rational_iv_of(
    call: bool,
    strike: int,
    maturity: int,
    spot: int,
    rate: int,
    dividend: int,
    price: int,
) -> Option<int>;

/// Relies on `quant_opts::BlackScholes::rational_implied_vol`: the
/// "let's be rational" inversion of an observed price to a volatility.
/// Conversions are exact as in the pricing wrappers; the result is rounded to
/// the nearest unit and saturates at `i64::MAX` where it is not representable
/// (in particular at the engine's above-maximum-price sentinel, the largest
/// finite value). The exponent products are bounded so the engine's discount
/// and forward factors stay strictly inside the floating-point range: outside
/// that range its normalised price degenerates to a NaN that makes the
/// inverse-normal routine panic. `None` is returned exactly where the engine
/// reports failure, which its source shows for a price below the intrinsic
/// value and for a non-finite or negative iterate. When maturity is zero, or
/// rate and dividend are both zero, the discount and forward factors are
/// exactly one, so the engine sees the forward equal to the spot and the
/// undiscounted price equal to the observed price; a price at or beyond its
/// coarse upper cut-off (the strike for a call, the spot for a put) and not
/// below the intrinsic value then returns the saturated sentinel, which the
/// last clause states.
#[verifier::external_body]
fn rational_iv_units(
    call: bool,
    strike: i64,
    maturity: i64,
    spot: i64,
    rate: i64,
    dividend: i64,
    price: i64,
) -> (r: Option<i64>)
    requires
        1 <= strike <= MAX_UNITS,
        0 <= maturity <= MAX_UNITS,
        1 <= spot <= MAX_UNITS,
        -MAX_UNITS <= rate <= MAX_UNITS,
        -MAX_UNITS <= dividend <= MAX_UNITS,
        0 <= price <= MAX_UNITS,
        -MAX_EXPONENT_PRODUCT <= (rate as int) * (maturity as int) <= MAX_EXPONENT_PRODUCT,
        -MAX_EXPONENT_PRODUCT <= (dividend as int) * (maturity as int) <= MAX_EXPONENT_PRODUCT,
    ensures
        r is Some <==> rational_iv_of(
            call,
            strike as int,
            maturity as int,
            spot as int,
            rate as int,
            dividend as int,
            price as int,
        ) is Some,
        r matches Some(v) ==> rational_iv_of(
            call,
            strike as int,
            maturity as int,
            spot as int,
            rate as int,
            dividend as int,
            price as int,
        ) == Some(v as int) && v >= 0,
        (maturity == 0 || (rate == 0 && dividend == 0)) && price >= undiscounted_payoff(
            call,
            strike as int,
            spot as int,
        ) && price >= (if call { strike } else { spot }) ==> r == Some(i64::MAX),
{
    let sc = (-40_i64).to_f64().unwrap().exp2();
    let knd = if call { EngineType::Call } else { EngineType::Put };
    let k = strike.to_f64().unwrap() * sc;
    let t = maturity.to_f64().unwrap() * sc;
    let o = EngineOption::new(EngineStyle::European, knd, k, t);
    let y = dividend.to_f64().unwrap() * sc;
    let m = EngineMarket::new(spot.to_f64().unwrap() * sc, rate.to_f64().unwrap() * sc, y);
    match Engine::rational_implied_vol(price.to_f64().unwrap() * sc, &o, &m) {
        Ok(sig) => Some((sig / sc).round().to_i64().unwrap_or(i64::MAX)),
        Err(_) => None,
    }
}

/// Turn the engine's outcome on an in-bounds price into the solver's result:
/// a failure is a refinement that did not converge, a saturated value is a
/// price at or beyond the model's maximum, anything else is the volatility.
fn settle(sol: Option<i64>) -> (r: Result<i64, IvError>)
    ensures
        sol is None ==> r == Err::<i64, IvError>(IvError::NoConvergence),
        sol matches Some(v) ==> ((v > MAX_UNITS ==> r == Err::<i64, IvError>(
            IvError::PriceOutOfBounds,
        )) && (v <= MAX_UNITS ==> r == Ok::<i64, IvError>(v))),
{
    match sol {
        None => Err(IvError::NoConvergence),
        Some(v) => if v > MAX_UNITS {
            Err(IvError::PriceOutOfBounds)
        } else {
            Ok(v)
        },
    }
}

/// Implied volatility that reproduces `observed_price` under the
/// Black-Scholes model, in units of `UNIT`, through the globally convergent
/// rational inversion.
///
/// Rejects non-positive strike or spot and negative maturity with
/// `InvalidInput`. The no-arbitrage bounds follow the discounted forward
/// values: a negative price, or one below the discounted intrinsic value of
/// an in-the-money option, is `PriceOutOfBounds`. An in-the-money option is
/// first turned into its out-of-the-money complement by put-call parity
/// (subtracting the discounted intrinsic value from the price), so the engine
/// only ever inverts on the side where its own guards agree with the
/// no-arbitrage bounds. A saturated solver value means the price is at or
/// above the model's maximum, `PriceOutOfBounds`; a solver failure on a price
/// that passed the bound checks is `NoConvergence`. In the
/// exactly-representable regimes (zero maturity, or zero rate and dividend) a
/// price below the discounted intrinsic value, and an out-of-the-money price
/// at or above both strike and spot, are guaranteed to come back as
/// `PriceOutOfBounds`.
pub fn rational_implied_vol(
    observed_price: i64,
    option: &VanillaOption,
    market: &MarketData,
) -> (r: Result<i64, IvError>)
    requires
        option_in_range(*option),
        market_in_range(*market),
        exponents_in_range(*option, *market),
        -MAX_UNITS <= observed_price <= MAX_UNITS,
    ensures
        r == Err::<i64, IvError>(IvError::InvalidInput) <==> !iv_inputs_ok(*option, *market),
        iv_inputs_ok(*option, *market) && observed_price < 0 ==> r == Err::<i64, IvError>(
            IvError::PriceOutOfBounds,
        ),
        iv_inputs_ok(*option, *market) && observed_price >= 0 && !in_the_money(*option, *market)
            ==> ({
            let sol = rational_iv_of(
                is_call(*option),
                option.strike as int,
                option.maturity as int,
                market.spot as int,
                market.rate as int,
                market.dividend_yield as int,
                observed_price as int,
            );
            &&& sol is None ==> r == Err::<i64, IvError>(IvError::NoConvergence)
            &&& sol matches Some(v) ==> v >= 0 && ((v > MAX_UNITS ==> r == Err::<i64, IvError>(
                IvError::PriceOutOfBounds,
            )) && (v <= MAX_UNITS ==> r == Ok::<i64, IvError>(v as i64)))
        }),
        iv_inputs_ok(*option, *market) && observed_price >= 0 && in_the_money(*option, *market)
            && observed_price < discounted_intrinsic(*option, *market) ==> r == Err::<
            i64,
            IvError,
        >(IvError::PriceOutOfBounds),
        iv_inputs_ok(*option, *market) && observed_price >= 0 && in_the_money(*option, *market)
            && observed_price >= discounted_intrinsic(*option, *market) ==> ({
            let sol = rational_iv_of(
                !is_call(*option),
                option.strike as int,
                option.maturity as int,
                market.spot as int,
                market.rate as int,
                market.dividend_yield as int,
                observed_price - discounted_intrinsic(*option, *market),
            );
            &&& sol is None ==> r == Err::<i64, IvError>(IvError::NoConvergence)
            &&& sol matches Some(v) ==> v >= 0 && ((v > MAX_UNITS ==> r == Err::<i64, IvError>(
                IvError::PriceOutOfBounds,
            )) && (v <= MAX_UNITS ==> r == Ok::<i64, IvError>(v as i64)))
        }),
        iv_inputs_ok(*option, *market) && (option.maturity == 0 || (market.rate == 0
            && market.dividend_yield == 0)) && observed_price < expiry_payoff(
            option.kind,
            option.strike as int,
            market.spot as int,
        ) ==> r == Err::<i64, IvError>(IvError::PriceOutOfBounds),
        iv_inputs_ok(*option, *market) && (option.maturity == 0 || (market.rate == 0
            && market.dividend_yield == 0)) && expiry_payoff(
            option.kind,
            option.strike as int,
            market.spot as int,
        ) == 0 && observed_price >= option.strike && observed_price >= market.spot ==> r == Err::<
            i64,
            IvError,
        >(IvError::PriceOutOfBounds),
{
    if option.strike <= 0 || market.spot <= 0 || option.maturity < 0 {
        return Err(IvError::InvalidInput);
    }
    if observed_price < 0 {
        return Err(IvError::PriceOutOfBounds);
    }
    let call = match option.kind {
        OptionType::Call => true,
        OptionType::Put => false,
    };
    let xtr: i128 = (market.rate as i128) * (option.maturity as i128);
    let xtq: i128 = (market.dividend_yield as i128) * (option.maturity as i128);
    let df_r = discount_units(xtr);
    let df_q = discount_units(xtq);
    proof {
        assert((market.spot as int) * (df_q as int) <= 0x20_0000_0000_0000 * 0x7fff_ffff_ffff_ffff)
            by (nonlinear_arith)
            requires
                0 <= market.spot <= 0x20_0000_0000_0000,
                0 <= df_q <= 0x7fff_ffff_ffff_ffff,
        ;
        assert((option.strike as int) * (df_r as int) <= 0x20_0000_0000_0000
            * 0x7fff_ffff_ffff_ffff) by (nonlinear_arith)
            requires
                0 <= option.strike <= 0x20_0000_0000_0000,
                0 <= df_r <= 0x7fff_ffff_ffff_ffff,
        ;
    }
    let fwd: u128 = (market.spot as u128) * (df_q as u128);
    let stk: u128 = (option.strike as u128) * (df_r as u128);
    proof {
        assert(fwd - stk == forward_gap(*option, *market));
    }
    let itm = if call {
        fwd > stk
    } else {
        stk > fwd
    };
    proof {
        if option.maturity == 0 || (market.rate == 0 && market.dividend_yield == 0) {
            let diff = market.spot as int - option.strike as int;
            assert(xtq as int == (market.dividend_yield as int) * (option.maturity as int));
            assert(xtr as int == (market.rate as int) * (option.maturity as int));
            assert(xtq == 0) by (nonlinear_arith)
                requires
                    xtq as int == (market.dividend_yield as int) * (option.maturity as int),
                    option.maturity == 0 || market.dividend_yield == 0,
            ;
            assert(xtr == 0) by (nonlinear_arith)
                requires
                    xtr as int == (market.rate as int) * (option.maturity as int),
                    option.maturity == 0 || market.rate == 0,
            ;
            assert(df_q == UNIT && df_r == UNIT);
            assert(forward_gap(*option, *market) == market.spot as int * (UNIT as int)
                - option.strike as int * (UNIT as int));
            assert(forward_gap(*option, *market) == diff * (UNIT as int));
            if diff >= 0 {
                vstd::arithmetic::div_mod::lemma_div_multiples_vanish(diff, UNIT as int);
                assert(((UNIT as int) * diff) / (UNIT as int) == diff);
            } else {
                vstd::arithmetic::div_mod::lemma_div_multiples_vanish(-diff, UNIT as int);
                assert(((UNIT as int) * (-diff)) / (UNIT as int) == -diff);
            }
            assert(discounted_intrinsic(*option, *market) == (if diff >= 0 {
                diff
            } else {
                -diff
            }));
        }
    }
    if !itm {
        return settle(
            rational_iv_units(
                call,
                option.strike,
                option.maturity,
                market.spot,
                market.rate,
                market.dividend_yield,
                observed_price,
            ),
        );
    }
    let gap: u128 = if fwd >= stk {
        fwd - stk
    } else {
        stk - fwd
    };
    let intrinsic: u128 = gap / (UNIT as u128);
    if (observed_price as u128) < intrinsic {
        return Err(IvError::PriceOutOfBounds);
    }
    let complement_price: i64 = ((observed_price as u128) - intrinsic) as i64;
    settle(
        rational_iv_units(
            !call,
            option.strike,
            option.maturity,
            market.spot,
            market.rate,
            market.dividend_yield,
            complement_price,
        ),
    )
}

} // verus!
