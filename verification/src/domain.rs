use vstd::prelude::*;

verus! {

/// One unit of every numeric quantity in this crate: all prices, rates,
/// times and volatilities are fixed-point numbers with denominator `UNIT`
/// (two to the fortieth), stored in an `i64`.
pub const UNIT: i64 = 0x100_0000_0000;

/// Largest magnitude, in units, that the pricing routines accept. Up to this
/// bound a quantity converts to the underlying numeric representation without
/// loss, so callers and the pricing engine see exactly the same value.
pub const MAX_UNITS: i64 = 0x20_0000_0000_0000;

/// Largest magnitude, in squared units, that the implied-volatility solver
/// accepts for the products rate times maturity and dividend yield times
/// maturity (fifteen, in plain value). Within it every discount and forward
/// factor the engine forms is a positive, finite floating-point number, and a
/// discount factor scaled to units still fits an `i64`; beyond it the
/// engine's arithmetic can underflow to zero or overflow and fail.
pub const MAX_EXPONENT_PRODUCT: i128 = 0xF_0000_0000_0000_0000_0000;

/// Payoff direction of a vanilla option.
#[derive(Clone, Copy, PartialEq, Eq, Structural, Debug)]
pub enum OptionType {
    Call,
    Put,
}

/// Exercise style of a vanilla option.
#[derive(Clone, Copy, PartialEq, Eq, Structural, Debug)]
pub enum OptionStyle {
    European,
}

/// A vanilla option contract: style, payoff direction, strike and time to
/// maturity in years. Strike and maturity are in units of `UNIT`.
///
/// Construction performs no validation; the pricing functions reject
/// non-positive strikes and negative maturities themselves.
#[derive(Clone, Copy, PartialEq, Eq, Structural, Debug)]
pub struct VanillaOption {
    pub style: OptionStyle,
    pub kind: OptionType,
    pub strike: i64,
    pub maturity: i64,
}

/// Market data for a single underlying: spot price, continuously-compounded
/// risk-free rate and dividend yield, all in units of `UNIT`. Rate and yield
/// may be negative.
#[derive(Clone, Copy, PartialEq, Eq, Structural, Debug)]
pub struct MarketData {
    pub spot: i64,
    pub rate: i64,
    pub dividend_yield: i64,
}

impl VanillaOption {
    /// Build an option contract from its components, unvalidated.
    pub fn new(style: OptionStyle, kind: OptionType, strike: i64, maturity: i64) -> (r: Self)
        ensures
            r == (VanillaOption { style, kind, strike, maturity }),
    {
        VanillaOption { style, kind, strike, maturity }
    }
}

impl MarketData {
    /// Build market data from its components, unvalidated.
    pub fn new(spot: i64, rate: i64, dividend_yield: i64) -> (r: Self)
        ensures
            r == (MarketData { spot, rate, dividend_yield }),
    {
        MarketData { spot, rate, dividend_yield }
    }
}

/// The option's fields lie within the exactly-representable range.
pub open spec fn option_in_range(o: VanillaOption) -> bool {
    &&& -MAX_UNITS <= o.strike <= MAX_UNITS
    &&& -MAX_UNITS <= o.maturity <= MAX_UNITS
}

/// The market's fields lie within the exactly-representable range.
pub open spec fn market_in_range(m: MarketData) -> bool {
    &&& -MAX_UNITS <= m.spot <= MAX_UNITS
    &&& -MAX_UNITS <= m.rate <= MAX_UNITS
    &&& -MAX_UNITS <= m.dividend_yield <= MAX_UNITS
}

/// The rate and dividend exponents the solver would hand to the engine stay
/// inside the safe floating-point range.
pub open spec fn exponents_in_range(o: VanillaOption, m: MarketData) -> bool {
    &&& -MAX_EXPONENT_PRODUCT <= (m.rate as int) * (o.maturity as int) <= MAX_EXPONENT_PRODUCT
    &&& -MAX_EXPONENT_PRODUCT <= (m.dividend_yield as int) * (o.maturity as int)
        <= MAX_EXPONENT_PRODUCT
}

/// Inputs on which a price is well defined: positive strike and spot,
/// non-negative maturity, strictly positive volatility.
pub open spec fn pricing_inputs_ok(o: VanillaOption, m: MarketData, vol: i64) -> bool {
    &&& o.strike > 0
    &&& o.maturity >= 0
    &&& m.spot > 0
    &&& vol > 0
}

/// Intrinsic value of the option against a settlement level `spot`, in units:
/// `max(spot - strike, 0)` for a call, `max(strike - spot, 0)` for a put.
pub open spec fn expiry_payoff(kind: OptionType, strike: int, spot: int) -> int {
    match kind {
        OptionType::Call => if spot >= strike { spot - strike } else { 0 },
        OptionType::Put => if strike >= spot { strike - spot } else { 0 },
    }
}

/// Intrinsic value at expiry, exact in integer arithmetic. At zero maturity
/// the discount factors are one, so this is also the discounted intrinsic
/// value of the contract.
pub fn expiry_value(kind: OptionType, strike: i64, spot: i64) -> (r: i64)
    requires
        1 <= strike <= MAX_UNITS,
        1 <= spot <= MAX_UNITS,
    ensures
        r == expiry_payoff(kind, strike as int, spot as int),
        0 <= r <= MAX_UNITS,
{
    match kind {
        OptionType::Call => if spot >= strike { spot - strike } else { 0 },
        OptionType::Put => if strike >= spot { strike - spot } else { 0 },
    }
}

} // verus!
