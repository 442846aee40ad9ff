//! European option pricing, Greeks and implied volatility under the
//! Black-Scholes-Merton model, with the numerical work done by the
//! `quant_opts` engine behind specified boundaries.
//!
//! Every quantity is a fixed-point number with denominator `UNIT`: in that
//! range conversion to the engine's floating-point inputs is exact, so the
//! contracts here speak about precisely the values the engine sees. The
//! `num_traits` conversions inside the trusted wrappers exist solely for that
//! lossless integer-to-float scaling.

pub mod domain;
pub mod pricing;
pub mod greeks;
pub mod iv;

pub use domain::{MarketData, OptionStyle, OptionType, VanillaOption, MAX_EXPONENT_PRODUCT, MAX_UNITS, UNIT};
pub use pricing::{price, rational_price, PricingError};
pub use greeks::{charm, delta, gamma, rho, speed, theta, vanna, vega, vomma, zomma};
pub use iv::{rational_implied_vol, IvError};
