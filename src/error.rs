//! Error taxonomy shared by the whole library.

use vstd::prelude::*;

verus! {

/// The ways in which a computation of this library can be rejected.
#[derive(Clone, Debug, PartialEq, Eq)]
pub enum MMError {
    /// A strategy or estimator parameter is out of its domain.
    InvalidConfiguration(String),
    /// A price, volatility or price history is unusable.
    InvalidMarketState(String),
    /// The computed bid / ask violate ordering or positivity.
    InvalidQuoteGeneration(String),
    /// An intermediate computation produced a value the decimal type cannot hold.
    NumericalError(String),
}

/// Result type of the fallible operations of this library.
pub type MMResult<T> = Result<T, MMError>;

} // verus!
