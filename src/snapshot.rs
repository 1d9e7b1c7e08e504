//! A snapshot of the market that the quoting formulas read.

use crate::decimal::Decimal;
use vstd::prelude::*;

verus! {

/// Mid price, annualized volatility and the time of the snapshot.
#[derive(Clone, Copy, Debug)]
pub struct MarketState {
    pub mid_price: Decimal,
    pub volatility: Decimal,
    /// Milliseconds.
    pub timestamp: u64,
}

impl MarketState {
    pub fn new(mid_price: Decimal, volatility: Decimal, timestamp: u64) -> (r: Self)
        ensures
            r.mid_price == mid_price,
            r.volatility == volatility,
            r.timestamp == timestamp,
    {
        MarketState { mid_price, volatility, timestamp }
    }
}

} // verus!
