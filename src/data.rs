//! Historical market data for backtests: quote ticks, OHLCV bars, and a
//! replayable in-memory tick source.

use crate::decimal::{
    add_opt, dec_add, dec_div, dec_mul, dec_sub, difference_of, div_opt, mul_opt, numeric_outcome,
    sum_of, units, zero_repr, Decimal
};
use crate::error::MMResult;
use vstd::prelude::*;

verus! {

/// Top of book at one instant, with the last trade where one is known.
#[derive(Clone, Copy, Debug, PartialEq)]
pub struct MarketTick {
    /// Milliseconds.
    pub timestamp: u64,
    pub bid_price: Decimal,
    pub bid_size: Decimal,
    pub ask_price: Decimal,
    pub ask_size: Decimal,
    pub last_price: Option<Decimal>,
    pub last_size: Option<Decimal>,
}

/// `(bid + ask) / 2`.
pub open spec fn mid_of(bid: (int, nat), ask: (int, nat)) -> Option<(int, nat)> {
    div_opt(sum_of(bid, ask), Some((2int, 0nat)))
}

impl MarketTick {
    /// A tick without a last trade.
    pub fn new(
        timestamp: u64,
        bid_price: Decimal,
        bid_size: Decimal,
        ask_price: Decimal,
        ask_size: Decimal,
    ) -> (r: Self)
        ensures
            r == (MarketTick {
                timestamp,
                bid_price,
                bid_size,
                ask_price,
                ask_size,
                last_price: None,
                last_size: None,
            }),
    {
        MarketTick {
            timestamp,
            bid_price,
            bid_size,
            ask_price,
            ask_size,
            last_price: None,
            last_size: None,
        }
    }

    /// A tick with the price and size of the last trade.
    pub fn with_last_trade(
        timestamp: u64,
        bid_price: Decimal,
        bid_size: Decimal,
        ask_price: Decimal,
        ask_size: Decimal,
        last_price: Decimal,
        last_size: Decimal,
    ) -> (r: Self)
        ensures
            r == (MarketTick {
                timestamp,
                bid_price,
                bid_size,
                ask_price,
                ask_size,
                last_price: Some(last_price),
                last_size: Some(last_size),
            }),
    {
        MarketTick {
            timestamp,
            bid_price,
            bid_size,
            ask_price,
            ask_size,
            last_price: Some(last_price),
            last_size: Some(last_size),
        }
    }

    /// `(bid + ask) / 2`.
    pub fn mid_price(&self) -> (r: MMResult<Decimal>)
        ensures
            numeric_outcome(r, mid_of(self.bid_price@, self.ask_price@)),
    {
        let sum = dec_add(self.bid_price, self.ask_price)?;
        dec_div(sum, Decimal::two())
    }

    /// `ask - bid`.
    pub fn spread(&self) -> (r: MMResult<Decimal>)
        ensures
            numeric_outcome(r, difference_of(self.ask_price@, self.bid_price@)),
    {
        dec_sub(self.ask_price, self.bid_price)
    }

    /// The spread in basis points of the mid price; zero where the mid price
    /// is not positive.
    pub fn spread_bps(&self) -> (r: MMResult<Decimal>)
        ensures
            match mid_of(self.bid_price@, self.ask_price@) {
                Some(mid) => if units(mid) > 0 {
                    numeric_outcome(
                        r,
                        mul_opt(
                            div_opt(difference_of(self.ask_price@, self.bid_price@), Some(mid)),
                            Some((10000int, 0nat)),
                        ),
                    )
                } else {
                    r is Ok && r->Ok_0@ == zero_repr()
                },
                None => r is Err,
            },
    {
        let mid = self.mid_price()?;
        if mid.is_positive() {
            let spread = self.spread()?;
            let ratio = dec_div(spread, mid)?;
            dec_mul(ratio, Decimal::from_u64(10000))
        } else {
            Ok(Decimal::zero())
        }
    }

    /// `bid_size + ask_size`.
    pub fn total_liquidity(&self) -> (r: MMResult<Decimal>)
        ensures
            numeric_outcome(r, sum_of(self.bid_size@, self.ask_size@)),
    {
        dec_add(self.bid_size, self.ask_size)
    }

    /// `(bid_size - ask_size) / (bid_size + ask_size)`; zero where the total
    /// is not positive.
    pub fn imbalance(&self) -> (r: MMResult<Decimal>)
        ensures
            match sum_of(self.bid_size@, self.ask_size@) {
                Some(total) => if units(total) > 0 {
                    numeric_outcome(
                        r,
                        div_opt(difference_of(self.bid_size@, self.ask_size@), Some(total)),
                    )
                } else {
                    r is Ok && r->Ok_0@ == zero_repr()
                },
                None => r is Err,
            },
    {
        let total = self.total_liquidity()?;
        if total.is_positive() {
            let diff = dec_sub(self.bid_size, self.ask_size)?;
            dec_div(diff, total)
        } else {
            Ok(Decimal::zero())
        }
    }
}

/// Open, high, low, close and volume over one period.
#[derive(Clone, Copy, Debug, PartialEq)]
pub struct OHLCVBar {
    /// Milliseconds.
    pub timestamp: u64,
    pub open: Decimal,
    pub high: Decimal,
    pub low: Decimal,
    pub close: Decimal,
    pub volume: Decimal,
}

/// `(high + low + close) / 3`.
pub open spec fn typical_of(high: (int, nat), low: (int, nat), close: (int, nat)) -> Option<(int, nat)> {
    div_opt(add_opt(sum_of(high, low), Some(close)), Some((3int, 0nat)))
}

impl OHLCVBar {
    pub fn new(
        timestamp: u64,
        open: Decimal,
        high: Decimal,
        low: Decimal,
        close: Decimal,
        volume: Decimal,
    ) -> (r: Self)
        ensures
            r == (OHLCVBar { timestamp, open, high, low, close, volume }),
    {
        OHLCVBar { timestamp, open, high, low, close, volume }
    }

    /// `high - low`.
    pub fn range(&self) -> (r: MMResult<Decimal>)
        ensures
            numeric_outcome(r, difference_of(self.high@, self.low@)),
    {
        dec_sub(self.high, self.low)
    }

    /// `|close - open|`.
    pub fn body(&self) -> (r: MMResult<Decimal>)
        ensures
            units(self.close@) > units(self.open@) ==> numeric_outcome(
                r,
                difference_of(self.close@, self.open@),
            ),
            units(self.close@) <= units(self.open@) ==> numeric_outcome(
                r,
                difference_of(self.open@, self.close@),
            ),
    {
        if self.close > self.open {
            dec_sub(self.close, self.open)
        } else {
            dec_sub(self.open, self.close)
        }
    }

    pub fn is_bullish(&self) -> (r: bool)
        ensures
            r == (units(self.close@) > units(self.open@)),
    {
        self.close > self.open
    }

    pub fn is_bearish(&self) -> (r: bool)
        ensures
            r == (units(self.close@) < units(self.open@)),
    {
        self.close < self.open
    }

    /// `(high + low + close) / 3`.
    pub fn typical_price(&self) -> (r: MMResult<Decimal>)
        ensures
            numeric_outcome(r, typical_of(self.high@, self.low@, self.close@)),
    {
        let hl = dec_add(self.high, self.low)?;
        let hlc = dec_add(hl, self.close)?;
        dec_div(hlc, Decimal::from_u64(3))
    }

    /// The bar's volume-weighted price, approximated by the typical price.
    pub fn vwap(&self) -> (r: MMResult<Decimal>)
        ensures
            numeric_outcome(r, typical_of(self.high@, self.low@, self.close@)),
    {
        self.typical_price()
    }
}

/// A source of ticks replayed in order.
pub trait HistoricalDataSource {
    /// The next tick, advancing the cursor; `None` when exhausted.
    fn next_tick(&mut self) -> Option<MarketTick>;

    /// The next tick, without advancing.
    fn peek_tick(&self) -> Option<&MarketTick>;

    /// Moves the cursor back to the first tick.
    fn reset(&mut self);

    /// The number of ticks.
    fn len(&self) -> usize;

    fn is_empty(&self) -> bool {
        self.len() == 0
    }

    /// The number of ticks not yet handed out.
    fn remaining(&self) -> usize;
}

/// Ticks held in a vector, with a cursor.
#[derive(Clone, Debug)]
pub struct VecDataSource {
    ticks: Vec<MarketTick>,
    index: usize,
}

impl VecDataSource {
    /// The ticks, in order.
    pub closed spec fn tick_seq(&self) -> Seq<MarketTick> {
        self.ticks@
    }

    /// The cursor: how many ticks were handed out since the last reset.
    pub closed spec fn cursor(&self) -> nat {
        self.index as nat
    }

    /// A source over `ticks`, at its start.
    pub fn new(ticks: Vec<MarketTick>) -> (r: Self)
        ensures
            r.tick_seq() == ticks@,
            r.cursor() == 0,
    {
        VecDataSource { ticks, index: 0 }
    }

    /// A source without ticks.
    pub fn empty() -> (r: Self)
        ensures
            r.tick_seq() == Seq::<MarketTick>::empty(),
            r.cursor() == 0,
    {
        VecDataSource { ticks: Vec::new(), index: 0 }
    }

    pub fn current_index(&self) -> (r: usize)
        ensures
            r == self.cursor(),
    {
        self.index
    }

    pub fn ticks(&self) -> (r: &[MarketTick])
        ensures
            r@ == self.tick_seq(),
    {
        self.ticks.as_slice()
    }

    /// The tick at `index`, if there is one.
    pub fn get(&self, index: usize) -> (r: Option<&MarketTick>)
        ensures
            index < self.tick_seq().len() ==> r == Some(&self.tick_seq()[index as int]),
            index >= self.tick_seq().len() ==> r is None,
    {
        if index < self.ticks.len() {
            Some(&self.ticks[index])
        } else {
            None
        }
    }

    /// Appends a tick at the end.
    pub fn push(&mut self, tick: MarketTick)
        ensures
            final(self).tick_seq() == old(self).tick_seq().push(tick),
            final(self).cursor() == old(self).cursor(),
    {
        self.ticks.push(tick);
    }

    /// The tick under the cursor, advancing it; `None` once every tick was
    /// handed out.
    pub fn next_tick(&mut self) -> (r: Option<MarketTick>)
        ensures
            final(self).tick_seq() == old(self).tick_seq(),
            old(self).cursor() < old(self).tick_seq().len() ==> r == Some(
                old(self).tick_seq()[old(self).cursor() as int],
            ) && final(self).cursor() == old(self).cursor() + 1,
            old(self).cursor() >= old(self).tick_seq().len() ==> r is None && final(self).cursor()
                == old(self).cursor(),
    {
        if self.index < self.ticks.len() {
            let tick = self.ticks[self.index];
            self.index = self.index + 1;
            Some(tick)
        } else {
            None
        }
    }

    /// The tick under the cursor, without advancing it.
    pub fn peek_tick(&self) -> (r: Option<&MarketTick>)
        ensures
            self.cursor() < self.tick_seq().len() ==> r == Some(&self.tick_seq()[self.cursor() as int]),
            self.cursor() >= self.tick_seq().len() ==> r is None,
    {
        if self.index < self.ticks.len() {
            Some(&self.ticks[self.index])
        } else {
            None
        }
    }

    /// Moves the cursor back to the first tick.
    pub fn reset(&mut self)
        ensures
            final(self).tick_seq() == old(self).tick_seq(),
            final(self).cursor() == 0,
    {
        self.index = 0;
    }

    pub fn len(&self) -> (r: usize)
        ensures
            r == self.tick_seq().len(),
    {
        self.ticks.len()
    }

    pub fn is_empty(&self) -> (r: bool)
        ensures
            r == (self.tick_seq().len() == 0),
    {
        self.ticks.len() == 0
    }

    /// The ticks not yet handed out.
    pub fn remaining(&self) -> (r: usize)
        ensures
            r == if self.cursor() < self.tick_seq().len() {
                (self.tick_seq().len() - self.cursor()) as nat
            } else {
                0
            },
    {
        if self.index < self.ticks.len() {
            self.ticks.len() - self.index
        } else {
            0
        }
    }

    /// The timestamps of the first and the last tick.
    pub fn time_range(&self) -> (r: Option<(u64, u64)>)
        ensures
            self.tick_seq().len() == 0 ==> r is None,
            self.tick_seq().len() > 0 ==> r == Some(
                (self.tick_seq()[0].timestamp, self.tick_seq().last().timestamp),
            ),
    {
        if self.ticks.len() == 0 {
            None
        } else {
            Some((self.ticks[0].timestamp, self.ticks[self.ticks.len() - 1].timestamp))
        }
    }
}

impl HistoricalDataSource for VecDataSource {
    fn next_tick(&mut self) -> Option<MarketTick> {
        VecDataSource::next_tick(self)
    }

    fn peek_tick(&self) -> Option<&MarketTick> {
        VecDataSource::peek_tick(self)
    }

    fn reset(&mut self) {
        VecDataSource::reset(self)
    }

    fn len(&self) -> usize {
        VecDataSource::len(self)
    }

    fn remaining(&self) -> usize {
        VecDataSource::remaining(self)
    }
}

impl Default for VecDataSource {
    fn default() -> (r: Self)
        ensures
            r.tick_seq() == Seq::<MarketTick>::empty(),
            r.cursor() == 0,
    {
        Self::empty()
    }
}

} // verus!
