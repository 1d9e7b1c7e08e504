//! The position ledger: signed quantity and weighted average entry price.

use crate::decimal::{
    add_opt, dec_add, dec_div, dec_mul, dec_sub, difference_of, lemma_units_sign, mul_opt,
    numeric_outcome, product_of, quotient_of, sum_of, units, zero_repr, Decimal
};
use crate::error::MMResult;
use vstd::prelude::*;

verus! {

pub open spec fn abs_int(x: int) -> int {
    if x < 0 {
        -x
    } else {
        x
    }
}

/// `q` and `n` have strictly opposite, non-zero signs.
pub open spec fn crosses(q: int, n: int) -> bool {
    (q > 0 && n < 0) || (q < 0 && n > 0)
}

/// The average entry price after a fill of `fill_qty` at `fill_price` takes
/// the quantity from `qty` to `new_qty`, before a flat result clears it: the
/// fill price on a sign crossing, the quantity-weighted average when the
/// position grows, the old average when it shrinks.
pub open spec fn next_avg_price(
    qty: (int, nat),
    avg: (int, nat),
    fill_qty: (int, nat),
    fill_price: (int, nat),
    new_qty: (int, nat),
) -> Option<(int, nat)> {
    if crosses(units(qty), units(new_qty)) {
        Some(fill_price)
    } else if abs_int(units(new_qty)) > abs_int(units(qty)) {
        match add_opt(product_of(qty, avg), product_of(fill_qty, fill_price)) {
            Some(cost) => quotient_of(cost, new_qty),
            None => None,
        }
    } else {
        Some(avg)
    }
}

/// Signed quantity (positive long, negative short), average entry price and
/// the time of the last fill.
#[derive(Clone, Copy, Debug)]
pub struct InventoryPosition {
    pub quantity: Decimal,
    pub avg_entry_price: Decimal,
    /// Milliseconds.
    pub last_update: u64,
}

impl InventoryPosition {
    /// A flat position has a zero average entry price.
    pub open spec fn flat_has_no_price(self) -> bool {
        units(self.quantity@) == 0 ==> units(self.avg_entry_price@) == 0
    }

    /// A flat position at time zero.
    pub fn new() -> (r: Self)
        ensures
            r.quantity@ == zero_repr(),
            r.avg_entry_price@ == zero_repr(),
            r.last_update == 0,
    {
        InventoryPosition {
            quantity: Decimal::zero(),
            avg_entry_price: Decimal::zero(),
            last_update: 0,
        }
    }

    pub fn is_flat(&self) -> (r: bool)
        ensures
            r == (units(self.quantity@) == 0),
    {
        self.quantity.is_zero()
    }

    pub fn is_long(&self) -> (r: bool)
        ensures
            r == (units(self.quantity@) > 0),
    {
        self.quantity.is_positive()
    }

    pub fn is_short(&self) -> (r: bool)
        ensures
            r == (units(self.quantity@) < 0),
    {
        self.quantity.is_negative()
    }

    /// Applies a fill of `fill_quantity` (signed) at `fill_price`. On a sign
    /// crossing the average entry price becomes the fill price; when the
    /// position grows it becomes the quantity-weighted average; when it
    /// shrinks it stays. A flat result has a zero average price. Realized
    /// profit is the caller's to book, from the average price before the
    /// fill. Where a step overflows, the position is left unchanged and a
    /// numerical error returned.
    pub fn update_fill(&mut self, fill_quantity: Decimal, fill_price: Decimal, timestamp: u64) -> (r:
        MMResult<()>)
        ensures
            ({
                let q = old(self).quantity@;
                match sum_of(q, fill_quantity@) {
                    Some(n) => match next_avg_price(
                        q,
                        old(self).avg_entry_price@,
                        fill_quantity@,
                        fill_price@,
                        n,
                    ) {
                        Some(a) => r is Ok && final(self).quantity@ == n && final(self).last_update
                            == timestamp && final(self).avg_entry_price@ == (if units(n) == 0 {
                            zero_repr()
                        } else {
                            a
                        }),
                        None => r is Err,
                    },
                    None => r is Err,
                }
            }),
            r is Ok ==> final(self).flat_has_no_price(),
            r is Err ==> r->Err_0 is NumericalError && *final(self) == *old(self),
    {
        let new_quantity = dec_add(self.quantity, fill_quantity)?;
        let crossing = (self.quantity.is_positive() && new_quantity.is_negative())
            || (self.quantity.is_negative() && new_quantity.is_positive());
        let avg = if crossing {
            fill_price
        } else if self.quantity.abs() < new_quantity.abs() {
            let held = dec_mul(self.quantity, self.avg_entry_price)?;
            let added = dec_mul(fill_quantity, fill_price)?;
            let total_cost = dec_add(held, added)?;
            dec_div(total_cost, new_quantity)?
        } else {
            self.avg_entry_price
        };
        self.quantity = new_quantity;
        self.last_update = timestamp;
        if new_quantity.is_zero() {
            proof {
                lemma_units_sign(zero_repr());
            }
            self.avg_entry_price = Decimal::zero();
        } else {
            self.avg_entry_price = avg;
        }
        Ok(())
    }

    /// `quantity * (current_price - avg_entry_price)`, zero when flat.
    pub fn unrealized_pnl(&self, current_price: Decimal) -> (r: MMResult<Decimal>)
        ensures
            units(self.quantity@) == 0 ==> r is Ok && r->Ok_0@ == zero_repr(),
            units(self.quantity@) != 0 ==> numeric_outcome(
                r,
                mul_opt(
                    Some(self.quantity@),
                    difference_of(current_price@, self.avg_entry_price@),
                ),
            ),
    {
        if self.is_flat() {
            return Ok(Decimal::zero());
        }
        let diff = dec_sub(current_price, self.avg_entry_price)?;
        dec_mul(self.quantity, diff)
    }
}

impl Default for InventoryPosition {
    fn default() -> (r: Self)
        ensures
            r.quantity@ == zero_repr(),
            r.avg_entry_price@ == zero_repr(),
            r.last_update == 0,
    {
        Self::new()
    }
}

} // verus!
