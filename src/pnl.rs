//! Realized / unrealized profit and loss.

use crate::decimal::{dec_add, sum_of, zero_repr, Decimal};
use crate::error::MMResult;
use vstd::prelude::*;

verus! {

/// Realized, unrealized and total profit; `total` is kept equal to
/// `realized + unrealized` by every mutation.
#[derive(Clone, Copy, Debug)]
pub struct PnL {
    pub realized: Decimal,
    pub unrealized: Decimal,
    pub total: Decimal,
}

impl PnL {
    /// `total` is what adding `realized` and `unrealized` gives.
    pub open spec fn is_consistent(self) -> bool {
        sum_of(self.realized@, self.unrealized@) == Some(self.total@)
    }

    /// All three at zero.
    pub fn new() -> (r: Self)
        ensures
            r.realized@ == zero_repr(),
            r.unrealized@ == zero_repr(),
            r.total@ == zero_repr(),
    {
        PnL { realized: Decimal::zero(), unrealized: Decimal::zero(), total: Decimal::zero() }
    }

    /// Sets both parts and recomputes the total. Where the total overflows
    /// the record is left unchanged and a numerical error returned.
    pub fn update(&mut self, realized: Decimal, unrealized: Decimal) -> (r: MMResult<()>)
        ensures
            r is Ok <==> sum_of(realized@, unrealized@) is Some,
            r is Ok ==> final(self).realized == realized && final(self).unrealized == unrealized
                && final(self).is_consistent(),
            r is Err ==> r->Err_0 is NumericalError && *final(self) == *old(self),
    {
        let total = dec_add(realized, unrealized)?;
        self.realized = realized;
        self.unrealized = unrealized;
        self.total = total;
        Ok(())
    }

    /// Adds `amount` to the realized part and recomputes the total. Where a
    /// sum overflows the record is left unchanged and a numerical error
    /// returned.
    pub fn add_realized(&mut self, amount: Decimal) -> (r: MMResult<()>)
        ensures
            r is Ok <==> ({
                let realized = sum_of(old(self).realized@, amount@);
                realized is Some && sum_of(realized->Some_0, old(self).unrealized@) is Some
            }),
            r is Ok ==> sum_of(old(self).realized@, amount@) == Some(final(self).realized@)
                && final(self).unrealized == old(self).unrealized && final(self).is_consistent(),
            r is Err ==> r->Err_0 is NumericalError && *final(self) == *old(self),
    {
        let realized = dec_add(self.realized, amount)?;
        let total = dec_add(realized, self.unrealized)?;
        self.realized = realized;
        self.total = total;
        Ok(())
    }

    /// Replaces the unrealized part and recomputes the total. Where the
    /// total overflows the record is left unchanged and a numerical error
    /// returned.
    pub fn set_unrealized(&mut self, amount: Decimal) -> (r: MMResult<()>)
        ensures
            r is Ok <==> sum_of(old(self).realized@, amount@) is Some,
            r is Ok ==> final(self).realized == old(self).realized && final(self).unrealized
                == amount && final(self).is_consistent(),
            r is Err ==> r->Err_0 is NumericalError && *final(self) == *old(self),
    {
        let total = dec_add(self.realized, amount)?;
        self.unrealized = amount;
        self.total = total;
        Ok(())
    }
}

impl Default for PnL {
    fn default() -> (r: Self)
        ensures
            r.realized@ == zero_repr(),
            r.unrealized@ == zero_repr(),
            r.total@ == zero_repr(),
    {
        Self::new()
    }
}

} // verus!
