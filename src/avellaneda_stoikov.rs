//! The Avellaneda-Stoikov closed-form quotes: reservation price, optimal
//! spread and the bid / ask around them.

use crate::decimal::{
    lemma_units_sign, zero_repr, add_opt, dec_add, dec_div, dec_mul, dec_sub, decimal_ln, decimal_powi, difference_of, div_opt,
    ln_opt, mul_opt, numeric_outcome, powi_of, quotient_of, sub_opt, sum_of, units, Decimal
};
use crate::error::{MMError, MMResult};
use vstd::prelude::*;

verus! {

/// Time to terminal, in milliseconds, as years of 365 days:
/// `t_ms * 0.001 / 31536000`.
pub open spec fn ms_to_years(t_ms: u64) -> Option<(int, nat)> {
    div_opt(mul_opt(Some((t_ms as int, 0nat)), Some((1int, 3nat))), Some((31536000int, 0nat)))
}

/// `mid - q * gamma * sigma^2 * T`, as the decimal arithmetic computes it.
pub open spec fn reservation_value(
    mid: (int, nat),
    q: (int, nat),
    gamma: (int, nat),
    sigma: (int, nat),
    t_ms: u64,
) -> Option<(int, nat)> {
    sub_opt(
        Some(mid),
        mul_opt(mul_opt(mul_opt(Some(q), Some(gamma)), powi_of(sigma, 2)), ms_to_years(t_ms)),
    )
}

/// `gamma * sigma^2 * T + (2 / gamma) * ln(1 + gamma / k)`, as the decimal
/// arithmetic computes it.
pub open spec fn spread_value(gamma: (int, nat), sigma: (int, nat), t_ms: u64, k: (int, nat)) -> Option<
    (int, nat),
> {
    add_opt(
        mul_opt(mul_opt(Some(gamma), powi_of(sigma, 2)), ms_to_years(t_ms)),
        mul_opt(
            div_opt(Some((2int, 0nat)), Some(gamma)),
            ln_opt(add_opt(Some((1int, 0nat)), div_opt(Some(gamma), Some(k)))),
        ),
    )
}

pub open spec fn is_market_state_error<T>(r: MMResult<T>) -> bool {
    r is Err && r->Err_0 is InvalidMarketState
}

pub open spec fn is_configuration_error<T>(r: MMResult<T>) -> bool {
    r is Err && r->Err_0 is InvalidConfiguration
}

pub open spec fn is_numerical_error<T>(r: MMResult<T>) -> bool {
    r is Err && r->Err_0 is NumericalError
}

pub open spec fn is_quote_error<T>(r: MMResult<T>) -> bool {
    r is Err && r->Err_0 is InvalidQuoteGeneration
}

/// What `calculate_optimal_spread` returns once its inputs are valid: the
/// spread, or a numerical error where it cannot be computed or is negative.
pub open spec fn spread_outcome(r: MMResult<Decimal>, v: Option<(int, nat)>) -> bool {
    match v {
        Some(x) => if units(x) < 0 {
            is_numerical_error(r)
        } else {
            r is Ok && r->Ok_0@ == x
        },
        None => is_numerical_error(r),
    }
}

/// What `calculate_optimal_quotes` returns once reservation price `rv` and
/// spread `sv` are known: bid and ask half a spread below and above, or a
/// quote error where they are not ordered or the bid is not positive.
pub open spec fn quotes_outcome(
    r: MMResult<(Decimal, Decimal)>,
    rv: Option<(int, nat)>,
    sv: Option<(int, nat)>,
) -> bool {
    match (rv, sv) {
        (Some(res), Some(spread)) => if units(spread) < 0 {
            is_numerical_error(r)
        } else {
            match quotient_of(spread, (2int, 0nat)) {
                Some(half) => match (difference_of(res, half), sum_of(res, half)) {
                    (Some(bid), Some(ask)) => if units(bid) >= units(ask) || units(bid) <= 0 {
                        is_quote_error(r)
                    } else {
                        r is Ok && r->Ok_0.0@ == bid && r->Ok_0.1@ == ask
                    },
                    _ => is_numerical_error(r),
                },
                None => is_numerical_error(r),
            }
        },
        _ => is_numerical_error(r),
    }
}

fn seconds_per_millisecond() -> (r: Decimal)
    ensures
        r@ == (1int, 3nat),
{
    Decimal::new(1, 3)
}

fn seconds_per_year() -> (r: Decimal)
    ensures
        r@ == (31536000int, 0nat),
{
    Decimal::new(31_536_000, 0)
}

/// Milliseconds to years of 365 days.
fn years_from_ms(time_to_terminal_ms: u64) -> (r: MMResult<Decimal>)
    ensures
        numeric_outcome(r, ms_to_years(time_to_terminal_ms)),
{
    let ms = Decimal::from_u64(time_to_terminal_ms);
    let secs = dec_mul(ms, seconds_per_millisecond())?;
    dec_div(secs, seconds_per_year())
}

/// Reservation price `r = s - q * gamma * sigma^2 * T`, with `T` the time to
/// terminal in years.
pub fn calculate_reservation_price(
    mid_price: Decimal,
    inventory: Decimal,
    risk_aversion: Decimal,
    volatility: Decimal,
    time_to_terminal_ms: u64,
) -> (r: MMResult<Decimal>)
    ensures
        units(mid_price@) <= 0 ==> is_market_state_error(r),
        units(mid_price@) > 0 && units(volatility@) <= 0 ==> is_market_state_error(r),
        units(mid_price@) > 0 && units(volatility@) > 0 && units(risk_aversion@) <= 0
            ==> is_configuration_error(r),
        units(mid_price@) > 0 && units(volatility@) > 0 && units(risk_aversion@) > 0
            ==> numeric_outcome(
            r,
            reservation_value(
                mid_price@,
                inventory@,
                risk_aversion@,
                volatility@,
                time_to_terminal_ms,
            ),
        ),
        units(mid_price@) > 0 && units(volatility@) > 0 && units(risk_aversion@) > 0 && units(
            inventory@,
        ) == 0 && powi_of(volatility@, 2) is Some && ms_to_years(time_to_terminal_ms) is Some ==> r
            is Ok && r->Ok_0@ == mid_price@,
{
    if !mid_price.is_positive() {
        return Err(MMError::InvalidMarketState("mid_price must be positive".to_string()));
    }
    if !volatility.is_positive() {
        return Err(MMError::InvalidMarketState("volatility must be positive".to_string()));
    }
    if !risk_aversion.is_positive() {
        return Err(MMError::InvalidConfiguration("risk_aversion must be positive".to_string()));
    }
    let years = years_from_ms(time_to_terminal_ms)?;
    let volatility_squared = decimal_powi(volatility, 2)?;
    proof {
        lemma_units_sign(zero_repr());
    }
    let a = dec_mul(inventory, risk_aversion)?;
    let b = dec_mul(a, volatility_squared)?;
    let adjustment = dec_mul(b, years)?;
    dec_sub(mid_price, adjustment)
}

/// Optimal spread `delta = gamma * sigma^2 * T + (2 / gamma) * ln(1 + gamma / k)`.
pub fn calculate_optimal_spread(
    risk_aversion: Decimal,
    volatility: Decimal,
    time_to_terminal_ms: u64,
    order_intensity: Decimal,
) -> (r: MMResult<Decimal>)
    ensures
        units(risk_aversion@) <= 0 ==> is_configuration_error(r),
        units(volatility@) <= 0 ==> is_configuration_error(r),
        units(order_intensity@) <= 0 ==> is_configuration_error(r),
        units(risk_aversion@) > 0 && units(volatility@) > 0 && units(order_intensity@) > 0
            ==> spread_outcome(
            r,
            spread_value(risk_aversion@, volatility@, time_to_terminal_ms, order_intensity@),
        ),
        r is Ok ==> units(r->Ok_0@) >= 0,
{
    if !risk_aversion.is_positive() {
        return Err(MMError::InvalidConfiguration("risk_aversion must be positive".to_string()));
    }
    if !volatility.is_positive() {
        return Err(MMError::InvalidConfiguration("volatility must be positive".to_string()));
    }
    if !order_intensity.is_positive() {
        return Err(MMError::InvalidConfiguration("order_intensity must be positive".to_string()));
    }
    let years = years_from_ms(time_to_terminal_ms)?;
    let volatility_squared = decimal_powi(volatility, 2)?;
    let a = dec_mul(risk_aversion, volatility_squared)?;
    let inventory_risk_term = dec_mul(a, years)?;
    let ratio = dec_div(risk_aversion, order_intensity)?;
    let inner = dec_add(Decimal::one(), ratio)?;
    let adverse_selection_ln = decimal_ln(inner)?;
    let coefficient = dec_div(Decimal::two(), risk_aversion)?;
    let adverse_selection_term = dec_mul(coefficient, adverse_selection_ln)?;
    let spread = dec_add(inventory_risk_term, adverse_selection_term)?;
    if spread.is_negative() {
        return Err(MMError::NumericalError("spread calculation resulted in negative value".to_string()));
    }
    Ok(spread)
}

/// Bid and ask half an optimal spread below and above the reservation price.
/// A returned pair always has `0 < bid < ask`.
pub fn calculate_optimal_quotes(
    mid_price: Decimal,
    inventory: Decimal,
    risk_aversion: Decimal,
    volatility: Decimal,
    time_to_terminal_ms: u64,
    order_intensity: Decimal,
) -> (r: MMResult<(Decimal, Decimal)>)
    ensures
        r is Ok ==> units(r->Ok_0.0@) < units(r->Ok_0.1@) && units(r->Ok_0.0@) > 0,
        units(mid_price@) <= 0 ==> is_market_state_error(r),
        units(mid_price@) > 0 && units(volatility@) <= 0 ==> is_market_state_error(r),
        units(mid_price@) > 0 && units(volatility@) > 0 && units(risk_aversion@) <= 0
            ==> is_configuration_error(r),
        units(mid_price@) > 0 && units(volatility@) > 0 && units(risk_aversion@) > 0 ==> {
            let rv = reservation_value(
                mid_price@,
                inventory@,
                risk_aversion@,
                volatility@,
                time_to_terminal_ms,
            );
            &&& rv is None ==> is_numerical_error(r)
            &&& rv is Some && units(order_intensity@) <= 0 ==> is_configuration_error(r)
            &&& rv is Some && units(order_intensity@) > 0 ==> quotes_outcome(
                r,
                rv,
                spread_value(risk_aversion@, volatility@, time_to_terminal_ms, order_intensity@),
            )
        },
{
    let reservation_price = calculate_reservation_price(
        mid_price,
        inventory,
        risk_aversion,
        volatility,
        time_to_terminal_ms,
    )?;
    let spread = calculate_optimal_spread(
        risk_aversion,
        volatility,
        time_to_terminal_ms,
        order_intensity,
    )?;
    let half_spread = dec_div(spread, Decimal::two())?;
    let bid_price = dec_sub(reservation_price, half_spread)?;
    let ask_price = dec_add(reservation_price, half_spread)?;
    if bid_price >= ask_price {
        return Err(MMError::InvalidQuoteGeneration("bid price must be less than ask price".to_string()));
    }
    if !bid_price.is_positive() {
        return Err(MMError::InvalidQuoteGeneration("bid price must be positive".to_string()));
    }
    Ok((bid_price, ask_price))
}

} // verus!
