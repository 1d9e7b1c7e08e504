//! A pricing strategy that callers can substitute for the closed-form
//! formulas, and the default one that forwards to them.

use crate::avellaneda_stoikov;
use crate::avellaneda_stoikov::{
    is_configuration_error, is_market_state_error, is_numerical_error, ms_to_years, quotes_outcome,
    reservation_value, spread_outcome, spread_value,
};
use crate::decimal::{numeric_outcome, powi_of, units, Decimal};
use crate::error::MMResult;
use vstd::prelude::*;

verus! {

/// The three pricing operations of the Avellaneda-Stoikov model. An
/// implementation may wrap the formulas (substitute a volatility, widen the
/// spread), but hands out only ordered, positive quotes and non-negative
/// spreads.
pub trait AvellanedaStoikov {
    fn calculate_reservation_price(
        &self,
        mid_price: Decimal,
        inventory: Decimal,
        risk_aversion: Decimal,
        volatility: Decimal,
        time_to_terminal_ms: u64,
    ) -> MMResult<Decimal>;

    fn calculate_optimal_spread(
        &self,
        risk_aversion: Decimal,
        volatility: Decimal,
        time_to_terminal_ms: u64,
        order_intensity: Decimal,
    ) -> (r: MMResult<Decimal>)
        ensures
            r is Ok ==> units(r->Ok_0@) >= 0,
    ;

    fn calculate_optimal_quotes(
        &self,
        mid_price: Decimal,
        inventory: Decimal,
        risk_aversion: Decimal,
        volatility: Decimal,
        time_to_terminal_ms: u64,
        order_intensity: Decimal,
    ) -> (r: MMResult<(Decimal, Decimal)>)
        ensures
            r is Ok ==> 0 < units(r->Ok_0.0@) < units(r->Ok_0.1@),
    ;
}

/// The strategy that applies the closed-form formulas unchanged.
#[derive(Clone, Copy, Debug, Default)]
pub struct DefaultAvellanedaStoikov;

impl AvellanedaStoikov for DefaultAvellanedaStoikov {
    fn calculate_reservation_price(
        &self,
        mid_price: Decimal,
        inventory: Decimal,
        risk_aversion: Decimal,
        volatility: Decimal,
        time_to_terminal_ms: u64,
    ) -> (r: MMResult<Decimal>)
        ensures
            units(mid_price@) <= 0 ==> is_market_state_error(r),
            units(mid_price@) > 0 && units(volatility@) <= 0 ==> is_market_state_error(r),
            units(mid_price@) > 0 && units(volatility@) > 0 && units(risk_aversion@) <= 0
                ==> is_configuration_error(r),
            units(mid_price@) > 0 && units(volatility@) > 0 && units(risk_aversion@) > 0
                ==> numeric_outcome(
                r,
                reservation_value(
                    mid_price@,
                    inventory@,
                    risk_aversion@,
                    volatility@,
                    time_to_terminal_ms,
                ),
            ),
            units(mid_price@) > 0 && units(volatility@) > 0 && units(risk_aversion@) > 0 && units(
                inventory@,
            ) == 0 && powi_of(volatility@, 2) is Some && ms_to_years(time_to_terminal_ms) is Some ==> r
                is Ok && r->Ok_0@ == mid_price@,
    {
        avellaneda_stoikov::calculate_reservation_price(
            mid_price,
            inventory,
            risk_aversion,
            volatility,
            time_to_terminal_ms,
        )
    }

    fn calculate_optimal_spread(
        &self,
        risk_aversion: Decimal,
        volatility: Decimal,
        time_to_terminal_ms: u64,
        order_intensity: Decimal,
    ) -> (r: MMResult<Decimal>)
        ensures
            units(risk_aversion@) <= 0 ==> is_configuration_error(r),
            units(volatility@) <= 0 ==> is_configuration_error(r),
            units(order_intensity@) <= 0 ==> is_configuration_error(r),
            units(risk_aversion@) > 0 && units(volatility@) > 0 && units(order_intensity@) > 0
                ==> spread_outcome(
                r,
                spread_value(risk_aversion@, volatility@, time_to_terminal_ms, order_intensity@),
            ),
            r is Ok ==> units(r->Ok_0@) >= 0,
    {
        avellaneda_stoikov::calculate_optimal_spread(
            risk_aversion,
            volatility,
            time_to_terminal_ms,
            order_intensity,
        )
    }

    fn calculate_optimal_quotes(
        &self,
        mid_price: Decimal,
        inventory: Decimal,
        risk_aversion: Decimal,
        volatility: Decimal,
        time_to_terminal_ms: u64,
        order_intensity: Decimal,
    ) -> (r: MMResult<(Decimal, Decimal)>)
        ensures
            r is Ok ==> units(r->Ok_0.0@) < units(r->Ok_0.1@) && units(r->Ok_0.0@) > 0,
            units(mid_price@) <= 0 ==> is_market_state_error(r),
            units(mid_price@) > 0 && units(volatility@) <= 0 ==> is_market_state_error(r),
            units(mid_price@) > 0 && units(volatility@) > 0 && units(risk_aversion@) <= 0
                ==> is_configuration_error(r),
            units(mid_price@) > 0 && units(volatility@) > 0 && units(risk_aversion@) > 0 ==> {
                let rv = reservation_value(
                    mid_price@,
                    inventory@,
                    risk_aversion@,
                    volatility@,
                    time_to_terminal_ms,
                );
                &&& rv is None ==> is_numerical_error(r)
                &&& rv is Some && units(order_intensity@) <= 0 ==> is_configuration_error(r)
                &&& rv is Some && units(order_intensity@) > 0 ==> quotes_outcome(
                    r,
                    rv,
                    spread_value(risk_aversion@, volatility@, time_to_terminal_ms, order_intensity@),
                )
            },
    {
        avellaneda_stoikov::calculate_optimal_quotes(
            mid_price,
            inventory,
            risk_aversion,
            volatility,
            time_to_terminal_ms,
            order_intensity,
        )
    }
}

} // verus!
