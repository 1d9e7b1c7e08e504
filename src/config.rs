//! Validated model parameters of a quoting strategy.

use crate::avellaneda_stoikov::is_configuration_error;
use crate::decimal::{decimal_text, units, Decimal};
use crate::error::{MMError, MMResult};
use vstd::prelude::*;
use vstd::string::StringExecFns;

verus! {

/// Risk aversion, order intensity, terminal time and minimum spread. The
/// minimum spread is carried for callers, who widen a computed spread with
/// it; the quoting formulas do not apply it.
#[derive(Clone, Copy, Debug)]
pub struct StrategyConfig {
    /// Risk aversion (gamma), strictly positive.
    pub risk_aversion: Decimal,
    /// Order intensity (k), strictly positive.
    pub order_intensity: Decimal,
    /// Terminal time in milliseconds.
    pub terminal_time: u64,
    /// Minimum spread, not negative.
    pub min_spread: Decimal,
}

/// The configuration as a JSON object, decimals written as strings.
pub open spec fn config_text(c: StrategyConfig) -> Seq<char> {
    "{\"risk_aversion\":\""@ + decimal_text(c.risk_aversion@) + "\",\"order_intensity\":\""@
        + decimal_text(c.order_intensity@) + "\",\"terminal_time\":"@ + decimal_text(
        (c.terminal_time as int, 0nat),
    ) + ",\"min_spread\":\""@ + decimal_text(c.min_spread@) + "\"}"@
}

impl StrategyConfig {
    /// The configuration as a JSON object:
    /// `{"risk_aversion":"0.5","order_intensity":"1.5","terminal_time":1000,"min_spread":"0.01"}`.
    pub fn to_display_string(&self) -> (r: String)
        ensures
            r@ == config_text(*self),
    {
        let mut out = String::new();
        out.append("{\"risk_aversion\":\"");
        out.append(self.risk_aversion.to_text().as_str());
        out.append("\",\"order_intensity\":\"");
        out.append(self.order_intensity.to_text().as_str());
        out.append("\",\"terminal_time\":");
        out.append(Decimal::from_u64(self.terminal_time).to_text().as_str());
        out.append(",\"min_spread\":\"");
        out.append(self.min_spread.to_text().as_str());
        out.append("\"}");
        out
    }

    /// The parameters are in their domains.
    pub open spec fn is_valid(self) -> bool {
        &&& units(self.risk_aversion@) > 0
        &&& units(self.order_intensity@) > 0
        &&& units(self.min_spread@) >= 0
    }

    /// Builds a configuration, rejecting a non-positive risk aversion or
    /// order intensity and a negative minimum spread.
    pub fn new(
        risk_aversion: Decimal,
        order_intensity: Decimal,
        terminal_time: u64,
        min_spread: Decimal,
    ) -> (r: MMResult<Self>)
        ensures
            units(risk_aversion@) <= 0 || units(order_intensity@) <= 0 || units(min_spread@) < 0
                ==> is_configuration_error(r),
            units(risk_aversion@) > 0 && units(order_intensity@) > 0 && units(min_spread@) >= 0
                ==> r is Ok && r->Ok_0.risk_aversion@ == risk_aversion@
                && r->Ok_0.order_intensity@ == order_intensity@ && r->Ok_0.terminal_time
                == terminal_time && r->Ok_0.min_spread@ == min_spread@,
            r is Ok ==> r->Ok_0.is_valid(),
    {
        if !risk_aversion.is_positive() {
            return Err(MMError::InvalidConfiguration("risk_aversion must be positive".to_string()));
        }
        if !order_intensity.is_positive() {
            return Err(MMError::InvalidConfiguration("order_intensity must be positive".to_string()));
        }
        if min_spread.is_negative() {
            return Err(MMError::InvalidConfiguration("min_spread must be non-negative".to_string()));
        }
        Ok(StrategyConfig { risk_aversion, order_intensity, terminal_time, min_spread })
    }
}

} // verus!
