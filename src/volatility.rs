//! Annualized volatility from a price history: close-to-close sample
//! deviation, an exponentially weighted variance, and the Parkinson
//! high / low range estimator.

use crate::avellaneda_stoikov::{is_configuration_error, is_market_state_error};
use crate::decimal::{
    add_opt, dec_add, dec_div, dec_mul, dec_sub, decimal_ln, decimal_sqrt, div_opt,
    lemma_units_sign, ln_opt, mul_opt, numeric_outcome, quotient_of, reprs, square_root, sqrt_opt,
    sub_opt, units, Decimal
};
use crate::error::{MMError, MMResult};
use vstd::prelude::*;

verus! {

/// `r` holds the values `v` names, or a numerical error where `v` is `None`.
pub open spec fn seq_outcome(r: MMResult<Vec<Decimal>>, v: Option<Seq<(int, nat)>>) -> bool {
    match v {
        Some(x) => r is Ok && reprs(r->Ok_0@) == x,
        None => r is Err && r->Err_0 is NumericalError,
    }
}

/// Every price is strictly positive.
pub open spec fn all_positive(p: Seq<(int, nat)>) -> bool {
    forall|i: int| 0 <= i < p.len() ==> units(#[trigger] p[i]) > 0
}

/// The first `n` log returns `ln(p[i + 1] / p[i])`.
pub open spec fn log_returns(p: Seq<(int, nat)>, n: nat) -> Option<Seq<(int, nat)>>
    recommends
        n < p.len(),
    decreases n,
{
    if n == 0 {
        Some(Seq::empty())
    } else {
        match (log_returns(p, (n - 1) as nat), ln_opt(quotient_of(p[n as int], p[n - 1]))) {
            (Some(s), Some(l)) => Some(s.push(l)),
            _ => None,
        }
    }
}

/// The sum of the first `n` values, added left to right from zero.
pub open spec fn sum_prefix(s: Seq<(int, nat)>, n: nat) -> Option<(int, nat)>
    decreases n,
{
    if n == 0 {
        Some((0int, 0nat))
    } else {
        add_opt(sum_prefix(s, (n - 1) as nat), Some(s[n - 1]))
    }
}

/// The sum of the squared deviations from `mean` of the first `n` values.
pub open spec fn squared_deviations(s: Seq<(int, nat)>, mean: (int, nat), n: nat) -> Option<(int, nat)>
    decreases n,
{
    if n == 0 {
        Some((0int, 0nat))
    } else {
        let dev = sub_opt(Some(s[n - 1]), Some(mean));
        add_opt(squared_deviations(s, mean, (n - 1) as nat), mul_opt(dev, dev))
    }
}

/// Sample variance of the first `n` values, with an `n - 1` denominator.
pub open spec fn sample_variance(s: Seq<(int, nat)>, n: nat) -> Option<(int, nat)> {
    match div_opt(sum_prefix(s, n), Some((n as int, 0nat))) {
        Some(mean) => div_opt(squared_deviations(s, mean, n), Some((n - 1, 0nat))),
        None => None,
    }
}

/// Close-to-close volatility before annualization.
pub open spec fn simple_deviation(p: Seq<(int, nat)>) -> Option<(int, nat)> {
    match log_returns(p, (p.len() - 1) as nat) {
        Some(r) => sqrt_opt(sample_variance(r, r.len())),
        None => None,
    }
}

/// The variance that seeds the exponentially weighted recursion: the sample
/// variance of the first five returns, or of all of them where fewer exist.
pub open spec fn ewma_seed(r: Seq<(int, nat)>) -> Option<(int, nat)> {
    if r.len() >= 5 {
        sample_variance(r, 5)
    } else {
        sample_variance(r, r.len())
    }
}

/// `v_t = lambda * v_{t-1} + (1 - lambda) * r_t^2` over the first `n` returns.
pub open spec fn ewma_variance(r: Seq<(int, nat)>, lambda: (int, nat), seed: Option<(int, nat)>, n: nat) -> Option<
    (int, nat),
>
    decreases n,
{
    if n == 0 {
        seed
    } else {
        add_opt(
            mul_opt(Some(lambda), ewma_variance(r, lambda, seed, (n - 1) as nat)),
            mul_opt(sub_opt(Some((1int, 0nat)), Some(lambda)), mul_opt(Some(r[n - 1]), Some(r[n - 1]))),
        )
    }
}

/// Exponentially weighted volatility before annualization.
pub open spec fn ewma_deviation(p: Seq<(int, nat)>, lambda: (int, nat)) -> Option<(int, nat)> {
    match log_returns(p, (p.len() - 1) as nat) {
        Some(r) => sqrt_opt(ewma_variance(r, lambda, ewma_seed(r), r.len())),
        None => None,
    }
}

/// `sum of ln(h[i] / l[i])^2` over the first `n` ranges.
pub open spec fn squared_log_ranges(h: Seq<(int, nat)>, l: Seq<(int, nat)>, n: nat) -> Option<(int, nat)>
    decreases n,
{
    if n == 0 {
        Some((0int, 0nat))
    } else {
        let lr = ln_opt(quotient_of(h[n - 1], l[n - 1]));
        add_opt(squared_log_ranges(h, l, (n - 1) as nat), mul_opt(lr, lr))
    }
}

/// Parkinson volatility before annualization:
/// `sqrt(sum ln(h / l)^2 / (4 n ln 2))`.
pub open spec fn parkinson_deviation(h: Seq<(int, nat)>, l: Seq<(int, nat)>) -> Option<(int, nat)> {
    let n = h.len();
    sqrt_opt(
        div_opt(
            squared_log_ranges(h, l, n),
            mul_opt(mul_opt(Some((4int, 0nat)), Some((n as int, 0nat))), ln_opt(Some((2int, 0nat)))),
        ),
    )
}

/// Every high is at least its low, and every low is strictly positive.
pub open spec fn valid_ranges(h: Seq<(int, nat)>, l: Seq<(int, nat)>) -> bool {
    forall|i: int|
        0 <= i < h.len() ==> units(#[trigger] l[i]) > 0 && units(h[i]) >= units(l[i])
}

proof fn lemma_log_returns_none(p: Seq<(int, nat)>, n: nat, m: nat)
    requires
        n <= m,
        log_returns(p, n) is None,
    ensures
        log_returns(p, m) is None,
    decreases m - n,
{
    if n < m {
        lemma_log_returns_none(p, n, (m - 1) as nat);
    }
}

proof fn lemma_log_returns_len(p: Seq<(int, nat)>, n: nat)
    requires
        log_returns(p, n) is Some,
    ensures
        log_returns(p, n)->Some_0.len() == n,
    decreases n,
{
    if n > 0 {
        lemma_log_returns_len(p, (n - 1) as nat);
    }
}

proof fn lemma_sum_prefix_none(s: Seq<(int, nat)>, n: nat, m: nat)
    requires
        n <= m,
        sum_prefix(s, n) is None,
    ensures
        sum_prefix(s, m) is None,
    decreases m - n,
{
    if n < m {
        lemma_sum_prefix_none(s, n, (m - 1) as nat);
    }
}

proof fn lemma_squared_deviations_none(s: Seq<(int, nat)>, mean: (int, nat), n: nat, m: nat)
    requires
        n <= m,
        squared_deviations(s, mean, n) is None,
    ensures
        squared_deviations(s, mean, m) is None,
    decreases m - n,
{
    if n < m {
        lemma_squared_deviations_none(s, mean, n, (m - 1) as nat);
    }
}

proof fn lemma_ewma_variance_none(
    r: Seq<(int, nat)>,
    lambda: (int, nat),
    seed: Option<(int, nat)>,
    n: nat,
    m: nat,
)
    requires
        n <= m,
        ewma_variance(r, lambda, seed, n) is None,
    ensures
        ewma_variance(r, lambda, seed, m) is None,
    decreases m - n,
{
    if n < m {
        lemma_ewma_variance_none(r, lambda, seed, n, (m - 1) as nat);
    }
}

proof fn lemma_squared_log_ranges_none(h: Seq<(int, nat)>, l: Seq<(int, nat)>, n: nat, m: nat)
    requires
        n <= m,
        squared_log_ranges(h, l, n) is None,
    ensures
        squared_log_ranges(h, l, m) is None,
    decreases m - n,
{
    if n < m {
        lemma_squared_log_ranges_none(h, l, n, (m - 1) as nat);
    }
}

/// Whether every price of the slice is strictly positive.
fn prices_positive(prices: &[Decimal]) -> (r: bool)
    ensures
        r == all_positive(reprs(prices@)),
{
    let mut i: usize = 0;
    while i < prices.len()
        invariant
            0 <= i <= prices.len(),
            all_positive(reprs(prices@).take(i as int)),
        decreases prices.len() - i,
    {
        if !prices[i].is_positive() {
            assert(reprs(prices@)[i as int] == prices@[i as int]@);
            return false;
        }
        assert(reprs(prices@).take(i + 1) =~= reprs(prices@).take(i as int).push(prices@[i as int]@));
        i += 1;
    }
    assert(reprs(prices@).take(i as int) =~= reprs(prices@));
    true
}

/// The log returns of a price series whose prices are all positive.
fn compute_log_returns(prices: &[Decimal]) -> (r: MMResult<Vec<Decimal>>)
    requires
        prices.len() >= 1,
    ensures
        seq_outcome(r, log_returns(reprs(prices@), (prices.len() - 1) as nat)),
{
    let ghost p = reprs(prices@);
    let mut out: Vec<Decimal> = Vec::new();
    let mut i: usize = 1;
    while i < prices.len()
        invariant
            1 <= i <= prices.len(),
            p == reprs(prices@),
            log_returns(p, (i - 1) as nat) == Some(reprs(out@)),
        decreases prices.len() - i,
    {
        let ratio = match dec_div(prices[i], prices[i - 1]) {
            Ok(v) => v,
            Err(e) => {
                proof {
                    lemma_log_returns_none(p, i as nat, (prices.len() - 1) as nat);
                }
                return Err(e);
            },
        };
        let lr = match decimal_ln(ratio) {
            Ok(v) => v,
            Err(e) => {
                proof {
                    lemma_log_returns_none(p, i as nat, (prices.len() - 1) as nat);
                }
                return Err(e);
            },
        };
        let ghost before = out@;
        out.push(lr);
        assert(reprs(out@) =~= reprs(before).push(lr@));
        i += 1;
    }
    Ok(out)
}

/// The sum of the first `n` values.
fn sum_first(s: &[Decimal], n: usize) -> (r: MMResult<Decimal>)
    requires
        n <= s.len(),
    ensures
        numeric_outcome(r, sum_prefix(reprs(s@), n as nat)),
{
    let ghost q = reprs(s@);
    let mut acc = Decimal::zero();
    let mut i: usize = 0;
    while i < n
        invariant
            0 <= i <= n <= s.len(),
            q == reprs(s@),
            sum_prefix(q, i as nat) == Some(acc@),
        decreases n - i,
    {
        acc = match dec_add(acc, s[i]) {
            Ok(v) => v,
            Err(e) => {
                proof {
                    lemma_sum_prefix_none(q, (i + 1) as nat, n as nat);
                }
                return Err(e);
            },
        };
        i += 1;
    }
    Ok(acc)
}

/// The sum of the squared deviations from `mean` of the first `n` values.
fn squared_deviations_first(s: &[Decimal], mean: Decimal, n: usize) -> (r: MMResult<Decimal>)
    requires
        n <= s.len(),
    ensures
        numeric_outcome(r, squared_deviations(reprs(s@), mean@, n as nat)),
{
    let ghost q = reprs(s@);
    let mut acc = Decimal::zero();
    let mut i: usize = 0;
    while i < n
        invariant
            0 <= i <= n <= s.len(),
            q == reprs(s@),
            squared_deviations(q, mean@, i as nat) == Some(acc@),
        decreases n - i,
    {
        let step = match dec_sub(s[i], mean) {
            Ok(dev) => dec_mul(dev, dev),
            Err(e) => Err(e),
        };
        acc = match step {
            Ok(sq) => match dec_add(acc, sq) {
                Ok(v) => v,
                Err(e) => {
                    proof {
                        lemma_squared_deviations_none(q, mean@, (i + 1) as nat, n as nat);
                    }
                    return Err(e);
                },
            },
            Err(e) => {
                proof {
                    lemma_squared_deviations_none(q, mean@, (i + 1) as nat, n as nat);
                }
                return Err(e);
            },
        };
        i += 1;
    }
    Ok(acc)
}

/// Sample variance of the first `n` values, with an `n - 1` denominator;
/// a single value leaves a zero denominator, a numerical error.
fn sample_variance_first(s: &[Decimal], n: usize) -> (r: MMResult<Decimal>)
    requires
        1 <= n <= s.len(),
    ensures
        numeric_outcome(r, sample_variance(reprs(s@), n as nat)),
{
    let sum = sum_first(s, n)?;
    let mean = dec_div(sum, Decimal::from_usize(n))?;
    let squared = squared_deviations_first(s, mean, n)?;
    dec_div(squared, Decimal::from_usize(n - 1))
}

/// One step of the exponentially weighted recursion.
fn ewma_step(lambda: Decimal, one_minus_lambda: Decimal, variance: Decimal, ret: Decimal) -> (r: MMResult<Decimal>)
    ensures
        numeric_outcome(
            r,
            add_opt(
                mul_opt(Some(lambda@), Some(variance@)),
                mul_opt(Some(one_minus_lambda@), mul_opt(Some(ret@), Some(ret@))),
            ),
        ),
{
    let weighted = dec_mul(lambda, variance)?;
    let squared = dec_mul(ret, ret)?;
    let fresh = dec_mul(one_minus_lambda, squared)?;
    dec_add(weighted, fresh)
}

/// `ln(high / low)^2`.
fn squared_log_range(high: Decimal, low: Decimal) -> (r: MMResult<Decimal>)
    ensures
        ({
            let lr = ln_opt(quotient_of(high@, low@));
            numeric_outcome(r, mul_opt(lr, lr))
        }),
{
    let ratio = dec_div(high, low)?;
    let lr = decimal_ln(ratio)?;
    dec_mul(lr, lr)
}

/// Whether every pair has `high >= low > 0`.
fn ranges_valid(highs: &[Decimal], lows: &[Decimal]) -> (r: bool)
    requires
        highs.len() == lows.len(),
    ensures
        r == valid_ranges(reprs(highs@), reprs(lows@)),
{
    let ghost h = reprs(highs@);
    let ghost l = reprs(lows@);
    let mut i: usize = 0;
    while i < highs.len()
        invariant
            0 <= i <= highs.len() == lows.len(),
            h == reprs(highs@),
            l == reprs(lows@),
            forall|j: int| 0 <= j < i ==> units(#[trigger] l[j]) > 0 && units(h[j]) >= units(l[j]),
        decreases highs.len() - i,
    {
        if !highs[i].is_positive() || !lows[i].is_positive() || highs[i] < lows[i] {
            assert(h[i as int] == highs@[i as int]@ && l[i as int] == lows@[i as int]@);
            return false;
        }
        i += 1;
    }
    true
}

/// Converts a price history into an annualized volatility.
#[derive(Clone, Copy, Debug)]
pub struct VolatilityEstimator {
    /// Factor that annualizes a per-period deviation; `None` stands for
    /// `sqrt(252)`, the trading days of a year.
    pub annualization_factor: Option<Decimal>,
}

impl VolatilityEstimator {
    /// The factor the estimator annualizes with.
    pub open spec fn annualization(self) -> Option<(int, nat)> {
        match self.annualization_factor {
            Some(f) => Some(f@),
            None => square_root((252int, 0nat)),
        }
    }

    /// An estimator that annualizes with `sqrt(252)`.
    pub fn new() -> (r: Self)
        ensures
            r.annualization_factor is None,
    {
        VolatilityEstimator { annualization_factor: None }
    }

    /// An estimator that annualizes with `factor`.
    pub fn with_annualization_factor(factor: Decimal) -> (r: Self)
        ensures
            r.annualization_factor == Some(factor),
    {
        VolatilityEstimator { annualization_factor: Some(factor) }
    }

    /// The annualization factor: the configured one, else `sqrt(252)`.
    pub fn get_annualization_factor(&self) -> (r: MMResult<Decimal>)
        ensures
            numeric_outcome(r, self.annualization()),
    {
        match self.annualization_factor {
            Some(factor) => Ok(factor),
            None => {
                let days = Decimal::from_u64(252);
                proof {
                    lemma_units_sign(days@);
                }
                decimal_sqrt(days)
            },
        }
    }

    /// Close-to-close volatility: the sample deviation (`n - 1` denominator)
    /// of the log returns, annualized. Needs at least two prices, all positive.
    pub fn calculate_simple(&self, prices: &[Decimal]) -> (r: MMResult<Decimal>)
        ensures
            prices.len() < 2 ==> is_market_state_error(r),
            prices.len() >= 2 && !all_positive(reprs(prices@)) ==> is_market_state_error(r),
            prices.len() >= 2 && all_positive(reprs(prices@)) ==> numeric_outcome(
                r,
                mul_opt(simple_deviation(reprs(prices@)), self.annualization()),
            ),
    {
        if prices.len() < 2 {
            return Err(MMError::InvalidMarketState("need at least 2 prices to calculate volatility".to_string()));
        }
        if !prices_positive(prices) {
            return Err(MMError::InvalidMarketState("prices must be positive".to_string()));
        }
        let log_rets = compute_log_returns(prices)?;
        proof {
            lemma_log_returns_len(reprs(prices@), (prices.len() - 1) as nat);
        }
        let variance = sample_variance_first(log_rets.as_slice(), log_rets.len())?;
        let std_dev = decimal_sqrt(variance)?;
        let factor = self.get_annualization_factor()?;
        dec_mul(std_dev, factor)
    }
    /// Exponentially weighted volatility: seeded with the sample variance of
    /// the first five log returns (of all of them where fewer exist), then
    /// `v = lambda * v + (1 - lambda) * r^2` over every log return in order,
    /// the seeding ones included; annualized. Needs `0 < lambda < 1`.
    pub fn calculate_ewma(&self, prices: &[Decimal], lambda: Decimal) -> (r: MMResult<Decimal>)
        ensures
            prices.len() < 2 ==> is_market_state_error(r),
            prices.len() >= 2 && (units(lambda@) <= 0 || units(lambda@) >= units((1int, 0nat)))
                ==> is_configuration_error(r),
            prices.len() >= 2 && 0 < units(lambda@) < units((1int, 0nat)) && !all_positive(
                reprs(prices@),
            ) ==> is_market_state_error(r),
            prices.len() >= 2 && 0 < units(lambda@) < units((1int, 0nat)) && all_positive(
                reprs(prices@),
            ) ==> numeric_outcome(
                r,
                mul_opt(ewma_deviation(reprs(prices@), lambda@), self.annualization()),
            ),
    {
        if prices.len() < 2 {
            return Err(MMError::InvalidMarketState("need at least 2 prices for EWMA".to_string()));
        }
        let one = Decimal::one();
        if !lambda.is_positive() || lambda >= one {
            return Err(MMError::InvalidConfiguration("lambda must be between 0 and 1".to_string()));
        }
        if !prices_positive(prices) {
            return Err(MMError::InvalidMarketState("prices must be positive".to_string()));
        }
        let log_rets = compute_log_returns(prices)?;
        let ghost q = reprs(log_rets@);
        proof {
            lemma_log_returns_len(reprs(prices@), (prices.len() - 1) as nat);
        }
        let n = log_rets.len();
        let seed_result = if n >= 5 {
            sample_variance_first(log_rets.as_slice(), 5)
        } else {
            sample_variance_first(log_rets.as_slice(), n)
        };
        let seed = match seed_result {
            Ok(v) => v,
            Err(e) => {
                proof {
                    lemma_ewma_variance_none(q, lambda@, ewma_seed(q), 0, n as nat);
                }
                return Err(e);
            },
        };
        let one_minus_lambda = dec_sub(one, lambda)?;
        let mut variance = seed;
        let mut i: usize = 0;
        while i < n
            invariant
                0 <= i <= n == log_rets.len(),
                n >= 1,
                prices.len() >= 2,
                0 < units(lambda@) < units((1int, 0nat)),
                all_positive(reprs(prices@)),
                log_returns(reprs(prices@), (prices.len() - 1) as nat) == Some(q),
                q == reprs(log_rets@),
                sub_opt(Some((1int, 0nat)), Some(lambda@)) == Some(one_minus_lambda@),
                ewma_variance(q, lambda@, ewma_seed(q), i as nat) == Some(variance@),
            decreases n - i,
        {
            variance = match ewma_step(lambda, one_minus_lambda, variance, log_rets[i]) {
                Ok(v) => v,
                Err(e) => {
                    proof {
                        lemma_ewma_variance_none(q, lambda@, ewma_seed(q), (i + 1) as nat, n as nat);
                    }
                    return Err(e);
                },
            };
            i += 1;
        }
        let std_dev = decimal_sqrt(variance)?;
        let factor = self.get_annualization_factor()?;
        dec_mul(std_dev, factor)
    }

    /// Parkinson volatility `sqrt(sum ln(h / l)^2 / (4 n ln 2))`, annualized.
    /// Needs as many highs as lows, at least one pair, and `high >= low > 0`.
    pub fn calculate_parkinson(&self, high_prices: &[Decimal], low_prices: &[Decimal]) -> (r: MMResult<Decimal>)
        ensures
            high_prices.len() != low_prices.len() ==> is_market_state_error(r),
            high_prices.len() == 0 ==> is_market_state_error(r),
            high_prices.len() == low_prices.len() && !valid_ranges(reprs(high_prices@), reprs(low_prices@))
                ==> is_market_state_error(r),
            high_prices.len() == low_prices.len() && high_prices.len() > 0 && valid_ranges(
                reprs(high_prices@),
                reprs(low_prices@),
            ) ==> numeric_outcome(
                r,
                mul_opt(
                    parkinson_deviation(reprs(high_prices@), reprs(low_prices@)),
                    self.annualization(),
                ),
            ),
    {
        if high_prices.len() != low_prices.len() {
            return Err(MMError::InvalidMarketState("high and low price vectors must have same length".to_string()));
        }
        if high_prices.len() == 0 {
            return Err(MMError::InvalidMarketState("need at least 1 price pair for Parkinson estimator".to_string()));
        }
        if !ranges_valid(high_prices, low_prices) {
            return Err(MMError::InvalidMarketState("high price must be >= low price > 0".to_string()));
        }
        let ghost h = reprs(high_prices@);
        let ghost l = reprs(low_prices@);
        let n = high_prices.len();
        let mut sum = Decimal::zero();
        let mut i: usize = 0;
        while i < n
            invariant
                0 <= i <= n == high_prices.len() == low_prices.len(),
                n > 0,
                valid_ranges(h, l),
                h == reprs(high_prices@),
                l == reprs(low_prices@),
                squared_log_ranges(h, l, i as nat) == Some(sum@),
            decreases n - i,
        {
            let step = squared_log_range(high_prices[i], low_prices[i]);
            sum = match step {
                Ok(sq) => match dec_add(sum, sq) {
                    Ok(v) => v,
                    Err(e) => {
                        proof {
                            lemma_squared_log_ranges_none(h, l, (i + 1) as nat, n as nat);
                        }
                        return Err(e);
                    },
                },
                Err(e) => {
                    proof {
                        lemma_squared_log_ranges_none(h, l, (i + 1) as nat, n as nat);
                    }
                    return Err(e);
                },
            };
            i += 1;
        }
        let ln_2 = decimal_ln(Decimal::two())?;
        let four_n = dec_mul(Decimal::from_u64(4), Decimal::from_usize(n))?;
        let denominator = dec_mul(four_n, ln_2)?;
        let variance = dec_div(sum, denominator)?;
        let std_dev = decimal_sqrt(variance)?;
        let factor = self.get_annualization_factor()?;
        dec_mul(std_dev, factor)
    }
}

impl Default for VolatilityEstimator {
    fn default() -> (r: Self)
        ensures
            r.annualization_factor is None,
    {
        Self::new()
    }
}

} // verus!
