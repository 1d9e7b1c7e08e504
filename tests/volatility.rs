use market_maker::{Decimal, MMError, VolatilityEstimator};

fn dec(mantissa: i64, scale: u32) -> Decimal {
    Decimal::new(mantissa, scale)
}

#[test]
fn test_volatility_estimator_new() {
    let estimator = VolatilityEstimator::new();
    assert!(estimator.annualization_factor.is_none());
}

#[test]
fn test_volatility_estimator_with_custom_factor() {
    let factor = dec(100, 0);
    let estimator = VolatilityEstimator::with_annualization_factor(factor);
    assert_eq!(estimator.annualization_factor, Some(factor));
}

#[test]
fn test_calculate_simple_valid() {
    let estimator = VolatilityEstimator::new();
    let prices = vec![dec(1000, 1), dec(1010, 1), dec(995, 1), dec(1005, 1), dec(1020, 1)];
    let vol = estimator.calculate_simple(&prices).unwrap();
    assert!(vol > Decimal::zero());
    assert!(vol < Decimal::one());
}

#[test]
fn test_calculate_simple_insufficient_data() {
    let estimator = VolatilityEstimator::new();
    let prices = vec![dec(1000, 1)];
    let result = estimator.calculate_simple(&prices);
    assert!(result.is_err());
    assert!(matches!(result.unwrap_err(), MMError::InvalidMarketState(_)));
}

#[test]
fn test_calculate_simple_negative_price() {
    let estimator = VolatilityEstimator::new();
    let prices = vec![dec(1000, 1), dec(-500, 1), dec(750, 1)];
    let result = estimator.calculate_simple(&prices);
    assert!(result.is_err());
}

#[test]
fn test_calculate_ewma_valid() {
    let estimator = VolatilityEstimator::new();
    let prices = vec![dec(1000, 1), dec(1015, 1), dec(990, 1), dec(1020, 1), dec(1010, 1)];
    let vol = estimator.calculate_ewma(&prices, dec(94, 2)).unwrap();
    assert!(vol > Decimal::zero());
    assert!(vol < Decimal::one());
}

#[test]
fn test_calculate_ewma_invalid_lambda() {
    let estimator = VolatilityEstimator::new();
    let prices = vec![dec(1000, 1), dec(1010, 1), dec(1020, 1)];
    let result = estimator.calculate_ewma(&prices, Decimal::zero());
    assert!(result.is_err());
    let result = estimator.calculate_ewma(&prices, Decimal::one());
    assert!(result.is_err());
    let result = estimator.calculate_ewma(&prices, dec(15, 1));
    assert!(result.is_err());
}

#[test]
fn test_calculate_parkinson_valid() {
    let estimator = VolatilityEstimator::new();
    let highs = vec![dec(1020, 1), dec(1030, 1), dec(1015, 1)];
    let lows = vec![dec(990, 1), dec(1000, 1), dec(985, 1)];
    let vol = estimator.calculate_parkinson(&highs, &lows).unwrap();
    assert!(vol > Decimal::zero());
}

#[test]
fn test_calculate_parkinson_mismatched_lengths() {
    let estimator = VolatilityEstimator::new();
    let highs = vec![dec(1020, 1), dec(1030, 1)];
    let lows = vec![dec(990, 1)];
    let result = estimator.calculate_parkinson(&highs, &lows);
    assert!(result.is_err());
}

#[test]
fn test_calculate_parkinson_high_less_than_low() {
    let estimator = VolatilityEstimator::new();
    let highs = vec![dec(1000, 1), dec(990, 1)];
    let lows = vec![dec(1010, 1), dec(1000, 1)];
    let result = estimator.calculate_parkinson(&highs, &lows);
    assert!(result.is_err());
}

#[test]
fn test_ewma_vs_simple() {
    let estimator = VolatilityEstimator::new();
    let prices = vec![dec(1000, 1), dec(1005, 1), dec(1010, 1), dec(1050, 1), dec(950, 1)];
    let simple_vol = estimator.calculate_simple(&prices).unwrap();
    let ewma_vol = estimator.calculate_ewma(&prices, dec(94, 2)).unwrap();
    assert!(simple_vol > Decimal::zero());
    assert!(ewma_vol > Decimal::zero());
}

#[test]
fn test_calculate_ewma_insufficient_data() {
    let estimator = VolatilityEstimator::new();
    let prices = vec![dec(1000, 1)];
    let result = estimator.calculate_ewma(&prices, dec(94, 2));
    assert!(result.is_err());
    assert!(matches!(result.unwrap_err(), MMError::InvalidMarketState(_)));
}

#[test]
fn test_calculate_ewma_negative_price() {
    let estimator = VolatilityEstimator::new();
    let prices = vec![dec(1000, 1), dec(-500, 1), dec(750, 1)];
    let result = estimator.calculate_ewma(&prices, dec(94, 2));
    assert!(result.is_err());
    assert!(matches!(result.unwrap_err(), MMError::InvalidMarketState(_)));
}

#[test]
fn test_calculate_ewma_with_many_prices() {
    let estimator = VolatilityEstimator::new();
    let prices = vec![dec(1000, 1), dec(1010, 1), dec(1020, 1), dec(1015, 1), dec(1030, 1), dec(1040, 1)];
    let vol = estimator.calculate_ewma(&prices, dec(94, 2)).unwrap();
    assert!(vol > Decimal::zero());
}

#[test]
fn test_calculate_parkinson_empty_vectors() {
    let estimator = VolatilityEstimator::new();
    let highs: Vec<Decimal> = vec![];
    let lows: Vec<Decimal> = vec![];
    let result = estimator.calculate_parkinson(&highs, &lows);
    assert!(result.is_err());
    assert!(matches!(result.unwrap_err(), MMError::InvalidMarketState(_)));
}

#[test]
fn test_calculate_parkinson_negative_price() {
    let estimator = VolatilityEstimator::new();
    let highs = vec![dec(1020, 1), dec(-1030, 1)];
    let lows = vec![dec(990, 1), dec(-1050, 1)];
    let result = estimator.calculate_parkinson(&highs, &lows);
    assert!(result.is_err());
    assert!(matches!(result.unwrap_err(), MMError::InvalidMarketState(_)));
}

#[test]
fn test_calculate_parkinson_zero_price() {
    let estimator = VolatilityEstimator::new();
    let highs = vec![dec(1020, 1), Decimal::zero()];
    let lows = vec![dec(990, 1), dec(980, 1)];
    let result = estimator.calculate_parkinson(&highs, &lows);
    assert!(result.is_err());
}
