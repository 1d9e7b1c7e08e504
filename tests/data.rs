use market_maker::{Decimal, HistoricalDataSource, MarketState, MarketTick, OHLCVBar, VecDataSource};

fn dec(mantissa: i64, scale: u32) -> Decimal {
    Decimal::new(mantissa, scale)
}

fn create_test_tick(timestamp: u64, bid: Decimal, ask: Decimal) -> MarketTick {
    MarketTick::new(timestamp, bid, dec(10, 1), ask, dec(10, 1))
}

fn sample_bar(open: Decimal, close: Decimal) -> OHLCVBar {
    OHLCVBar::new(1000, open, dec(1050, 1), dec(990, 1), close, dec(10000, 1))
}

#[test]
fn test_market_tick_new() {
    let tick = MarketTick::new(1000, dec(1000, 1), dec(10, 1), dec(1001, 1), dec(10, 1));
    assert_eq!(tick.timestamp, 1000);
    assert_eq!(tick.bid_price, dec(1000, 1));
    assert_eq!(tick.ask_price, dec(1001, 1));
    assert!(tick.last_price.is_none());
}

#[test]
fn test_market_tick_with_last_trade() {
    let tick = MarketTick::with_last_trade(
        1000,
        dec(1000, 1),
        dec(10, 1),
        dec(1001, 1),
        dec(10, 1),
        dec(10005, 2),
        dec(5, 1),
    );
    assert_eq!(tick.last_price, Some(dec(10005, 2)));
    assert_eq!(tick.last_size, Some(dec(5, 1)));
}

#[test]
fn test_market_tick_mid_price() {
    let tick = create_test_tick(1000, dec(1000, 1), dec(1002, 1));
    assert_eq!(tick.mid_price().unwrap(), dec(1001, 1));
}

#[test]
fn test_market_tick_spread() {
    let tick = create_test_tick(1000, dec(1000, 1), dec(1002, 1));
    assert_eq!(tick.spread().unwrap(), dec(2, 1));
}

#[test]
fn test_market_tick_spread_bps() {
    let tick = create_test_tick(1000, dec(1000, 1), dec(1001, 1));
    let bps = tick.spread_bps().unwrap();
    assert!(bps > dec(90, 1) && bps < dec(100, 1));
}

#[test]
fn test_market_tick_imbalance() {
    let tick = MarketTick::new(1000, dec(1000, 1), dec(20, 1), dec(1001, 1), dec(10, 1));
    let imbalance = tick.imbalance().unwrap();
    assert!(imbalance > dec(33, 2) && imbalance < dec(34, 2));
}

#[test]
fn test_ohlcv_bar_new() {
    let bar = OHLCVBar::new(1000, dec(1000, 1), dec(1050, 1), dec(990, 1), dec(1020, 1), dec(10000, 1));
    assert_eq!(bar.timestamp, 1000);
    assert_eq!(bar.open, dec(1000, 1));
    assert_eq!(bar.high, dec(1050, 1));
    assert_eq!(bar.low, dec(990, 1));
    assert_eq!(bar.close, dec(1020, 1));
    assert_eq!(bar.volume, dec(10000, 1));
}

#[test]
fn test_ohlcv_bar_range() {
    let bar = sample_bar(dec(1000, 1), dec(1020, 1));
    assert_eq!(bar.range().unwrap(), dec(60, 1));
}

#[test]
fn test_ohlcv_bar_body() {
    let bullish = sample_bar(dec(1000, 1), dec(1030, 1));
    assert_eq!(bullish.body().unwrap(), dec(30, 1));
    let bearish = sample_bar(dec(1030, 1), dec(1000, 1));
    assert_eq!(bearish.body().unwrap(), dec(30, 1));
}

#[test]
fn test_ohlcv_bar_bullish_bearish() {
    let bullish = sample_bar(dec(1000, 1), dec(1030, 1));
    assert!(bullish.is_bullish());
    assert!(!bullish.is_bearish());
    let bearish = sample_bar(dec(1030, 1), dec(1000, 1));
    assert!(!bearish.is_bullish());
    assert!(bearish.is_bearish());
}

#[test]
fn test_ohlcv_bar_typical_price() {
    let bar = sample_bar(dec(1000, 1), dec(1020, 1));
    assert_eq!(bar.typical_price().unwrap(), dec(1020, 1));
}

#[test]
fn test_vec_data_source_new() {
    let ticks = vec![
        create_test_tick(1000, dec(1000, 1), dec(1001, 1)),
        create_test_tick(1001, dec(1001, 1), dec(1002, 1)),
    ];
    let source = VecDataSource::new(ticks);
    assert_eq!(source.len(), 2);
    assert!(!source.is_empty());
}

#[test]
fn test_vec_data_source_empty() {
    let source = VecDataSource::empty();
    assert_eq!(source.len(), 0);
    assert!(source.is_empty());
}

#[test]
fn test_vec_data_source_next_tick() {
    let ticks = vec![
        create_test_tick(1000, dec(1000, 1), dec(1001, 1)),
        create_test_tick(1001, dec(1001, 1), dec(1002, 1)),
    ];
    let mut source = VecDataSource::new(ticks);
    let tick1 = source.next_tick().unwrap();
    assert_eq!(tick1.timestamp, 1000);
    let tick2 = source.next_tick().unwrap();
    assert_eq!(tick2.timestamp, 1001);
    assert!(source.next_tick().is_none());
}

#[test]
fn test_vec_data_source_peek_tick() {
    let ticks = vec![
        create_test_tick(1000, dec(1000, 1), dec(1001, 1)),
        create_test_tick(1001, dec(1001, 1), dec(1002, 1)),
    ];
    let mut source = VecDataSource::new(ticks);
    let peeked = source.peek_tick().unwrap();
    assert_eq!(peeked.timestamp, 1000);
    let peeked2 = source.peek_tick().unwrap();
    assert_eq!(peeked2.timestamp, 1000);
    source.next_tick();
    let peeked3 = source.peek_tick().unwrap();
    assert_eq!(peeked3.timestamp, 1001);
}

#[test]
fn test_vec_data_source_reset() {
    let ticks = vec![
        create_test_tick(1000, dec(1000, 1), dec(1001, 1)),
        create_test_tick(1001, dec(1001, 1), dec(1002, 1)),
    ];
    let mut source = VecDataSource::new(ticks);
    source.next_tick();
    source.next_tick();
    assert_eq!(source.remaining(), 0);
    source.reset();
    assert_eq!(source.remaining(), 2);
    assert_eq!(source.current_index(), 0);
}

#[test]
fn test_vec_data_source_remaining() {
    let ticks = vec![
        create_test_tick(1000, dec(1000, 1), dec(1001, 1)),
        create_test_tick(1001, dec(1001, 1), dec(1002, 1)),
        create_test_tick(1002, dec(1002, 1), dec(1003, 1)),
    ];
    let mut source = VecDataSource::new(ticks);
    assert_eq!(source.remaining(), 3);
    source.next_tick();
    assert_eq!(source.remaining(), 2);
    source.next_tick();
    assert_eq!(source.remaining(), 1);
    source.next_tick();
    assert_eq!(source.remaining(), 0);
}

#[test]
fn test_vec_data_source_time_range() {
    let ticks = vec![
        create_test_tick(1000, dec(1000, 1), dec(1001, 1)),
        create_test_tick(2000, dec(1001, 1), dec(1002, 1)),
        create_test_tick(3000, dec(1002, 1), dec(1003, 1)),
    ];
    let source = VecDataSource::new(ticks);
    let (start, end) = source.time_range().unwrap();
    assert_eq!(start, 1000);
    assert_eq!(end, 3000);
}

#[test]
fn test_vec_data_source_time_range_empty() {
    let source = VecDataSource::empty();
    assert!(source.time_range().is_none());
}

#[test]
fn test_vec_data_source_push() {
    let mut source = VecDataSource::empty();
    source.push(create_test_tick(1000, dec(1000, 1), dec(1001, 1)));
    source.push(create_test_tick(1001, dec(1001, 1), dec(1002, 1)));
    assert_eq!(source.len(), 2);
}

#[test]
fn test_market_state_new() {
    let state = MarketState::new(dec(1000, 1), dec(2, 1), 1234567890);
    assert_eq!(state.mid_price, dec(1000, 1));
    assert_eq!(state.volatility, dec(2, 1));
    assert_eq!(state.timestamp, 1234567890);
}

#[test]
fn test_market_state_creation() {
    let state = MarketState { mid_price: dec(995, 1), volatility: dec(15, 2), timestamp: 9876543210 };
    assert_eq!(state.mid_price, dec(995, 1));
    assert_eq!(state.volatility, dec(15, 2));
    assert_eq!(state.timestamp, 9876543210);
}
