use market_maker::{Decimal, InventoryPosition, PnL};

fn dec(mantissa: i64, scale: u32) -> Decimal {
    Decimal::new(mantissa, scale)
}

#[test]
fn test_new_position_is_flat() {
    let position = InventoryPosition::new();
    assert_eq!(position.quantity, Decimal::zero());
    assert_eq!(position.avg_entry_price, Decimal::zero());
    assert_eq!(position.last_update, 0);
    assert!(position.is_flat());
}

#[test]
fn test_default_position() {
    let position = InventoryPosition::default();
    assert_eq!(position.quantity, Decimal::zero());
    assert!(position.is_flat());
}

#[test]
fn test_is_long() {
    let position = InventoryPosition { quantity: dec(100, 1), avg_entry_price: dec(1000, 1), last_update: 1000 };
    assert!(position.is_long());
    assert!(!position.is_flat());
    assert!(!position.is_short());
}

#[test]
fn test_is_short() {
    let position = InventoryPosition { quantity: dec(-100, 1), avg_entry_price: dec(1000, 1), last_update: 1000 };
    assert!(position.is_short());
    assert!(!position.is_flat());
    assert!(!position.is_long());
}

#[test]
fn test_is_flat() {
    let position = InventoryPosition { quantity: Decimal::zero(), avg_entry_price: dec(1000, 1), last_update: 1000 };
    assert!(position.is_flat());
    assert!(!position.is_long());
    assert!(!position.is_short());
}

#[test]
fn test_very_small_position_is_flat() {
    let position = InventoryPosition { quantity: Decimal::zero(), avg_entry_price: dec(1000, 1), last_update: 1000 };
    assert!(position.is_flat());
}

#[test]
fn test_update_fill_buy() {
    let mut position = InventoryPosition::new();
    position.update_fill(dec(100, 1), dec(1000, 1), 1000).unwrap();
    assert_eq!(position.quantity, dec(100, 1));
    assert_eq!(position.avg_entry_price, dec(1000, 1));
    assert_eq!(position.last_update, 1000);
}

#[test]
fn test_update_fill_sell() {
    let mut position = InventoryPosition::new();
    position.update_fill(dec(-100, 1), dec(1000, 1), 1000).unwrap();
    assert_eq!(position.quantity, dec(-100, 1));
    assert_eq!(position.avg_entry_price, dec(1000, 1));
}

#[test]
fn test_update_fill_weighted_average() {
    let mut position = InventoryPosition::new();
    position.update_fill(dec(100, 1), dec(1000, 1), 1000).unwrap();
    position.update_fill(dec(50, 1), dec(1020, 1), 2000).unwrap();
    assert_eq!(position.quantity, dec(150, 1));
    let expected = Decimal::try_from_i128_with_scale(100666666666666666666667, 21).unwrap();
    assert!(position.avg_entry_price.checked_sub(expected).unwrap().abs() < dec(1, 6));
}

#[test]
fn test_update_fill_reduce_position() {
    let mut position = InventoryPosition::new();
    position.update_fill(dec(100, 1), dec(1000, 1), 1000).unwrap();
    position.update_fill(dec(-50, 1), dec(1050, 1), 2000).unwrap();
    assert_eq!(position.quantity, dec(50, 1));
    assert_eq!(position.avg_entry_price, dec(1000, 1));
}

#[test]
fn test_update_fill_flatten_position() {
    let mut position = InventoryPosition::new();
    position.update_fill(dec(100, 1), dec(1000, 1), 1000).unwrap();
    position.update_fill(dec(-100, 1), dec(1050, 1), 2000).unwrap();
    assert_eq!(position.quantity, Decimal::zero());
    assert_eq!(position.avg_entry_price, Decimal::zero());
    assert!(position.is_flat());
}

#[test]
fn test_update_fill_flip_position() {
    let mut position = InventoryPosition::new();
    position.update_fill(dec(100, 1), dec(1000, 1), 1000).unwrap();
    position.update_fill(dec(-150, 1), dec(1050, 1), 2000).unwrap();
    assert_eq!(position.quantity, dec(-50, 1));
    assert_eq!(position.avg_entry_price, dec(1050, 1));
}

#[test]
fn test_unrealized_pnl_long_profit() {
    let mut position = InventoryPosition::new();
    position.update_fill(dec(100, 1), dec(1000, 1), 1000).unwrap();
    let pnl = position.unrealized_pnl(dec(1050, 1)).unwrap();
    assert_eq!(pnl, dec(500, 1));
}

#[test]
fn test_unrealized_pnl_long_loss() {
    let mut position = InventoryPosition::new();
    position.update_fill(dec(100, 1), dec(1000, 1), 1000).unwrap();
    let pnl = position.unrealized_pnl(dec(950, 1)).unwrap();
    assert_eq!(pnl, dec(-500, 1));
}

#[test]
fn test_unrealized_pnl_short_profit() {
    let mut position = InventoryPosition::new();
    position.update_fill(dec(-100, 1), dec(1000, 1), 1000).unwrap();
    let pnl = position.unrealized_pnl(dec(950, 1)).unwrap();
    assert_eq!(pnl, dec(500, 1));
}

#[test]
fn test_unrealized_pnl_flat() {
    let position = InventoryPosition::new();
    let pnl = position.unrealized_pnl(dec(1000, 1)).unwrap();
    assert_eq!(pnl, Decimal::zero());
}

#[test]
fn test_new_pnl() {
    let pnl = PnL::new();
    assert_eq!(pnl.realized, Decimal::zero());
    assert_eq!(pnl.unrealized, Decimal::zero());
    assert_eq!(pnl.total, Decimal::zero());
}

#[test]
fn test_default_pnl() {
    let pnl = PnL::default();
    assert_eq!(pnl.realized, Decimal::zero());
    assert_eq!(pnl.unrealized, Decimal::zero());
    assert_eq!(pnl.total, Decimal::zero());
}

#[test]
fn test_pnl_with_values() {
    let pnl = PnL { realized: dec(1000, 1), unrealized: dec(500, 1), total: dec(1500, 1) };
    assert_eq!(pnl.realized, dec(1000, 1));
    assert_eq!(pnl.unrealized, dec(500, 1));
    assert_eq!(pnl.total, dec(1500, 1));
}

#[test]
fn test_pnl_update() {
    let mut pnl = PnL::new();
    pnl.update(dec(1000, 1), dec(500, 1)).unwrap();
    assert_eq!(pnl.realized, dec(1000, 1));
    assert_eq!(pnl.unrealized, dec(500, 1));
    assert_eq!(pnl.total, dec(1500, 1));
}

#[test]
fn test_pnl_add_realized() {
    let mut pnl = PnL::new();
    pnl.add_realized(dec(1000, 1)).unwrap();
    assert_eq!(pnl.realized, dec(1000, 1));
    assert_eq!(pnl.total, dec(1000, 1));
    pnl.add_realized(dec(500, 1)).unwrap();
    assert_eq!(pnl.realized, dec(1500, 1));
    assert_eq!(pnl.total, dec(1500, 1));
}

#[test]
fn test_pnl_add_realized_negative() {
    let mut pnl = PnL::new();
    pnl.add_realized(dec(1000, 1)).unwrap();
    pnl.add_realized(dec(-250, 1)).unwrap();
    assert_eq!(pnl.realized, dec(750, 1));
    assert_eq!(pnl.total, dec(750, 1));
}

#[test]
fn test_pnl_set_unrealized() {
    let mut pnl = PnL::new();
    pnl.add_realized(dec(1000, 1)).unwrap();
    pnl.set_unrealized(dec(500, 1)).unwrap();
    assert_eq!(pnl.realized, dec(1000, 1));
    assert_eq!(pnl.unrealized, dec(500, 1));
    assert_eq!(pnl.total, dec(1500, 1));
}

#[test]
fn test_pnl_combined_operations() {
    let mut pnl = PnL::new();
    pnl.add_realized(dec(1000, 1)).unwrap();
    assert_eq!(pnl.total, dec(1000, 1));
    pnl.set_unrealized(dec(500, 1)).unwrap();
    assert_eq!(pnl.total, dec(1500, 1));
    pnl.add_realized(dec(250, 1)).unwrap();
    assert_eq!(pnl.realized, dec(1250, 1));
    assert_eq!(pnl.total, dec(1750, 1));
    pnl.set_unrealized(dec(-300, 1)).unwrap();
    assert_eq!(pnl.total, dec(950, 1));
}
