//! Market-making quotes under the Avellaneda-Stoikov model, volatility
//! estimation, and inventory / PnL bookkeeping, on a fixed-point decimal type.

pub mod avellaneda_stoikov;
pub mod config;
pub mod data;
pub mod decimal;
pub mod error;
pub mod interface;
pub mod inventory;
pub mod pnl;
pub mod snapshot;
pub mod volatility;

pub use avellaneda_stoikov::{
    calculate_optimal_quotes, calculate_optimal_spread, calculate_reservation_price,
};
pub use config::StrategyConfig;
pub use data::{HistoricalDataSource, MarketTick, OHLCVBar, VecDataSource};
pub use decimal::{decimal_ln, decimal_powi, decimal_sqrt, Decimal};
pub use error::{MMError, MMResult};
pub use interface::{AvellanedaStoikov, DefaultAvellanedaStoikov};
pub use inventory::InventoryPosition;
pub use pnl::PnL;
pub use snapshot::MarketState;
pub use volatility::VolatilityEstimator;
