//! Ledger core for serial-numbered precious-asset records and the trades
//! that move their ownership.

pub mod laws;
pub mod ledger;
pub mod orders;
pub mod registry;
pub mod trade;
pub mod types;

pub use ledger::Ledger;
pub use orders::{create_trade_order, CreateTradeOrder, TradeOrder};
pub use registry::{initialize_asset, update_price, Asset, InitializeAsset, UpdatePrice};
pub use trade::{execute_trade, settlement_for, ExecuteTrade, SettlementError, TokenTransfer};
pub use types::{AssetType, ErrorCode, Key, OrderType};
