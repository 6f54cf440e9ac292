//! A treasury vault driven by four actors: an administrator, a trading agent
//! that proposes trades, a risk agent that gates them, and a payment agent
//! that executes them. Every transition is checked against the configured
//! identities and limits, and every executed trade is kept in an audit ledger
//! and rolled into its strategy's performance.
pub mod laws;
pub mod model;
pub mod performance;
pub mod risk;
pub mod types;
pub mod vault;

pub use types::{
    Address, Invocation, PortfolioSnapshot, RiskMetrics, StrategyPerformance, TradeRecord,
    TradingSignal, VaultConfig, VaultError,
};
pub use vault::{AITreasuryVaultV2, VaultParts};
