//! The records that the vault keeps, the identities of its actors and the
//! failures that its transitions report.
use vstd::prelude::*;

verus! {

/// The identity of an actor (an account or a contract), held by its textual key.
#[derive(Debug, PartialEq, Eq)]
pub struct Address {
    pub key: String,
}

impl View for Address {
    type V = Seq<char>;

    open spec fn view(&self) -> Seq<char> {
        self.key@
    }
}

impl Clone for Address {
    fn clone(&self) -> (r: Self)
        ensures
            r == *self,
    {
        Address { key: self.key.clone() }
    }
}

impl Address {
    /// Whether both values name the same actor.
    pub fn same_as(&self, other: &Address) -> (r: bool)
        ensures
            r == (self@ == other@),
    {
        self.key == other.key
    }
}

/// What the host established about the call being made: the identity that
/// authorized it and the ledger time at which it runs.
#[derive(Debug, PartialEq, Eq)]
pub struct Invocation {
    pub caller: Address,
    pub timestamp: u64,
}

impl Clone for Invocation {
    fn clone(&self) -> (r: Self)
        ensures
            r == *self,
    {
        Invocation { caller: self.caller.clone(), timestamp: self.timestamp }
    }
}

/// A proposed trade, pending until it is executed.
#[derive(Debug, PartialEq, Eq)]
pub struct TradingSignal {
    pub signal_id: u64,
    pub asset: String,
    /// "BUY", "SELL" or "HOLD".
    pub action: String,
    pub amount: i128,
    /// The label of the strategy that proposed the trade ("LSTM", "DQN", ...).
    pub strategy: String,
    /// From 0 to 100.
    pub confidence: u32,
    /// Basis points.
    pub expected_return: i32,
    pub timestamp: u64,
}

impl Clone for TradingSignal {
    fn clone(&self) -> (r: Self)
        ensures
            r == *self,
    {
        TradingSignal {
            signal_id: self.signal_id,
            asset: self.asset.clone(),
            action: self.action.clone(),
            amount: self.amount,
            strategy: self.strategy.clone(),
            confidence: self.confidence,
            expected_return: self.expected_return,
            timestamp: self.timestamp,
        }
    }
}

/// The immutable audit entry of an executed trade.
#[derive(Debug, PartialEq, Eq)]
pub struct TradeRecord {
    pub trade_id: u64,
    pub signal_id: u64,
    pub asset: String,
    pub action: String,
    pub amount: i128,
    /// Price at execution, scaled by 10^7.
    pub price: i128,
    pub strategy: String,
    pub executed_at: u64,
    /// Realized profit or loss, in stroops.
    pub profit_loss: i128,
}

impl Clone for TradeRecord {
    fn clone(&self) -> (r: Self)
        ensures
            r == *self,
    {
        TradeRecord {
            trade_id: self.trade_id,
            signal_id: self.signal_id,
            asset: self.asset.clone(),
            action: self.action.clone(),
            amount: self.amount,
            price: self.price,
            strategy: self.strategy.clone(),
            executed_at: self.executed_at,
            profit_loss: self.profit_loss,
        }
    }
}

/// The running rollup of all trades executed for one strategy label.
#[derive(Debug, PartialEq, Eq)]
pub struct StrategyPerformance {
    pub strategy_name: String,
    pub total_trades: u32,
    pub winning_trades: u32,
    pub total_profit: i128,
    /// `total_profit / total_trades`, truncated toward zero.
    pub avg_return: i128,
    pub sharpe_ratio: i32,
    pub last_updated: u64,
}

impl Clone for StrategyPerformance {
    fn clone(&self) -> (r: Self)
        ensures
            r == *self,
    {
        StrategyPerformance {
            strategy_name: self.strategy_name.clone(),
            total_trades: self.total_trades,
            winning_trades: self.winning_trades,
            total_profit: self.total_profit,
            avg_return: self.avg_return,
            sharpe_ratio: self.sharpe_ratio,
            last_updated: self.last_updated,
        }
    }
}

/// A point-in-time summary of the portfolio.
#[derive(Clone, Copy, Debug, PartialEq, Eq, Structural)]
pub struct PortfolioSnapshot {
    pub snapshot_id: u64,
    pub timestamp: u64,
    /// Total portfolio value, in stroops.
    pub total_value: i128,
    pub num_assets: u32,
    /// The trade counter when the snapshot was taken.
    pub total_trades: u64,
    /// Basis points since inception.
    pub cumulative_return: i32,
}

/// The risk figures that the risk agent submits with an approval request.
#[derive(Clone, Copy, Debug, PartialEq, Eq, Structural)]
pub struct RiskMetrics {
    /// Value at risk at 95% confidence, basis points.
    pub var_95: i32,
    /// Risk-adjusted return, scaled by 100.
    pub sharpe_ratio: i32,
    /// Signed basis points; negative is a loss.
    pub max_drawdown: i32,
    pub portfolio_volatility: u32,
    /// Projected stop-loss level, signed basis points.
    pub stop_loss_level: i32,
}

/// The vault's single configuration record.
#[derive(Debug, PartialEq, Eq)]
pub struct VaultConfig {
    pub admin: Address,
    pub trading_agent: Address,
    pub risk_agent: Address,
    pub payment_agent: Address,
    pub max_single_trade: i128,
    pub max_var_95: i32,
    pub min_sharpe_ratio: i32,
    pub dynamic_stop_loss: bool,
    pub halted: bool,
    pub created_at: u64,
    pub version: u32,
}

impl Clone for VaultConfig {
    fn clone(&self) -> (r: Self)
        ensures
            r == *self,
    {
        VaultConfig {
            admin: self.admin.clone(),
            trading_agent: self.trading_agent.clone(),
            risk_agent: self.risk_agent.clone(),
            payment_agent: self.payment_agent.clone(),
            max_single_trade: self.max_single_trade,
            max_var_95: self.max_var_95,
            min_sharpe_ratio: self.min_sharpe_ratio,
            dynamic_stop_loss: self.dynamic_stop_loss,
            halted: self.halted,
            created_at: self.created_at,
            version: self.version,
        }
    }
}

/// Why a transition or a lookup failed. A failed transition changes nothing.
#[derive(Clone, Copy, Debug, PartialEq, Eq, Structural)]
pub enum VaultError {
    /// The vault has no configuration yet.
    NotInitialized,
    /// The vault was initialized before.
    AlreadyInitialized,
    /// The call was not authorized by the actor that the transition needs.
    Unauthorized,
    /// Trading is halted.
    SystemHalted,
    /// The amount exceeds the largest single trade allowed.
    LimitExceeded,
    /// No pending signal or recorded trade has that identifier.
    NotFound,
    /// A counter or a running total would leave its integer range.
    Overflow,
}

} // verus!
