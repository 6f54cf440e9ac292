//! The vault's state as mathematical values, and what each transition and
//! each read makes of it.
use vstd::prelude::*;

use crate::performance::{can_record, performance_after, performance_consistent, zero_performance};
use crate::risk::risk_acceptable;
use crate::types::{
    Address, Invocation, PortfolioSnapshot, RiskMetrics, StrategyPerformance, TradeRecord,
    TradingSignal, VaultConfig, VaultError,
};

verus! {

/// The version that `initialize` writes into the configuration.
pub const VAULT_VERSION: u32 = 2;

/// Default largest value at risk accepted, in basis points (5%).
pub const DEFAULT_MAX_VAR_95: i32 = 500;

/// Default smallest risk-adjusted return accepted, scaled by 100 (1.0).
pub const DEFAULT_MIN_SHARPE_RATIO: i32 = 100;

/// The vault's state. Signal `i + 1` sits at `signals[i]` (`None` once
/// executed), trade `i + 1` at `trades[i]`, snapshot `i + 1` at
/// `snapshots[i]`; so each sequence's length is its counter. Strategies are
/// keyed by their label.
pub struct VaultModel {
    pub config: Option<VaultConfig>,
    pub signals: Seq<Option<TradingSignal>>,
    pub trades: Seq<TradeRecord>,
    pub strategies: Map<Seq<char>, StrategyPerformance>,
    pub snapshots: Seq<PortfolioSnapshot>,
    pub risk_metrics: Option<RiskMetrics>,
}

/// The state of a vault that was never initialized.
pub open spec fn empty_model() -> VaultModel {
    VaultModel {
        config: None,
        signals: Seq::empty(),
        trades: Seq::empty(),
        strategies: Map::empty(),
        snapshots: Seq::empty(),
        risk_metrics: None,
    }
}

/// What holds of every state that the vault's operations reach: a vault
/// without configuration is empty, every record carries the identifier of
/// its position, and every strategy's rollup sits under its own label with
/// its counts and average in agreement.
pub open spec fn model_wf(m: VaultModel) -> bool {
    &&& m.config is None ==> m == empty_model()
    &&& forall|i: int|
        0 <= i < m.signals.len() && #[trigger] m.signals[i] is Some ==> m.signals[i]->0.signal_id == i + 1
    &&& forall|i: int| 0 <= i < m.trades.len() ==> #[trigger] m.trades[i].trade_id == i + 1
    &&& forall|i: int| 0 <= i < m.snapshots.len() ==> #[trigger] m.snapshots[i].snapshot_id == i + 1
    &&& forall|k: Seq<char>|
        #[trigger] m.strategies.contains_key(k) ==> m.strategies[k].strategy_name@ == k
            && performance_consistent(m.strategies[k])
}

/// Which actor a transition must be authorized by.
pub enum Role {
    Admin,
    Trading,
    Risk,
    Payment,
}

pub open spec fn role_address(c: VaultConfig, role: Role) -> Address {
    match role {
        Role::Admin => c.admin,
        Role::Trading => c.trading_agent,
        Role::Risk => c.risk_agent,
        Role::Payment => c.payment_agent,
    }
}

/// The check that opens every transition: the vault is configured and the
/// call was authorized by the actor that holds `role`.
pub open spec fn authorized_config(m: VaultModel, inv: Invocation, role: Role) -> Result<VaultConfig, VaultError> {
    match m.config {
        None => Err(VaultError::NotInitialized),
        Some(c) => if inv.caller@ == role_address(c, role)@ {
            Ok(c)
        } else {
            Err(VaultError::Unauthorized)
        },
    }
}

pub open spec fn with_config(m: VaultModel, c: VaultConfig) -> VaultModel {
    VaultModel { config: Some(c), ..m }
}

// ---- initialize ----

pub open spec fn initial_config(
    inv: Invocation,
    admin: Address,
    trading_agent: Address,
    risk_agent: Address,
    payment_agent: Address,
    max_single_trade: i128,
) -> VaultConfig {
    VaultConfig {
        admin,
        trading_agent,
        risk_agent,
        payment_agent,
        max_single_trade,
        max_var_95: DEFAULT_MAX_VAR_95,
        min_sharpe_ratio: DEFAULT_MIN_SHARPE_RATIO,
        dynamic_stop_loss: true,
        halted: false,
        created_at: inv.timestamp,
        version: VAULT_VERSION,
    }
}

pub open spec fn initialize_result(m: VaultModel, inv: Invocation, admin: Address) -> Result<(), VaultError> {
    if inv.caller@ != admin@ {
        Err(VaultError::Unauthorized)
    } else if m.config is Some {
        Err(VaultError::AlreadyInitialized)
    } else {
        Ok(())
    }
}

// ---- signal ledger ----

pub open spec fn submit_result(m: VaultModel, inv: Invocation, amount: i128) -> Result<u64, VaultError> {
    match authorized_config(m, inv, Role::Trading) {
        Err(e) => Err(e),
        Ok(c) => if c.halted {
            Err(VaultError::SystemHalted)
        } else if amount > c.max_single_trade {
            Err(VaultError::LimitExceeded)
        } else if m.signals.len() >= u64::MAX {
            Err(VaultError::Overflow)
        } else {
            Ok((m.signals.len() + 1) as u64)
        },
    }
}

pub open spec fn after_submit(
    m: VaultModel,
    inv: Invocation,
    asset: String,
    action: String,
    amount: i128,
    strategy: String,
    confidence: u32,
    expected_return: i32,
) -> VaultModel {
    match submit_result(m, inv, amount) {
        Err(_) => m,
        Ok(id) => VaultModel {
            signals: m.signals.push(
                Some(
                    TradingSignal {
                        signal_id: id,
                        asset,
                        action,
                        amount,
                        strategy,
                        confidence,
                        expected_return,
                        timestamp: inv.timestamp,
                    },
                ),
            ),
            ..m
        },
    }
}

// ---- risk gate ----

pub open spec fn approve_result(m: VaultModel, inv: Invocation, metrics: RiskMetrics) -> Result<bool, VaultError> {
    match authorized_config(m, inv, Role::Risk) {
        Err(e) => Err(e),
        Ok(c) => Ok(risk_acceptable(metrics, c)),
    }
}

pub open spec fn after_approve(m: VaultModel, inv: Invocation, metrics: RiskMetrics) -> VaultModel {
    match approve_result(m, inv, metrics) {
        Err(_) => m,
        Ok(_) => VaultModel { risk_metrics: Some(metrics), ..m },
    }
}

// ---- trade ledger and execution ----

/// The signal with this identifier, while it is pending.
pub open spec fn pending_signal(m: VaultModel, signal_id: u64) -> Option<TradingSignal> {
    if 1 <= signal_id <= m.signals.len() {
        m.signals[signal_id - 1]
    } else {
        None
    }
}

/// The rollup of the strategy with this label; zero when it has no trade.
pub open spec fn performance_of(m: VaultModel, name: String) -> StrategyPerformance {
    if m.strategies.contains_key(name@) {
        m.strategies[name@]
    } else {
        zero_performance(name)
    }
}

pub open spec fn execute_result(m: VaultModel, inv: Invocation, signal_id: u64, profit_loss: i128) -> Result<u64, VaultError> {
    match authorized_config(m, inv, Role::Payment) {
        Err(e) => Err(e),
        Ok(_) => match pending_signal(m, signal_id) {
            None => Err(VaultError::NotFound),
            Some(s) => if m.trades.len() >= u64::MAX
                || !can_record(performance_of(m, s.strategy), profit_loss) {
                Err(VaultError::Overflow)
            } else {
                Ok((m.trades.len() + 1) as u64)
            },
        },
    }
}

pub open spec fn trade_record_of(s: TradingSignal, trade_id: u64, signal_id: u64, price: i128, profit_loss: i128, now: u64) -> TradeRecord {
    TradeRecord {
        trade_id,
        signal_id,
        asset: s.asset,
        action: s.action,
        amount: s.amount,
        price,
        strategy: s.strategy,
        executed_at: now,
        profit_loss,
    }
}

pub open spec fn after_execute(m: VaultModel, inv: Invocation, signal_id: u64, price: i128, profit_loss: i128) -> VaultModel {
    match execute_result(m, inv, signal_id, profit_loss) {
        Err(_) => m,
        Ok(trade_id) => {
            let s = pending_signal(m, signal_id)->0;
            VaultModel {
                signals: m.signals.update(signal_id - 1, None),
                trades: m.trades.push(trade_record_of(s, trade_id, signal_id, price, profit_loss, inv.timestamp)),
                strategies: m.strategies.insert(
                    s.strategy@,
                    performance_after(performance_of(m, s.strategy), profit_loss, inv.timestamp),
                ),
                ..m
            }
        },
    }
}

// ---- snapshot ledger ----

pub open spec fn snapshot_result(m: VaultModel, inv: Invocation) -> Result<u64, VaultError> {
    match authorized_config(m, inv, Role::Trading) {
        Err(e) => Err(e),
        Ok(_) => if m.snapshots.len() >= u64::MAX {
            Err(VaultError::Overflow)
        } else {
            Ok((m.snapshots.len() + 1) as u64)
        },
    }
}

pub open spec fn after_snapshot(m: VaultModel, inv: Invocation, total_value: i128, num_assets: u32, cumulative_return: i32) -> VaultModel {
    match snapshot_result(m, inv) {
        Err(_) => m,
        Ok(id) => VaultModel {
            snapshots: m.snapshots.push(PortfolioSnapshot {
                snapshot_id: id,
                timestamp: inv.timestamp,
                total_value,
                num_assets,
                total_trades: m.trades.len() as u64,
                cumulative_return,
            }),
            ..m
        },
    }
}

// ---- administration ----

pub open spec fn admin_result(m: VaultModel, inv: Invocation) -> Result<(), VaultError> {
    match authorized_config(m, inv, Role::Admin) {
        Err(e) => Err(e),
        Ok(_) => Ok(()),
    }
}

pub open spec fn after_admin(m: VaultModel, inv: Invocation, c: VaultConfig) -> VaultModel {
    match admin_result(m, inv) {
        Err(_) => m,
        Ok(_) => with_config(m, c),
    }
}

/// The configuration with the halted flag set to `halted`.
pub open spec fn config_halted(c: VaultConfig, halted: bool) -> VaultConfig {
    VaultConfig { halted, ..c }
}

/// The configuration with new risk limits.
pub open spec fn config_risk_limits(c: VaultConfig, max_var_95: i32, min_sharpe_ratio: i32) -> VaultConfig {
    VaultConfig { max_var_95, min_sharpe_ratio, ..c }
}

/// The configuration with dynamic stop-loss switched on or off.
pub open spec fn config_stop_loss(c: VaultConfig, enabled: bool) -> VaultConfig {
    VaultConfig { dynamic_stop_loss: enabled, ..c }
}

// ---- reads ----

pub open spec fn zero_risk_metrics() -> RiskMetrics {
    RiskMetrics { var_95: 0, sharpe_ratio: 0, max_drawdown: 0, portfolio_volatility: 0, stop_loss_level: 0 }
}

pub open spec fn zero_snapshot() -> PortfolioSnapshot {
    PortfolioSnapshot { snapshot_id: 0, timestamp: 0, total_value: 0, num_assets: 0, total_trades: 0, cumulative_return: 0 }
}

/// The metrics of the latest evaluation; zero when there was none.
pub open spec fn latest_risk_metrics(m: VaultModel) -> RiskMetrics {
    match m.risk_metrics {
        Some(r) => r,
        None => zero_risk_metrics(),
    }
}

/// The latest snapshot; zero when there is none.
pub open spec fn latest_snapshot(m: VaultModel) -> PortfolioSnapshot {
    if m.snapshots.len() > 0 {
        m.snapshots.last()
    } else {
        zero_snapshot()
    }
}

pub open spec fn trade_lookup(m: VaultModel, trade_id: u64) -> Result<TradeRecord, VaultError> {
    if 1 <= trade_id <= m.trades.len() {
        Ok(m.trades[trade_id - 1])
    } else {
        Err(VaultError::NotFound)
    }
}

/// Whether new signals are accepted: the vault is configured and not halted.
pub open spec fn operational(m: VaultModel) -> Result<bool, VaultError> {
    match m.config {
        Some(c) => Ok(!c.halted),
        None => Err(VaultError::NotInitialized),
    }
}

pub open spec fn config_lookup(m: VaultModel) -> Result<VaultConfig, VaultError> {
    match m.config {
        Some(c) => Ok(c),
        None => Err(VaultError::NotInitialized),
    }
}

} // verus!
