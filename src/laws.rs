//! Properties that hold across the vault's transitions, proved over the same
//! spec functions that the operations' contracts use.
use vstd::prelude::*;

use crate::model::{
    after_admin, config_halted, config_risk_limits, config_stop_loss, initialize_result,
    after_approve, after_execute, after_snapshot, after_submit, approve_result, execute_result,
    latest_risk_metrics, model_wf, pending_signal, performance_of, snapshot_result, submit_result,
    VaultModel,
};
use crate::performance::trunc_div;
use crate::types::{Address, Invocation, RiskMetrics, VaultError};
use crate::vault::{parts_describe, VaultParts};

verus! {

/// While trading is halted, a signal from the trading agent is refused as
/// halted, and the vault, its signal counter included, stays as it was.
pub proof fn halted_vault_refuses_signals(
    m: VaultModel,
    inv: Invocation,
    asset: String,
    action: String,
    amount: i128,
    strategy: String,
    confidence: u32,
    expected_return: i32,
)
    requires
        m.config is Some,
        m.config->0.halted,
        inv.caller@ == m.config->0.trading_agent@,
    ensures
        submit_result(m, inv, amount) == Err::<u64, VaultError>(VaultError::SystemHalted),
        after_submit(m, inv, asset, action, amount, strategy, confidence, expected_return) == m,
        after_submit(m, inv, asset, action, amount, strategy, confidence, expected_return).signals.len()
            == m.signals.len(),
{
}

/// Only the administrator's operations change the configuration, the halted
/// flag included: submitting, evaluating, executing and taking snapshots
/// leave it as it was.
pub proof fn agents_leave_configuration_unchanged(
    m: VaultModel,
    inv: Invocation,
    asset: String,
    action: String,
    amount: i128,
    strategy: String,
    confidence: u32,
    expected_return: i32,
    metrics: RiskMetrics,
    signal_id: u64,
    price: i128,
    profit_loss: i128,
    total_value: i128,
    num_assets: u32,
    cumulative_return: i32,
)
    ensures
        after_submit(m, inv, asset, action, amount, strategy, confidence, expected_return).config
            == m.config,
        after_approve(m, inv, metrics).config == m.config,
        after_execute(m, inv, signal_id, price, profit_loss).config == m.config,
        after_snapshot(m, inv, total_value, num_assets, cumulative_return).config == m.config,
{
}

/// Once halted, the vault stays halted through every operation but
/// `resume_trading`: the other administrator operations keep the flag, and a
/// second initialization is refused.
pub proof fn only_resume_clears_halt(
    m: VaultModel,
    inv: Invocation,
    max_var_95: i32,
    min_sharpe_ratio: i32,
    enabled: bool,
    admin: Address,
    trading_agent: Address,
    risk_agent: Address,
    payment_agent: Address,
    max_single_trade: i128,
)
    requires
        m.config is Some,
        m.config->0.halted,
    ensures
        after_admin(m, inv, config_halted(m.config->0, true)).config->0.halted,
        after_admin(m, inv, config_risk_limits(m.config->0, max_var_95, min_sharpe_ratio)).config->0.halted,
        after_admin(m, inv, config_stop_loss(m.config->0, enabled)).config->0.halted,
        initialize_result(m, inv, admin) is Err,
{
}

/// A signal accepted gets the identifier that follows the last one, and the
/// signal counter becomes that identifier; a refused signal changes nothing.
pub proof fn signal_ids_are_sequential(
    m: VaultModel,
    inv: Invocation,
    asset: String,
    action: String,
    amount: i128,
    strategy: String,
    confidence: u32,
    expected_return: i32,
)
    ensures
        ({
            let post = after_submit(m, inv, asset, action, amount, strategy, confidence, expected_return);
            match submit_result(m, inv, amount) {
                Ok(id) => id == m.signals.len() + 1 && post.signals.len() == id,
                Err(_) => post == m,
            }
        }),
{
}

/// An executed trade gets the identifier that follows the last one, and the
/// trade counter becomes that identifier; a failed execution changes nothing.
pub proof fn trade_ids_are_sequential(m: VaultModel, inv: Invocation, signal_id: u64, price: i128, profit_loss: i128)
    ensures
        ({
            let post = after_execute(m, inv, signal_id, price, profit_loss);
            match execute_result(m, inv, signal_id, profit_loss) {
                Ok(id) => id == m.trades.len() + 1 && post.trades.len() == id,
                Err(_) => post == m,
            }
        }),
{
}

/// A snapshot gets the identifier that follows the last one, and the
/// snapshot counter becomes that identifier; a refused snapshot changes
/// nothing.
pub proof fn snapshot_ids_are_sequential(
    m: VaultModel,
    inv: Invocation,
    total_value: i128,
    num_assets: u32,
    cumulative_return: i32,
)
    ensures
        ({
            let post = after_snapshot(m, inv, total_value, num_assets, cumulative_return);
            match snapshot_result(m, inv) {
                Ok(id) => id == m.snapshots.len() + 1 && post.snapshots.len() == id,
                Err(_) => post == m,
            }
        }),
{
}

/// No transition takes an identifier back: every counter keeps its value or
/// grows, and the trades and snapshots recorded before stay as they were.
pub proof fn ledgers_only_grow(
    m: VaultModel,
    inv: Invocation,
    asset: String,
    action: String,
    amount: i128,
    strategy: String,
    confidence: u32,
    expected_return: i32,
    metrics: RiskMetrics,
    signal_id: u64,
    price: i128,
    profit_loss: i128,
    total_value: i128,
    num_assets: u32,
    cumulative_return: i32,
)
    ensures
        ({
            let post = after_submit(m, inv, asset, action, amount, strategy, confidence, expected_return);
            &&& post.signals.len() >= m.signals.len()
            &&& post.trades == m.trades
            &&& post.snapshots == m.snapshots
        }),
        ({
            let post = after_approve(m, inv, metrics);
            &&& post.signals == m.signals
            &&& post.trades == m.trades
            &&& post.snapshots == m.snapshots
        }),
        ({
            let post = after_execute(m, inv, signal_id, price, profit_loss);
            &&& post.signals.len() == m.signals.len()
            &&& post.trades.len() >= m.trades.len()
            &&& post.trades.subrange(0, m.trades.len() as int) == m.trades
            &&& post.snapshots == m.snapshots
        }),
        ({
            let post = after_snapshot(m, inv, total_value, num_assets, cumulative_return);
            &&& post.signals == m.signals
            &&& post.trades == m.trades
            &&& post.snapshots.len() >= m.snapshots.len()
            &&& post.snapshots.subrange(0, m.snapshots.len() as int) == m.snapshots
        }),
{
    let post = after_execute(m, inv, signal_id, price, profit_loss);
    assert(post.trades.subrange(0, m.trades.len() as int) =~= m.trades);
    let post = after_snapshot(m, inv, total_value, num_assets, cumulative_return);
    assert(post.snapshots.subrange(0, m.snapshots.len() as int) =~= m.snapshots);
}

/// Once the risk agent's call is authorized, the decision is a function of
/// the metrics and the configuration alone: it is false exactly when the
/// value at risk is above the maximum, the risk-adjusted return below the
/// minimum, the drawdown below -2000 basis points, or dynamic stop-loss is on
/// and the stop-loss level is below -1500 basis points.
pub proof fn approval_follows_thresholds(m: VaultModel, inv: Invocation, metrics: RiskMetrics)
    requires
        m.config is Some,
        inv.caller@ == m.config->0.risk_agent@,
    ensures
        ({
            let c = m.config->0;
            approve_result(m, inv, metrics) == Ok::<bool, VaultError>(
                !(metrics.var_95 > c.max_var_95 || metrics.sharpe_ratio < c.min_sharpe_ratio
                    || metrics.max_drawdown < -2000 || (c.dynamic_stop_loss && metrics.stop_loss_level
                    < -1500)),
            )
        }),
{
}

/// After an evaluation, the latest risk metrics are the ones evaluated,
/// whether the trade was approved or not.
pub proof fn latest_metrics_follow_evaluation(m: VaultModel, inv: Invocation, metrics: RiskMetrics)
    requires
        approve_result(m, inv, metrics) is Ok,
    ensures
        latest_risk_metrics(after_approve(m, inv, metrics)) == metrics,
{
}

/// After a trade of strategy S with profit or loss P is executed, S's rollup
/// counts one more trade, one more win exactly when P is positive, and its
/// average is its total profit divided by its trade count, truncated toward
/// zero.
pub proof fn execution_updates_strategy_rollup(
    m: VaultModel,
    inv: Invocation,
    signal_id: u64,
    price: i128,
    profit_loss: i128,
)
    requires
        model_wf(m),
        execute_result(m, inv, signal_id, profit_loss) is Ok,
    ensures
        ({
            let s = pending_signal(m, signal_id)->0.strategy;
            let before = performance_of(m, s);
            let after = performance_of(after_execute(m, inv, signal_id, price, profit_loss), s);
            &&& after.total_trades == before.total_trades + 1
            &&& after.winning_trades == before.winning_trades + (if profit_loss > 0 { 1int } else { 0 })
            &&& after.total_profit == before.total_profit + profit_loss
            &&& after.avg_return == trunc_div(after.total_profit as int, after.total_trades as int)
        }),
{
}

/// Records describe one state only: a vault rebuilt from the records that
/// another vault handed out is in the same state.
pub proof fn stored_records_determine_state(p: VaultParts, m1: VaultModel, m2: VaultModel)
    requires
        parts_describe(p, m1),
        parts_describe(p, m2),
    ensures
        m1 == m2,
{
    let s = p.strategies@;
    assert forall|k: Seq<char>| m1.strategies.contains_key(k) implies m2.strategies.contains_key(k)
        && m1.strategies[k] == m2.strategies[k] by {
        let i = choose|i: int| 0 <= i < s.len() && #[trigger] s[i].strategy_name@ == k;
        assert(m2.strategies.contains_key(s[i].strategy_name@));
    }
    assert forall|k: Seq<char>| m2.strategies.contains_key(k) implies m1.strategies.contains_key(k) by {
        let i = choose|i: int| 0 <= i < s.len() && #[trigger] s[i].strategy_name@ == k;
        assert(m1.strategies.contains_key(s[i].strategy_name@));
    }
    assert(m1.strategies =~= m2.strategies);
}

} // verus!
