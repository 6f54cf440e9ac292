//! The risk gate: the fixed and configured thresholds that every approval
//! must meet.
use vstd::prelude::*;

use crate::types::{RiskMetrics, VaultConfig};

verus! {

/// The worst drawdown accepted, in signed basis points (-20%).
pub const MAX_DRAWDOWN_FLOOR: i32 = -2000;

/// The worst projected stop-loss level accepted while dynamic stop-loss is
/// enabled, in signed basis points (-15%).
pub const STOP_LOSS_FLOOR: i32 = -1500;

/// All four thresholds hold: value at risk, risk-adjusted return, drawdown,
/// and, when enabled, the dynamic stop-loss.
pub open spec fn risk_acceptable(m: RiskMetrics, c: VaultConfig) -> bool {
    &&& m.var_95 <= c.max_var_95
    &&& m.sharpe_ratio >= c.min_sharpe_ratio
    &&& m.max_drawdown >= MAX_DRAWDOWN_FLOOR
    &&& (c.dynamic_stop_loss ==> m.stop_loss_level >= STOP_LOSS_FLOOR)
}

/// Decides whether a trade with these metrics may go ahead under `config`.
pub fn within_risk_limits(metrics: &RiskMetrics, config: &VaultConfig) -> (r: bool)
    ensures
        r == risk_acceptable(*metrics, *config),
{
    if metrics.var_95 > config.max_var_95 {
        return false;
    }
    if metrics.sharpe_ratio < config.min_sharpe_ratio {
        return false;
    }
    if metrics.max_drawdown < MAX_DRAWDOWN_FLOOR {
        return false;
    }
    if config.dynamic_stop_loss && metrics.stop_loss_level < STOP_LOSS_FLOOR {
        return false;
    }
    true
}

} // verus!
