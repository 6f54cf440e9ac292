//! The per-strategy rollup that every executed trade feeds.
use vstd::prelude::*;

use crate::types::StrategyPerformance;

verus! {

/// Division of `a` by a positive `b`, truncated toward zero.
pub open spec fn trunc_div(a: int, b: int) -> int
    recommends
        b > 0,
{
    if a >= 0 {
        a / b
    } else {
        -((-a) / b)
    }
}

/// The rollup of a strategy that has no trade yet.
pub open spec fn zero_performance(name: String) -> StrategyPerformance {
    StrategyPerformance {
        strategy_name: name,
        total_trades: 0,
        winning_trades: 0,
        total_profit: 0,
        avg_return: 0,
        sharpe_ratio: 0,
        last_updated: 0,
    }
}

/// The counts and totals agree: wins never exceed trades, and the average is
/// the truncated quotient of the total profit by the trade count.
pub open spec fn performance_consistent(p: StrategyPerformance) -> bool {
    &&& p.winning_trades <= p.total_trades
    &&& p.total_trades == 0 ==> p.avg_return == 0
    &&& p.total_trades > 0 ==> p.avg_return == trunc_div(p.total_profit as int, p.total_trades as int)
}

/// One more trade with this profit or loss still fits the rollup's integer fields.
pub open spec fn can_record(p: StrategyPerformance, profit_loss: i128) -> bool {
    &&& p.total_trades < u32::MAX
    &&& (profit_loss > 0 ==> p.winning_trades < u32::MAX)
    &&& i128::MIN <= p.total_profit + profit_loss <= i128::MAX
}

/// The rollup after one more trade with this profit or loss, recorded at `now`.
pub open spec fn performance_after(p: StrategyPerformance, profit_loss: i128, now: u64) -> StrategyPerformance {
    let total = p.total_trades + 1;
    let profit = p.total_profit + profit_loss;
    StrategyPerformance {
        strategy_name: p.strategy_name,
        total_trades: total as u32,
        winning_trades: if profit_loss > 0 { (p.winning_trades + 1) as u32 } else { p.winning_trades },
        total_profit: profit as i128,
        avg_return: trunc_div(profit, total) as i128,
        sharpe_ratio: p.sharpe_ratio,
        last_updated: now,
    }
}

proof fn lemma_trunc_div_bounded(a: int, b: int)
    requires
        b >= 1,
    ensures
        -a <= trunc_div(a, b) <= a || a <= trunc_div(a, b) <= -a,
{
    if a >= 0 {
        assert(0 <= a / b <= a) by (nonlinear_arith)
            requires a >= 0, b >= 1;
    } else {
        assert(0 <= (-a) / b <= -a) by (nonlinear_arith)
            requires -a > 0, b >= 1;
    }
}

impl StrategyPerformance {
    /// The rollup of a strategy that has no trade yet.
    pub fn zeroed(strategy_name: String) -> (r: StrategyPerformance)
        ensures
            r == zero_performance(strategy_name),
    {
        StrategyPerformance {
            strategy_name,
            total_trades: 0,
            winning_trades: 0,
            total_profit: 0,
            avg_return: 0,
            sharpe_ratio: 0,
            last_updated: 0,
        }
    }

    /// Folds one executed trade into the rollup: one more trade, one more win
    /// when the profit is strictly positive, the profit added, the average
    /// recomputed and the time stamped. `None` when a field would overflow.
    pub fn with_trade(&self, profit_loss: i128, now: u64) -> (r: Option<StrategyPerformance>)
        ensures
            r == (if can_record(*self, profit_loss) {
                Some(performance_after(*self, profit_loss, now))
            } else {
                None
            }),
            performance_consistent(*self) && r is Some ==> performance_consistent(r->0),
    {
        let total_trades = match self.total_trades.checked_add(1) {
            Some(t) => t,
            None => return None,
        };
        let winning_trades = if profit_loss > 0 {
            match self.winning_trades.checked_add(1) {
                Some(w) => w,
                None => return None,
            }
        } else {
            self.winning_trades
        };
        let total_profit = match self.total_profit.checked_add(profit_loss) {
            Some(p) => p,
            None => return None,
        };
        proof {
            lemma_trunc_div_bounded(total_profit as int, total_trades as int);
        }
        let avg_return = match total_profit.checked_div(total_trades as i128) {
            Some(q) => q,
            None => return None,
        };
        Some(StrategyPerformance {
            strategy_name: self.strategy_name.clone(),
            total_trades,
            winning_trades,
            total_profit,
            avg_return,
            sharpe_ratio: self.sharpe_ratio,
            last_updated: now,
        })
    }

    /// Whether the counts and totals agree (see `performance_consistent`).
    pub fn is_consistent(&self) -> (r: bool)
        ensures
            r == performance_consistent(*self),
    {
        if self.winning_trades > self.total_trades {
            return false;
        }
        if self.total_trades == 0 {
            return self.avg_return == 0;
        }
        proof {
            lemma_trunc_div_bounded(self.total_profit as int, self.total_trades as int);
        }
        match self.total_profit.checked_div(self.total_trades as i128) {
            Some(q) => q == self.avg_return,
            None => false,
        }
    }
}

} // verus!
