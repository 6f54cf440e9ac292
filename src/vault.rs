//! The vault: its stored state and the transitions and reads that the four
//! actors drive.
//!
//! Two policies are fixed here. Halting rejects new signals only: signals
//! already pending can still be evaluated and executed, and snapshots can
//! still be taken. Execution is not tied to approval: any pending signal can
//! be executed by the payment agent, and executing consumes it.
use vstd::prelude::*;

use crate::model::{
    admin_result, after_admin, config_halted, config_lookup, config_risk_limits, config_stop_loss,
    latest_risk_metrics, latest_snapshot, operational, trade_lookup, after_approve, after_execute, after_snapshot, after_submit, approve_result, empty_model,
    execute_result, authorized_config, initial_config, initialize_result, model_wf, performance_of,
    snapshot_result, submit_result, with_config, Role, VaultModel, DEFAULT_MAX_VAR_95,
    DEFAULT_MIN_SHARPE_RATIO, VAULT_VERSION,
};
use crate::performance::{can_record, performance_after, performance_consistent};
use crate::risk::within_risk_limits;
use crate::types::{
    Address, Invocation, PortfolioSnapshot, RiskMetrics, StrategyPerformance, TradeRecord,
    TradingSignal, VaultConfig, VaultError,
};

verus! {

/// The treasury vault. Its state is described by `VaultModel` through `@`.
pub struct AITreasuryVaultV2 {
    config: Option<VaultConfig>,
    signal_counter: u64,
    signals: Vec<Option<TradingSignal>>,
    trade_counter: u64,
    trades: Vec<TradeRecord>,
    strategies: Vec<StrategyPerformance>,
    strategy_index: Ghost<Map<Seq<char>, StrategyPerformance>>,
    snapshot_counter: u64,
    snapshots: Vec<PortfolioSnapshot>,
    risk_metrics: Option<RiskMetrics>,
}

impl View for AITreasuryVaultV2 {
    type V = VaultModel;

    closed spec fn view(&self) -> VaultModel {
        VaultModel {
            config: self.config,
            signals: self.signals@,
            trades: self.trades@,
            strategies: self.strategy_index@,
            snapshots: self.snapshots@,
            risk_metrics: self.risk_metrics,
        }
    }
}

/// `index` holds each rollup of `s` under its label, and nothing else.
pub open spec fn indexes(s: Seq<StrategyPerformance>, index: Map<Seq<char>, StrategyPerformance>) -> bool {
    &&& forall|i: int|
        0 <= i < s.len() ==> index.contains_key(#[trigger] s[i].strategy_name@)
            && index[s[i].strategy_name@] == s[i]
    &&& forall|k: Seq<char>|
        #[trigger] index.contains_key(k) ==> exists|i: int|
            0 <= i < s.len() && #[trigger] s[i].strategy_name@ == k
}

/// No two rollups of `s` share a label.
pub open spec fn labels_unique(s: Seq<StrategyPerformance>) -> bool {
    forall|i: int, j: int|
        0 <= i < s.len() && 0 <= j < s.len() && #[trigger] s[i].strategy_name@
            == #[trigger] s[j].strategy_name@ ==> i == j
}

/// The strategy rollups are stored once per label, and the index of them by
/// label agrees with what is stored.
#[verifier::opaque]
closed spec fn strategies_wf(s: Seq<StrategyPerformance>, index: Map<Seq<char>, StrategyPerformance>) -> bool {
    indexes(s, index) && labels_unique(s)
}

/// A vault's records, as a store keeps them: the configuration, signal
/// `i + 1` at `signals[i]` (`None` once executed), trade `i + 1` at
/// `trades[i]`, one rollup per strategy label, snapshot `i + 1` at
/// `snapshots[i]`, and the latest risk evaluation.
pub struct VaultParts {
    pub config: Option<VaultConfig>,
    pub signals: Vec<Option<TradingSignal>>,
    pub trades: Vec<TradeRecord>,
    pub strategies: Vec<StrategyPerformance>,
    pub snapshots: Vec<PortfolioSnapshot>,
    pub risk_metrics: Option<RiskMetrics>,
}

/// Records that a vault can have reached: none without a configuration,
/// every record under the identifier of its position, every rollup
/// consistent and stored once per label.
pub open spec fn parts_consistent(p: VaultParts) -> bool {
    &&& p.config is None ==> p.signals@.len() == 0 && p.trades@.len() == 0
        && p.strategies@.len() == 0 && p.snapshots@.len() == 0 && p.risk_metrics is None
    &&& forall|i: int|
        0 <= i < p.signals@.len() && #[trigger] p.signals@[i] is Some ==> p.signals@[i]->0.signal_id
            == i + 1
    &&& forall|i: int| 0 <= i < p.trades@.len() ==> #[trigger] p.trades@[i].trade_id == i + 1
    &&& forall|i: int| 0 <= i < p.snapshots@.len() ==> #[trigger] p.snapshots@[i].snapshot_id == i + 1
    &&& forall|i: int| 0 <= i < p.strategies@.len() ==> performance_consistent(#[trigger] p.strategies@[i])
    &&& labels_unique(p.strategies@)
}

/// The records are those of the state `m`.
pub open spec fn parts_describe(p: VaultParts, m: VaultModel) -> bool {
    &&& m.config == p.config
    &&& m.signals == p.signals@
    &&& m.trades == p.trades@
    &&& indexes(p.strategies@, m.strategies)
    &&& m.snapshots == p.snapshots@
    &&& m.risk_metrics == p.risk_metrics
}

impl AITreasuryVaultV2 {
    /// The vault's invariant.
    pub closed spec fn wf(&self) -> bool {
        &&& model_wf(self@)
        &&& self.signal_counter == self.signals@.len()
        &&& self.trade_counter == self.trades@.len()
        &&& self.snapshot_counter == self.snapshots@.len()
        &&& strategies_wf(self.strategies@, self.strategy_index@)
    }

    /// A vault that has not been initialized yet.
    pub fn new() -> (r: Self)
        ensures
            r.wf(),
            r@ == empty_model(),
    {
        let r = AITreasuryVaultV2 {
            config: None,
            signal_counter: 0,
            signals: Vec::new(),
            trade_counter: 0,
            trades: Vec::new(),
            strategies: Vec::new(),
            strategy_index: Ghost(Map::empty()),
            snapshot_counter: 0,
            snapshots: Vec::new(),
            risk_metrics: None,
        };
        assert(r@ =~= empty_model());
        proof {
            reveal(strategies_wf);
        }
        r
    }

    /// The configuration, when the call was authorized by the actor that
    /// holds `role`.
    fn authorize(&self, inv: &Invocation, role: Role) -> (r: Result<VaultConfig, VaultError>)
        ensures
            r == authorized_config(self@, *inv, role),
    {
        match &self.config {
            None => Err(VaultError::NotInitialized),
            Some(c) => {
                let holder = match role {
                    Role::Admin => &c.admin,
                    Role::Trading => &c.trading_agent,
                    Role::Risk => &c.risk_agent,
                    Role::Payment => &c.payment_agent,
                };
                if inv.caller.same_as(holder) {
                    Ok(c.clone())
                } else {
                    Err(VaultError::Unauthorized)
                }
            },
        }
    }

    /// Sets up the vault with its four actors and the largest single trade,
    /// with the default risk limits, dynamic stop-loss on and trading open.
    /// Needs the administrator's authorization, and succeeds once only.
    pub fn initialize(
        &mut self,
        inv: &Invocation,
        admin: Address,
        trading_agent: Address,
        risk_agent: Address,
        payment_agent: Address,
        max_single_trade: i128,
    ) -> (r: Result<(), VaultError>)
        requires
            old(self).wf(),
        ensures
            final(self).wf(),
            r == initialize_result(old(self)@, *inv, admin),
            final(self)@ == (if r is Ok {
                with_config(
                    old(self)@,
                    initial_config(*inv, admin, trading_agent, risk_agent, payment_agent, max_single_trade),
                )
            } else {
                old(self)@
            }),
    {
        if !inv.caller.same_as(&admin) {
            return Err(VaultError::Unauthorized);
        }
        if self.config.is_some() {
            return Err(VaultError::AlreadyInitialized);
        }
        self.config = Some(
            VaultConfig {
                admin,
                trading_agent,
                risk_agent,
                payment_agent,
                max_single_trade,
                max_var_95: DEFAULT_MAX_VAR_95,
                min_sharpe_ratio: DEFAULT_MIN_SHARPE_RATIO,
                dynamic_stop_loss: true,
                halted: false,
                created_at: inv.timestamp,
                version: VAULT_VERSION,
            },
        );
        Ok(())
    }

    /// The trading agent proposes a trade. Refused while halted and when the
    /// amount exceeds the largest single trade; otherwise the signal gets the
    /// next identifier, is stamped with the call's time and waits for
    /// execution.
    pub fn submit_trading_signal(
        &mut self,
        inv: &Invocation,
        asset: String,
        action: String,
        amount: i128,
        strategy: String,
        confidence: u32,
        expected_return: i32,
    ) -> (r: Result<u64, VaultError>)
        requires
            old(self).wf(),
        ensures
            final(self).wf(),
            r == submit_result(old(self)@, *inv, amount),
            final(self)@ == after_submit(
                old(self)@,
                *inv,
                asset,
                action,
                amount,
                strategy,
                confidence,
                expected_return,
            ),
    {
        let config = match self.authorize(inv, Role::Trading) {
            Err(e) => return Err(e),
            Ok(c) => c,
        };
        if config.halted {
            return Err(VaultError::SystemHalted);
        }
        if amount > config.max_single_trade {
            return Err(VaultError::LimitExceeded);
        }
        if self.signal_counter == u64::MAX {
            return Err(VaultError::Overflow);
        }
        let signal_id = self.signal_counter + 1;
        let signal = TradingSignal {
            signal_id,
            asset,
            action,
            amount,
            strategy,
            confidence,
            expected_return,
            timestamp: inv.timestamp,
        };
        self.signals.push(Some(signal));
        self.signal_counter = signal_id;
        assert(self@ =~= after_submit(
            old(self)@,
            *inv,
            asset,
            action,
            amount,
            strategy,
            confidence,
            expected_return,
        ));
        Ok(signal_id)
    }

    /// The risk agent evaluates a trade: true when the metrics meet every
    /// threshold of the configuration. The metrics are kept as the latest
    /// evaluation whatever the outcome. The decision depends on the metrics
    /// and the configuration alone, not on `signal_id`.
    #[allow(unused_variables)]
    pub fn approve_trade(&mut self, inv: &Invocation, signal_id: u64, risk_metrics: RiskMetrics) -> (r:
        Result<bool, VaultError>)
        requires
            old(self).wf(),
        ensures
            final(self).wf(),
            r == approve_result(old(self)@, *inv, risk_metrics),
            final(self)@ == after_approve(old(self)@, *inv, risk_metrics),
    {
        let config = match self.authorize(inv, Role::Risk) {
            Err(e) => return Err(e),
            Ok(c) => c,
        };
        let approved = within_risk_limits(&risk_metrics, &config);
        self.risk_metrics = Some(risk_metrics);
        assert(self@ =~= after_approve(old(self)@, *inv, risk_metrics));
        Ok(approved)
    }

    /// Where the rollup of the strategy `name` is stored, if it has one.
    fn strategy_slot(&self, name: &String) -> (r: Option<usize>)
        requires
            self.wf(),
        ensures
            match r {
                Some(i) => i < self.strategies@.len() && self.strategies@[i as int].strategy_name@
                    == name@,
                None => !self@.strategies.contains_key(name@),
            },
    {
        proof {
            reveal(strategies_wf);
        }
        let mut i: usize = 0;
        while i < self.strategies.len()
            invariant
                self.wf(),
                0 <= i <= self.strategies@.len(),
                forall|j: int| 0 <= j < i ==> self.strategies@[j].strategy_name@ != name@,
            decreases self.strategies@.len() - i,
        {
            if self.strategies[i].strategy_name == *name {
                return Some(i);
            }
            i = i + 1;
        }
        None
    }

    /// Folds one executed trade of the strategy `strategy_name` into its
    /// rollup, starting from zero for a label not seen before. Changes nothing
    /// when a field of the rollup would overflow.
    fn update_strategy_performance(&mut self, strategy_name: &String, profit_loss: i128, now: u64) -> (r:
        Result<(), VaultError>)
        requires
            old(self).wf(),
            old(self)@.config is Some,
        ensures
            final(self).wf(),
            r is Ok <==> can_record(performance_of(old(self)@, *strategy_name), profit_loss),
            r is Err ==> r == Err::<(), VaultError>(VaultError::Overflow) && final(self)@ == old(self)@,
            r is Ok ==> final(self)@ == (VaultModel {
                strategies: old(self)@.strategies.insert(
                    strategy_name@,
                    performance_after(performance_of(old(self)@, *strategy_name), profit_loss, now),
                ),
                ..old(self)@
            }),
            final(self).signal_counter == old(self).signal_counter,
            final(self).trade_counter == old(self).trade_counter,
            final(self).snapshot_counter == old(self).snapshot_counter,
    {
        proof {
            reveal(strategies_wf);
        }
        let slot = self.strategy_slot(strategy_name);
        let current = match slot {
            Some(i) => self.strategies[i].clone(),
            None => StrategyPerformance::zeroed(strategy_name.clone()),
        };
        let updated = match current.with_trade(profit_loss, now) {
            None => return Err(VaultError::Overflow),
            Some(p) => p,
        };
        let ghost u = updated;
        let ghost old_s = self.strategies@;
        match slot {
            Some(i) => {
                self.strategies.set(i, updated);
            },
            None => {
                self.strategies.push(updated);
            },
        }
        self.strategy_index = Ghost(self.strategy_index@.insert(strategy_name@, u));
        proof {
            let s = self.strategies@;
            let index = self.strategy_index@;
            assert(u.strategy_name@ == strategy_name@);
            assert forall|k: Seq<char>| #[trigger] index.contains_key(k) implies exists|i: int|
                0 <= i < s.len() && #[trigger] s[i].strategy_name@ == k by {
                if k == strategy_name@ {
                    match slot {
                        Some(i) => assert(s[i as int].strategy_name@ == k),
                        None => assert(s[old_s.len() as int].strategy_name@ == k),
                    }
                } else {
                    let i = choose|i: int| 0 <= i < old_s.len() && #[trigger] old_s[i].strategy_name@ == k;
                    assert(s[i].strategy_name@ == k);
                }
            }
            assert(self@ =~= (VaultModel {
                strategies: old(self)@.strategies.insert(
                    strategy_name@,
                    performance_after(performance_of(old(self)@, *strategy_name), profit_loss, now),
                ),
                ..old(self)@
            }));
        }
        Ok(())
    }

    /// The payment agent executes a pending signal at `executed_price` with
    /// the realized `profit_loss`: the trade gets the next identifier and an
    /// audit record, the signal is consumed, and the strategy's rollup is
    /// updated.
    pub fn execute_trade(&mut self, inv: &Invocation, signal_id: u64, executed_price: i128, profit_loss: i128) -> (r:
        Result<u64, VaultError>)
        requires
            old(self).wf(),
        ensures
            final(self).wf(),
            r == execute_result(old(self)@, *inv, signal_id, profit_loss),
            final(self)@ == after_execute(old(self)@, *inv, signal_id, executed_price, profit_loss),
    {
        match self.authorize(inv, Role::Payment) {
            Err(e) => return Err(e),
            Ok(_) => {},
        }
        if signal_id == 0 || signal_id > self.signals.len() as u64 {
            return Err(VaultError::NotFound);
        }
        let idx = (signal_id - 1) as usize;
        let signal = match &self.signals[idx] {
            None => return Err(VaultError::NotFound),
            Some(s) => s.clone(),
        };
        if self.trade_counter == u64::MAX {
            return Err(VaultError::Overflow);
        }
        let ghost before = self@;
        match self.update_strategy_performance(&signal.strategy, profit_loss, inv.timestamp) {
            Err(e) => return Err(e),
            Ok(()) => {},
        }
        let trade_id = self.trade_counter + 1;
        let record = TradeRecord {
            trade_id,
            signal_id,
            asset: signal.asset,
            action: signal.action,
            amount: signal.amount,
            price: executed_price,
            strategy: signal.strategy,
            executed_at: inv.timestamp,
            profit_loss,
        };
        self.signals.set(idx, None);
        self.trades.push(record);
        self.trade_counter = trade_id;
        assert(self@ =~= after_execute(before, *inv, signal_id, executed_price, profit_loss));
        Ok(trade_id)
    }

    /// The trading agent records a snapshot of the portfolio: it gets the
    /// next snapshot identifier, the call's time and the current trade count,
    /// and becomes the latest snapshot.
    pub fn create_snapshot(&mut self, inv: &Invocation, total_value: i128, num_assets: u32, cumulative_return: i32) -> (r:
        Result<u64, VaultError>)
        requires
            old(self).wf(),
        ensures
            final(self).wf(),
            r == snapshot_result(old(self)@, *inv),
            final(self)@ == after_snapshot(old(self)@, *inv, total_value, num_assets, cumulative_return),
    {
        match self.authorize(inv, Role::Trading) {
            Err(e) => return Err(e),
            Ok(_) => {},
        }
        if self.snapshot_counter == u64::MAX {
            return Err(VaultError::Overflow);
        }
        let snapshot_id = self.snapshot_counter + 1;
        let snapshot = PortfolioSnapshot {
            snapshot_id,
            timestamp: inv.timestamp,
            total_value,
            num_assets,
            total_trades: self.trade_counter,
            cumulative_return,
        };
        self.snapshots.push(snapshot);
        self.snapshot_counter = snapshot_id;
        assert(self@ =~= after_snapshot(old(self)@, *inv, total_value, num_assets, cumulative_return));
        Ok(snapshot_id)
    }

    /// The rollup of the strategy `strategy_name`; a zero rollup under that
    /// label when it has no trade yet.
    pub fn get_strategy_performance(&self, strategy_name: String) -> (r: StrategyPerformance)
        requires
            self.wf(),
        ensures
            r == performance_of(self@, strategy_name),
    {
        proof {
            reveal(strategies_wf);
        }
        match self.strategy_slot(&strategy_name) {
            Some(i) => self.strategies[i].clone(),
            None => StrategyPerformance::zeroed(strategy_name),
        }
    }

    /// The audit record of the trade `trade_id`.
    pub fn get_trade(&self, trade_id: u64) -> (r: Result<TradeRecord, VaultError>)
        requires
            self.wf(),
        ensures
            r == trade_lookup(self@, trade_id),
    {
        if trade_id == 0 || trade_id > self.trades.len() as u64 {
            return Err(VaultError::NotFound);
        }
        Ok(self.trades[(trade_id - 1) as usize].clone())
    }

    /// The latest snapshot; a zero snapshot when none was taken.
    pub fn get_latest_snapshot(&self) -> (r: PortfolioSnapshot)
        requires
            self.wf(),
        ensures
            r == latest_snapshot(self@),
    {
        let n = self.snapshots.len();
        if n == 0 {
            PortfolioSnapshot {
                snapshot_id: 0,
                timestamp: 0,
                total_value: 0,
                num_assets: 0,
                total_trades: 0,
                cumulative_return: 0,
            }
        } else {
            self.snapshots[n - 1]
        }
    }

    /// How many trades were executed.
    pub fn get_total_trades(&self) -> (r: u64)
        requires
            self.wf(),
        ensures
            r == self@.trades.len(),
    {
        self.trade_counter
    }

    /// The administrator halts trading: new signals are refused until
    /// trading resumes.
    pub fn emergency_halt(&mut self, inv: &Invocation) -> (r: Result<(), VaultError>)
        requires
            old(self).wf(),
        ensures
            final(self).wf(),
            r == admin_result(old(self)@, *inv),
            final(self)@ == after_admin(old(self)@, *inv, config_halted(old(self)@.config->0, true)),
    {
        let mut config = match self.authorize(inv, Role::Admin) {
            Err(e) => return Err(e),
            Ok(c) => c,
        };
        config.halted = true;
        self.config = Some(config);
        Ok(())
    }

    /// The administrator lets trading resume.
    pub fn resume_trading(&mut self, inv: &Invocation) -> (r: Result<(), VaultError>)
        requires
            old(self).wf(),
        ensures
            final(self).wf(),
            r == admin_result(old(self)@, *inv),
            final(self)@ == after_admin(old(self)@, *inv, config_halted(old(self)@.config->0, false)),
    {
        let mut config = match self.authorize(inv, Role::Admin) {
            Err(e) => return Err(e),
            Ok(c) => c,
        };
        config.halted = false;
        self.config = Some(config);
        Ok(())
    }

    /// The configuration.
    pub fn get_config(&self) -> (r: Result<VaultConfig, VaultError>)
        requires
            self.wf(),
        ensures
            r == config_lookup(self@),
    {
        match &self.config {
            Some(c) => Ok(c.clone()),
            None => Err(VaultError::NotInitialized),
        }
    }

    /// The metrics of the latest evaluation, approved or not; zero metrics
    /// when there was none.
    pub fn get_risk_metrics(&self) -> (r: RiskMetrics)
        requires
            self.wf(),
        ensures
            r == latest_risk_metrics(self@),
    {
        match self.risk_metrics {
            Some(m) => m,
            None => RiskMetrics {
                var_95: 0,
                sharpe_ratio: 0,
                max_drawdown: 0,
                portfolio_volatility: 0,
                stop_loss_level: 0,
            },
        }
    }

    /// Whether new signals are accepted, that is whether trading is not halted.
    pub fn is_operational(&self) -> (r: Result<bool, VaultError>)
        requires
            self.wf(),
        ensures
            r == operational(self@),
    {
        match &self.config {
            Some(c) => Ok(!c.halted),
            None => Err(VaultError::NotInitialized),
        }
    }

    /// The administrator sets the largest value at risk and the smallest
    /// risk-adjusted return that approvals need from now on.
    pub fn update_risk_limits(&mut self, inv: &Invocation, max_var_95: i32, min_sharpe_ratio: i32) -> (r:
        Result<(), VaultError>)
        requires
            old(self).wf(),
        ensures
            final(self).wf(),
            r == admin_result(old(self)@, *inv),
            final(self)@ == after_admin(
                old(self)@,
                *inv,
                config_risk_limits(old(self)@.config->0, max_var_95, min_sharpe_ratio),
            ),
    {
        let mut config = match self.authorize(inv, Role::Admin) {
            Err(e) => return Err(e),
            Ok(c) => c,
        };
        config.max_var_95 = max_var_95;
        config.min_sharpe_ratio = min_sharpe_ratio;
        self.config = Some(config);
        Ok(())
    }

    /// The administrator switches the dynamic stop-loss check on or off.
    pub fn set_dynamic_stop_loss(&mut self, inv: &Invocation, enabled: bool) -> (r: Result<(), VaultError>)
        requires
            old(self).wf(),
        ensures
            final(self).wf(),
            r == admin_result(old(self)@, *inv),
            final(self)@ == after_admin(old(self)@, *inv, config_stop_loss(old(self)@.config->0, enabled)),
    {
        let mut config = match self.authorize(inv, Role::Admin) {
            Err(e) => return Err(e),
            Ok(c) => c,
        };
        config.dynamic_stop_loss = enabled;
        self.config = Some(config);
        Ok(())
    }

    /// Hands out the vault's records, to be kept in a store.
    pub fn into_parts(self) -> (r: VaultParts)
        requires
            self.wf(),
        ensures
            parts_consistent(r),
            parts_describe(r, self@),
    {
        proof {
            reveal(strategies_wf);
            let s = self.strategies@;
            assert forall|i: int| 0 <= i < s.len() implies performance_consistent(#[trigger] s[i]) by {
                assert(self@.strategies.contains_key(s[i].strategy_name@));
            }
            assert(self@.trades == self.trades@);
            assert(self@.snapshots == self.snapshots@);
            if self.config is None && s.len() > 0 {
                assert(self@.strategies.contains_key(s[0].strategy_name@));
            }
        }
        VaultParts {
            config: self.config,
            signals: self.signals,
            trades: self.trades,
            strategies: self.strategies,
            snapshots: self.snapshots,
            risk_metrics: self.risk_metrics,
        }
    }

    /// Rebuilds a vault from records kept in a store; `None` when the records
    /// are not those of a vault (see `parts_consistent`).
    pub fn from_parts(parts: VaultParts) -> (r: Option<Self>)
        ensures
            r is Some <==> parts_consistent(parts),
            r is Some ==> r->0.wf() && parts_describe(parts, r->0@),
    {
        let VaultParts { config, signals, trades, strategies, snapshots, risk_metrics } = parts;
        if config.is_none() && (signals.len() > 0 || trades.len() > 0 || strategies.len() > 0
            || snapshots.len() > 0 || risk_metrics.is_some()) {
            return None;
        }
        let mut i: usize = 0;
        while i < signals.len()
            invariant
                0 <= i <= signals@.len(),
                signals == parts.signals,
                forall|j: int|
                    0 <= j < i && #[trigger] signals@[j] is Some ==> signals@[j]->0.signal_id == j + 1,
            decreases signals@.len() - i,
        {
            match &signals[i] {
                Some(s) => {
                    if s.signal_id == 0 || s.signal_id - 1 != i as u64 {
                        assert(!parts_consistent(parts) || !(parts.signals@[i as int]->0.signal_id == i + 1));
                        return None;
                    }
                },
                None => {},
            }
            i = i + 1;
        }
        let mut i: usize = 0;
        while i < trades.len()
            invariant
                0 <= i <= trades@.len(),
                trades == parts.trades,
                forall|j: int| 0 <= j < i ==> #[trigger] trades@[j].trade_id == j + 1,
            decreases trades@.len() - i,
        {
            if trades[i].trade_id == 0 || trades[i].trade_id - 1 != i as u64 {
                assert(!(parts.trades@[i as int].trade_id == i + 1));
                return None;
            }
            i = i + 1;
        }
        let mut i: usize = 0;
        while i < snapshots.len()
            invariant
                0 <= i <= snapshots@.len(),
                snapshots == parts.snapshots,
                forall|j: int| 0 <= j < i ==> #[trigger] snapshots@[j].snapshot_id == j + 1,
            decreases snapshots@.len() - i,
        {
            if snapshots[i].snapshot_id == 0 || snapshots[i].snapshot_id - 1 != i as u64 {
                assert(!(parts.snapshots@[i as int].snapshot_id == i + 1));
                return None;
            }
            i = i + 1;
        }
        let mut i: usize = 0;
        while i < strategies.len()
            invariant
                0 <= i <= strategies@.len(),
                strategies == parts.strategies,
                forall|j: int| 0 <= j < i ==> performance_consistent(#[trigger] strategies@[j]),
                forall|a: int, b: int|
                    0 <= a < i && 0 <= b < i && #[trigger] strategies@[a].strategy_name@
                        == #[trigger] strategies@[b].strategy_name@ ==> a == b,
            decreases strategies@.len() - i,
        {
            if !strategies[i].is_consistent() {
                assert(!performance_consistent(parts.strategies@[i as int]));
                return None;
            }
            let mut j: usize = 0;
            while j < i
                invariant
                    0 <= j <= i < strategies@.len(),
                    strategies == parts.strategies,
                    forall|b: int|
                        0 <= b < j ==> #[trigger] strategies@[b].strategy_name@
                            != strategies@[i as int].strategy_name@,
                decreases i - j,
            {
                if strategies[j].strategy_name == strategies[i].strategy_name {
                    assert(parts.strategies@[j as int].strategy_name@ == parts.strategies@[i as int].strategy_name@);
                    return None;
                }
                j = j + 1;
            }
            i = i + 1;
        }
        let ghost s = strategies@;
        let ghost index = Map::new(
            |k: Seq<char>| exists|i: int| 0 <= i < s.len() && s[i].strategy_name@ == k,
            |k: Seq<char>| s[choose|i: int| 0 <= i < s.len() && s[i].strategy_name@ == k],
        );
        proof {
            reveal(strategies_wf);
            assert forall|i: int| 0 <= i < s.len() implies index.contains_key(
                #[trigger] s[i].strategy_name@,
            ) && index[s[i].strategy_name@] == s[i] by {
                let k = s[i].strategy_name@;
                assert(index.contains_key(k));
                let j = choose|j: int| 0 <= j < s.len() && s[j].strategy_name@ == k;
                assert(s[j].strategy_name@ == s[i].strategy_name@);
            }
            assert forall|k: Seq<char>| #[trigger] index.contains_key(k) implies exists|i: int|
                0 <= i < s.len() && #[trigger] s[i].strategy_name@ == k by {}
            if config is None {
                assert(index =~= Map::empty());
                assert(signals@ =~= Seq::empty());
                assert(trades@ =~= Seq::empty());
                assert(snapshots@ =~= Seq::empty());
            }
        }
        let r = AITreasuryVaultV2 {
            config,
            signal_counter: signals.len() as u64,
            signals,
            trade_counter: trades.len() as u64,
            trades,
            strategies,
            strategy_index: Ghost(index),
            snapshot_counter: snapshots.len() as u64,
            snapshots,
            risk_metrics,
        };
        assert(r@ == empty_model() || r@.config is Some);
        Some(r)
    }
}

} // verus!
