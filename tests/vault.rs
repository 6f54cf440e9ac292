use ai_treasury_vault::{
    AITreasuryVaultV2, Address, Invocation, PortfolioSnapshot, RiskMetrics, StrategyPerformance,
    VaultError, VaultParts,
};

fn addr(key: &str) -> Address {
    Address { key: key.to_string() }
}

fn call(key: &str, timestamp: u64) -> Invocation {
    Invocation { caller: addr(key), timestamp }
}

fn admin() -> Invocation {
    call("GADMIN", 10)
}

fn trader() -> Invocation {
    call("GTRADER", 20)
}

fn risk() -> Invocation {
    call("GRISK", 30)
}

fn payer() -> Invocation {
    call("GPAYER", 40)
}

fn setup() -> AITreasuryVaultV2 {
    let mut vault = AITreasuryVaultV2::new();
    vault
        .initialize(
            &admin(),
            addr("GADMIN"),
            addr("GTRADER"),
            addr("GRISK"),
            addr("GPAYER"),
            1000000,
        )
        .unwrap();
    vault
}

fn submit(vault: &mut AITreasuryVaultV2, amount: i128, strategy: &str) -> Result<u64, VaultError> {
    vault.submit_trading_signal(
        &trader(),
        "BTC".to_string(),
        "BUY".to_string(),
        amount,
        strategy.to_string(),
        85,
        250,
    )
}

fn metrics(var_95: i32, sharpe_ratio: i32, max_drawdown: i32, stop_loss_level: i32) -> RiskMetrics {
    RiskMetrics {
        var_95,
        sharpe_ratio,
        max_drawdown,
        portfolio_volatility: 20,
        stop_loss_level,
    }
}

#[test]
fn test_initialize_v2() {
    let vault = setup();
    let config = vault.get_config().unwrap();
    assert_eq!(config.version, 2);
    assert_eq!(config.dynamic_stop_loss, true);
}

#[test]
fn test_trade_history() {
    let mut vault = setup();
    let signal_id = submit(&mut vault, 100000, "LSTM").unwrap();
    assert_eq!(signal_id, 1);
    let trade_id = vault.execute_trade(&payer(), signal_id, 45000_0000000, 5000).unwrap();
    assert_eq!(trade_id, 1);
    let total_trades = vault.get_total_trades();
    assert_eq!(total_trades, 1);
    let trade = vault.get_trade(trade_id).unwrap();
    assert_eq!(trade.strategy, "LSTM".to_string());
    assert_eq!(trade.profit_loss, 5000);
}

#[test]
fn test_strategy_performance() {
    let mut vault = setup();
    let signal_id = submit(&mut vault, 100000, "LSTM").unwrap();
    vault.execute_trade(&payer(), signal_id, 45000_0000000, 5000).unwrap();
    let perf = vault.get_strategy_performance("LSTM".to_string());
    assert_eq!(perf.total_trades, 1);
    assert_eq!(perf.winning_trades, 1);
    assert_eq!(perf.total_profit, 5000);
}

#[test]
fn test_portfolio_snapshot() {
    let mut vault = setup();
    let snapshot_id = vault.create_snapshot(&trader(), 1000000_0000000, 5, 1500).unwrap();
    assert_eq!(snapshot_id, 1);
    let snapshot = vault.get_latest_snapshot();
    assert_eq!(snapshot.num_assets, 5);
    assert_eq!(snapshot.cumulative_return, 1500);
}

#[test]
fn test_dynamic_stop_loss() {
    let mut vault = setup();
    let approved = vault.approve_trade(&risk(), 1, metrics(300, 150, -1000, -1600)).unwrap();
    assert_eq!(approved, false);
}

#[test]
fn full_lifecycle_scenario() {
    let mut vault = setup();
    assert_eq!(submit(&mut vault, 100000, "LSTM"), Ok(1));
    assert_eq!(vault.execute_trade(&payer(), 1, 450000000000, 5000), Ok(1));
    assert_eq!(vault.get_total_trades(), 1);
    let trade = vault.get_trade(1).unwrap();
    assert_eq!(trade.profit_loss, 5000);
    assert_eq!(trade.trade_id, 1);
    assert_eq!(trade.signal_id, 1);
    assert_eq!(trade.asset, "BTC".to_string());
    assert_eq!(trade.action, "BUY".to_string());
    assert_eq!(trade.amount, 100000);
    assert_eq!(trade.price, 450000000000);
    assert_eq!(trade.executed_at, 40);
    let perf = vault.get_strategy_performance("LSTM".to_string());
    assert_eq!(
        perf,
        StrategyPerformance {
            strategy_name: "LSTM".to_string(),
            total_trades: 1,
            winning_trades: 1,
            total_profit: 5000,
            avg_return: 5000,
            sharpe_ratio: 0,
            last_updated: 40,
        }
    );
}

#[test]
fn approval_thresholds_scenario() {
    let mut vault = setup();
    assert_eq!(vault.approve_trade(&risk(), 1, metrics(600, 150, -1000, 0)), Ok(false));
    assert_eq!(vault.approve_trade(&risk(), 1, metrics(300, 150, -1000, 0)), Ok(true));
}

#[test]
fn approval_checks_each_threshold() {
    let mut vault = setup();
    assert_eq!(vault.approve_trade(&risk(), 1, metrics(500, 100, -2000, -1500)), Ok(true));
    assert_eq!(vault.approve_trade(&risk(), 1, metrics(501, 100, -2000, -1500)), Ok(false));
    assert_eq!(vault.approve_trade(&risk(), 1, metrics(500, 99, -2000, -1500)), Ok(false));
    assert_eq!(vault.approve_trade(&risk(), 1, metrics(500, 100, -2001, -1500)), Ok(false));
    assert_eq!(vault.approve_trade(&risk(), 1, metrics(500, 100, -2000, -1501)), Ok(false));
}

#[test]
fn disabled_stop_loss_is_not_checked() {
    let mut vault = setup();
    assert_eq!(vault.set_dynamic_stop_loss(&admin(), false), Ok(()));
    assert_eq!(vault.get_config().unwrap().dynamic_stop_loss, false);
    assert_eq!(vault.approve_trade(&risk(), 1, metrics(300, 150, -1000, -1600)), Ok(true));
}

#[test]
fn updated_risk_limits_apply_to_later_approvals() {
    let mut vault = setup();
    assert_eq!(vault.update_risk_limits(&admin(), 700, 50), Ok(()));
    let config = vault.get_config().unwrap();
    assert_eq!(config.max_var_95, 700);
    assert_eq!(config.min_sharpe_ratio, 50);
    assert_eq!(vault.approve_trade(&risk(), 1, metrics(600, 60, -1000, 0)), Ok(true));
    assert_eq!(vault.update_risk_limits(&trader(), 1, 1), Err(VaultError::Unauthorized));
}

#[test]
fn risk_metrics_follow_latest_evaluation() {
    let mut vault = setup();
    assert_eq!(vault.get_risk_metrics(), RiskMetrics { var_95: 0, sharpe_ratio: 0, max_drawdown: 0, portfolio_volatility: 0, stop_loss_level: 0 });
    let rejected = metrics(900, 10, -3000, -1700);
    assert_eq!(vault.approve_trade(&risk(), 7, rejected), Ok(false));
    assert_eq!(vault.get_risk_metrics(), rejected);
    let accepted = metrics(100, 200, -100, -100);
    assert_eq!(vault.approve_trade(&risk(), 8, accepted), Ok(true));
    assert_eq!(vault.get_risk_metrics(), accepted);
}

#[test]
fn snapshot_after_no_trades_scenario() {
    let mut vault = setup();
    assert_eq!(vault.create_snapshot(&trader(), 1000000 * 10000000, 5, 1500), Ok(1));
    let snapshot = vault.get_latest_snapshot();
    assert_eq!(snapshot.total_trades, 0);
    assert_eq!(snapshot.num_assets, 5);
    assert_eq!(snapshot.total_value, 10000000000000);
    assert_eq!(snapshot.timestamp, 20);
}

#[test]
fn snapshot_counts_trades_and_becomes_latest() {
    let mut vault = setup();
    assert_eq!(vault.get_latest_snapshot().snapshot_id, 0);
    submit(&mut vault, 10, "DQN").unwrap();
    vault.execute_trade(&payer(), 1, 1, 1).unwrap();
    assert_eq!(vault.create_snapshot(&trader(), 100, 1, 10), Ok(1));
    assert_eq!(vault.create_snapshot(&trader(), 200, 2, 20), Ok(2));
    let latest = vault.get_latest_snapshot();
    assert_eq!(latest.snapshot_id, 2);
    assert_eq!(latest.total_value, 200);
    assert_eq!(latest.total_trades, 1);
    assert_eq!(vault.create_snapshot(&payer(), 1, 1, 1), Err(VaultError::Unauthorized));
}

#[test]
fn halted_vault_refuses_new_signals() {
    let mut vault = setup();
    assert_eq!(vault.emergency_halt(&admin()), Ok(()));
    assert_eq!(vault.is_operational(), Ok(false));
    assert_eq!(submit(&mut vault, 100, "LSTM"), Err(VaultError::SystemHalted));
    assert_eq!(submit(&mut vault, 100, "LSTM"), Err(VaultError::SystemHalted));
    assert_eq!(vault.resume_trading(&admin()), Ok(()));
    assert_eq!(vault.is_operational(), Ok(true));
    assert_eq!(submit(&mut vault, 100, "LSTM"), Ok(1));
}

#[test]
fn halting_keeps_pending_signals_executable() {
    let mut vault = setup();
    assert_eq!(submit(&mut vault, 100, "LSTM"), Ok(1));
    vault.emergency_halt(&admin()).unwrap();
    assert_eq!(vault.approve_trade(&risk(), 1, metrics(300, 150, -1000, 0)), Ok(true));
    assert_eq!(vault.execute_trade(&payer(), 1, 5, 5), Ok(1));
}

#[test]
fn only_admin_halts_and_resumes() {
    let mut vault = setup();
    assert_eq!(vault.emergency_halt(&trader()), Err(VaultError::Unauthorized));
    assert_eq!(vault.is_operational(), Ok(true));
    vault.emergency_halt(&admin()).unwrap();
    assert_eq!(vault.resume_trading(&risk()), Err(VaultError::Unauthorized));
    assert_eq!(vault.is_operational(), Ok(false));
    assert_eq!(vault.set_dynamic_stop_loss(&payer(), false), Err(VaultError::Unauthorized));
}

#[test]
fn amount_above_limit_is_refused() {
    let mut vault = setup();
    assert_eq!(submit(&mut vault, 1000001, "LSTM"), Err(VaultError::LimitExceeded));
    assert_eq!(submit(&mut vault, 1000000, "LSTM"), Ok(1));
}

#[test]
fn identifiers_are_sequential_and_never_reused() {
    let mut vault = setup();
    assert_eq!(submit(&mut vault, 1, "A"), Ok(1));
    assert_eq!(submit(&mut vault, 5000000, "A"), Err(VaultError::LimitExceeded));
    assert_eq!(vault.submit_trading_signal(&risk(), "X".to_string(), "SELL".to_string(), 1, "A".to_string(), 1, 1), Err(VaultError::Unauthorized));
    assert_eq!(submit(&mut vault, 2, "A"), Ok(2));
    assert_eq!(submit(&mut vault, 3, "B"), Ok(3));
    assert_eq!(vault.execute_trade(&payer(), 2, 1, 1), Ok(1));
    assert_eq!(vault.execute_trade(&payer(), 9, 1, 1), Err(VaultError::NotFound));
    assert_eq!(vault.execute_trade(&payer(), 3, 1, 1), Ok(2));
    assert_eq!(submit(&mut vault, 4, "B"), Ok(4));
    assert_eq!(vault.get_total_trades(), 2);
}

#[test]
fn executed_signal_is_consumed() {
    let mut vault = setup();
    submit(&mut vault, 100, "LSTM").unwrap();
    assert_eq!(vault.execute_trade(&payer(), 1, 10, 10), Ok(1));
    assert_eq!(vault.execute_trade(&payer(), 1, 10, 10), Err(VaultError::NotFound));
    assert_eq!(vault.execute_trade(&payer(), 0, 10, 10), Err(VaultError::NotFound));
    assert_eq!(vault.get_total_trades(), 1);
}

#[test]
fn execution_needs_payment_agent() {
    let mut vault = setup();
    submit(&mut vault, 100, "LSTM").unwrap();
    assert_eq!(vault.execute_trade(&trader(), 1, 10, 10), Err(VaultError::Unauthorized));
    assert_eq!(vault.execute_trade(&payer(), 1, 10, 10), Ok(1));
}

#[test]
fn unknown_trade_is_not_found() {
    let mut vault = setup();
    assert_eq!(vault.get_trade(0), Err(VaultError::NotFound));
    assert_eq!(vault.get_trade(1), Err(VaultError::NotFound));
}

#[test]
fn rollup_counts_losses_and_truncates_average() {
    let mut vault = setup();
    submit(&mut vault, 100, "MACD").unwrap();
    submit(&mut vault, 100, "MACD").unwrap();
    submit(&mut vault, 100, "MACD").unwrap();
    vault.execute_trade(&payer(), 1, 1, 5000).unwrap();
    vault.execute_trade(&payer(), 2, 1, -7001).unwrap();
    let perf = vault.get_strategy_performance("MACD".to_string());
    assert_eq!(perf.total_trades, 2);
    assert_eq!(perf.winning_trades, 1);
    assert_eq!(perf.total_profit, -2001);
    assert_eq!(perf.avg_return, -1000);
    vault.execute_trade(&payer(), 3, 1, 0).unwrap();
    let perf = vault.get_strategy_performance("MACD".to_string());
    assert_eq!(perf.total_trades, 3);
    assert_eq!(perf.winning_trades, 1);
    assert_eq!(perf.avg_return, -667);
}

#[test]
fn rollups_are_kept_per_strategy() {
    let mut vault = setup();
    submit(&mut vault, 100, "LSTM").unwrap();
    submit(&mut vault, 100, "DQN").unwrap();
    vault.execute_trade(&payer(), 1, 1, 300).unwrap();
    vault.execute_trade(&payer(), 2, 1, -50).unwrap();
    assert_eq!(vault.get_strategy_performance("LSTM".to_string()).total_profit, 300);
    assert_eq!(vault.get_strategy_performance("DQN".to_string()).total_profit, -50);
    assert_eq!(vault.get_strategy_performance("DQN".to_string()).winning_trades, 0);
    let unseen = vault.get_strategy_performance("MACD".to_string());
    assert_eq!(unseen, StrategyPerformance::zeroed("MACD".to_string()));
}

#[test]
fn rollup_overflow_aborts_execution() {
    let mut vault = setup();
    submit(&mut vault, 100, "LSTM").unwrap();
    submit(&mut vault, 100, "LSTM").unwrap();
    assert_eq!(vault.execute_trade(&payer(), 1, 1, i128::MAX), Ok(1));
    assert_eq!(vault.execute_trade(&payer(), 2, 1, 1), Err(VaultError::Overflow));
    assert_eq!(vault.get_total_trades(), 1);
    assert_eq!(vault.get_strategy_performance("LSTM".to_string()).total_trades, 1);
    assert_eq!(vault.execute_trade(&payer(), 2, 1, -1), Ok(2));
}

#[test]
fn with_trade_folds_one_trade() {
    let p = StrategyPerformance::zeroed("LSTM".to_string());
    let q = p.with_trade(-9, 77).unwrap();
    assert_eq!(q.total_trades, 1);
    assert_eq!(q.winning_trades, 0);
    assert_eq!(q.total_profit, -9);
    assert_eq!(q.avg_return, -9);
    assert_eq!(q.last_updated, 77);
    let full = StrategyPerformance { total_trades: u32::MAX, ..p.clone() };
    assert_eq!(full.with_trade(1, 1), None);
}

#[test]
fn initialize_is_guarded() {
    let mut vault = AITreasuryVaultV2::new();
    assert_eq!(vault.get_config(), Err(VaultError::NotInitialized));
    assert_eq!(vault.is_operational(), Err(VaultError::NotInitialized));
    assert_eq!(submit(&mut vault, 1, "A"), Err(VaultError::NotInitialized));
    assert_eq!(
        vault.initialize(&trader(), addr("GADMIN"), addr("GTRADER"), addr("GRISK"), addr("GPAYER"), 5),
        Err(VaultError::Unauthorized)
    );
    assert_eq!(
        vault.initialize(&admin(), addr("GADMIN"), addr("GTRADER"), addr("GRISK"), addr("GPAYER"), 5),
        Ok(())
    );
    let config = vault.get_config().unwrap();
    assert_eq!(config.max_single_trade, 5);
    assert_eq!(config.max_var_95, 500);
    assert_eq!(config.min_sharpe_ratio, 100);
    assert_eq!(config.halted, false);
    assert_eq!(config.created_at, 10);
    assert_eq!(
        vault.initialize(&admin(), addr("GADMIN"), addr("GX"), addr("GY"), addr("GZ"), 9),
        Err(VaultError::AlreadyInitialized)
    );
    assert_eq!(vault.get_config().unwrap().trading_agent, addr("GTRADER"));
}

#[test]
fn reads_are_repeatable() {
    let mut vault = setup();
    submit(&mut vault, 100, "LSTM").unwrap();
    vault.execute_trade(&payer(), 1, 1, 42).unwrap();
    vault.approve_trade(&risk(), 1, metrics(1, 200, 0, 0)).unwrap();
    vault.create_snapshot(&trader(), 9, 1, 3).unwrap();
    assert_eq!(vault.get_config(), vault.get_config());
    assert_eq!(vault.get_risk_metrics(), vault.get_risk_metrics());
    assert_eq!(vault.get_trade(1), vault.get_trade(1));
    assert_eq!(vault.get_strategy_performance("LSTM".to_string()), vault.get_strategy_performance("LSTM".to_string()));
    assert_eq!(vault.get_latest_snapshot(), vault.get_latest_snapshot());
    assert_eq!(vault.get_total_trades(), vault.get_total_trades());
    assert_eq!(vault.is_operational(), vault.is_operational());
}

#[test]
fn address_comparison_uses_the_key() {
    assert!(addr("GA").same_as(&addr("GA")));
    assert!(!addr("GA").same_as(&addr("GB")));
}

#[test]
fn records_round_trip_through_parts() {
    let mut vault = setup();
    submit(&mut vault, 100, "LSTM").unwrap();
    submit(&mut vault, 200, "DQN").unwrap();
    vault.execute_trade(&payer(), 1, 7, 70).unwrap();
    vault.create_snapshot(&trader(), 5, 1, 2).unwrap();
    vault.approve_trade(&risk(), 2, metrics(1, 200, 0, 0)).unwrap();
    let parts = vault.into_parts();
    assert_eq!(parts.signals.len(), 2);
    assert!(parts.signals[0].is_none());
    assert_eq!(parts.trades.len(), 1);
    assert_eq!(parts.strategies.len(), 1);
    let mut restored = AITreasuryVaultV2::from_parts(parts).unwrap();
    assert_eq!(restored.get_total_trades(), 1);
    assert_eq!(restored.get_strategy_performance("LSTM".to_string()).total_profit, 70);
    assert_eq!(restored.get_latest_snapshot().snapshot_id, 1);
    assert_eq!(restored.get_risk_metrics(), metrics(1, 200, 0, 0));
    assert_eq!(restored.execute_trade(&payer(), 2, 7, -1), Ok(2));
    assert_eq!(submit(&mut restored, 1, "LSTM"), Ok(3));
}

#[test]
fn inconsistent_parts_are_refused() {
    let empty = || VaultParts {
        config: None,
        signals: Vec::new(),
        trades: Vec::new(),
        strategies: Vec::new(),
        snapshots: Vec::new(),
        risk_metrics: None,
    };
    assert!(AITreasuryVaultV2::from_parts(empty()).is_some());
    let mut orphan = empty();
    orphan.risk_metrics = Some(metrics(0, 0, 0, 0));
    assert!(AITreasuryVaultV2::from_parts(orphan).is_none());

    let configured = || setup().into_parts();
    let mut gap = configured();
    gap.snapshots.push(PortfolioSnapshot {
        snapshot_id: 2,
        timestamp: 0,
        total_value: 0,
        num_assets: 0,
        total_trades: 0,
        cumulative_return: 0,
    });
    assert!(AITreasuryVaultV2::from_parts(gap).is_none());

    let mut twice = configured();
    twice.strategies.push(StrategyPerformance::zeroed("LSTM".to_string()));
    twice.strategies.push(StrategyPerformance::zeroed("LSTM".to_string()));
    assert!(AITreasuryVaultV2::from_parts(twice).is_none());

    let mut skewed = configured();
    let mut perf = StrategyPerformance::zeroed("LSTM".to_string());
    perf.total_trades = 2;
    perf.total_profit = 9;
    perf.avg_return = 5;
    skewed.strategies.push(perf.clone());
    assert!(AITreasuryVaultV2::from_parts(skewed).is_none());
    let mut fine = configured();
    perf.avg_return = 4;
    fine.strategies.push(perf);
    assert!(AITreasuryVaultV2::from_parts(fine).is_some());
}
