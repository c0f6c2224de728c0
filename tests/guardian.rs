use sha2::Digest;
use titan_guardian::guardian::SiliconMathGuardian;
use titan_guardian::indicators::{MAX_PRICE, MAX_VOLUME};
use titan_guardian::signal::{Action, SignalSource};

fn audit_lines(g: &SiliconMathGuardian) -> Vec<String> {
    serde_json::from_str(&g.get_audit_log()).unwrap()
}

#[test]
fn test_rsi_calculation() {
    let mut guardian = SiliconMathGuardian::new();
    for i in 0..30u64 {
        guardian.ingest_tick(100 + i, 1, 1, i);
    }
    let rsi = guardian.calculate_rsi(14);
    assert!(rsi > 7000, "RSI should be overbought after consistent gains");
}

#[test]
fn test_kill_switch() {
    let mut guardian = SiliconMathGuardian::new();
    guardian.activate_kill_switch("Test emergency", 1);
    assert!(guardian.is_halted());
    let signal = guardian.generate_signal(50, None, 0, 2);
    assert_eq!(signal.action, Action::HALT);
}

#[test]
fn test_latency_halt() {
    let mut guardian = SiliconMathGuardian::new();
    // volumes in tenths: 1.0 + 0.1 * i
    for i in 0..30u64 {
        guardian.ingest_tick(100, 10 + i, 10, i);
    }
    let signal = guardian.generate_signal(250, None, 0, 100);
    assert_eq!(signal.action, Action::HALT);
}

#[test]
fn kill_switch_signal_fields() {
    let mut g = SiliconMathGuardian::new();
    g.activate_kill_switch("drill", 7);
    let s = g.generate_signal(50, None, 0, 8);
    assert_eq!(s.action(), Action::HALT);
    assert_eq!(s.confidence(), 10000);
    assert_eq!(s.source, SignalSource::EmergencyHalt);
    assert!(!s.can_execute());
    assert_eq!(s.reasoning(), "KILL SWITCH ACTIVE - Human intervention required");
}

#[test]
fn latency_halt_names_latency() {
    let mut g = SiliconMathGuardian::new();
    for i in 0..30u64 {
        g.ingest_tick(100, 1, 1, i);
    }
    let s = g.generate_signal(250, None, 0, 99);
    assert_eq!(s.action, Action::HALT);
    assert!(!s.can_execute);
    assert!(s.reasoning.contains("250"));
    assert_eq!(s.reasoning, "Network latency 250ms exceeds 200ms threshold");
    let log = audit_lines(&g);
    assert_eq!(log.len(), 2);
    assert_eq!(log[0], "[HALT] Network latency 250ms exceeds threshold 200ms");
}

#[test]
fn volatility_halt_ignores_neural() {
    let mut g = SiliconMathGuardian::new();
    for i in 0..30u64 {
        let p = if i % 2 == 0 { 100 } else { 120 };
        g.ingest_tick(p, 1, 1, i);
    }
    assert!(g.calculate_volatility() > 35000);
    let s = g.generate_signal(10, Some(Action::BUY), 10000, 50);
    assert_eq!(s.action, Action::HALT);
    assert!(!s.can_execute);
    assert!(s.reasoning.starts_with("Volatility "));
}

#[test]
fn consensus_boost() {
    let mut g = SiliconMathGuardian::new();
    for i in 0..30u64 {
        g.ingest_tick(100 - i, 2, 1, i);
    }
    let s = g.generate_signal(50, Some(Action::BUY), 9000, 40);
    assert_eq!(s.action, Action::BUY);
    assert_eq!(s.source, SignalSource::SymbolicConsensus);
    // math confidence 12 half points / 16 = 0.75; (0.75 + 0.9) / 2 + 0.1
    assert_eq!(s.confidence, 9250);
    assert!(s.can_execute);
}

#[test]
fn math_veto_of_neural_buy() {
    let mut g = SiliconMathGuardian::new();
    for i in 0..30u64 {
        g.ingest_tick(100 + i, 1, 2, i);
    }
    let s = g.generate_signal(50, Some(Action::BUY), 9500, 40);
    assert_eq!(s.action, Action::HOLD);
    assert_eq!(s.confidence, 0);
    assert_eq!(s.source, SignalSource::MathGuardian);
    assert!(!s.can_execute);
    assert!(s.reasoning.contains("[VETO]"));
}

#[test]
fn math_alone_sell_executes() {
    let mut g = SiliconMathGuardian::new();
    for i in 0..30u64 {
        g.ingest_tick(100 + i, 1, 2, i);
    }
    let s = g.generate_signal(50, None, 0, 40);
    assert_eq!(s.action, Action::SELL);
    assert_eq!(s.confidence, 7500);
    assert_eq!(s.source, SignalSource::MathGuardian);
    assert!(s.can_execute);
    assert_eq!(
        s.reasoning,
        "RSI Sky High (100.00), Strong Sell Wall (OFI: -0.33)"
    );
}

#[test]
fn low_consensus_holds() {
    let mut g = SiliconMathGuardian::new();
    for i in 0..30u64 {
        g.ingest_tick(100 + i % 2, 1, 1, i);
    }
    let s = g.generate_signal(50, Some(Action::SELL), 5000, 40);
    assert_eq!(s.action, Action::HOLD);
    assert_eq!(s.confidence, 5000);
    assert_eq!(s.source, SignalSource::SymbolicConsensus);
    assert!(s.reasoning.contains("Insufficient consensus confidence"));
}

#[test]
fn neural_trusted_when_math_neutral() {
    let mut g = SiliconMathGuardian::new();
    for i in 0..30u64 {
        g.ingest_tick(100 + i % 2, 1, 1, i);
    }
    let s = g.generate_signal(50, Some(Action::SELL), 9000, 40);
    assert_eq!(s.action, Action::SELL);
    assert_eq!(s.confidence, 9000);
    assert_eq!(s.source, SignalSource::NeuralCortex);
    assert!(s.can_execute);
}

#[test]
fn proof_hash_is_sha256_of_payload() {
    let mut g = SiliconMathGuardian::new();
    g.activate_kill_switch("drill", 5);
    let s = g.generate_signal(50, None, 0, 1234);
    let payload =
        "TITAN:1234:HALT:1:KILL SWITCH ACTIVE - Human intervention required:HALT";
    let expected = format!("0x{}", hex::encode(sha2::Sha256::digest(payload.as_bytes())));
    assert_eq!(s.proof_hash(), expected);
    assert_eq!(s.proof_hash.len(), 66);
    assert_eq!(s.timestamp, 1234);
    let log = audit_lines(&g);
    assert_eq!(
        log[1],
        format!(
            "[1234] HALT | Conf: 1.00 | Src: EmergencyHalt | Hash: {} | Can Execute: false",
            &expected[..18]
        )
    );
}

#[test]
fn same_inputs_same_signal() {
    let run = || {
        let mut g = SiliconMathGuardian::new();
        for i in 0..40u64 {
            g.ingest_tick(200 + (i * 7) % 13, 3 + i % 4, 2, i);
        }
        g.generate_signal(20, Some(Action::SELL), 8000, 77)
    };
    let a = run();
    let b = run();
    assert_eq!(a.action, b.action);
    assert_eq!(a.confidence, b.confidence);
    assert_eq!(a.source, b.source);
    assert_eq!(a.can_execute, b.can_execute);
    assert_eq!(a.reasoning, b.reasoning);
    assert_eq!(a.proof_hash, b.proof_hash);
}

#[test]
fn audit_log_only_grows() {
    let mut g = SiliconMathGuardian::new();
    let mut previous: Vec<String> = Vec::new();
    for step in 0..6u64 {
        match step % 3 {
            0 => g.activate_kill_switch("check", step),
            1 => g.deactivate_kill_switch("operator-1", step),
            _ => {
                g.generate_signal(300, None, 0, step);
            }
        }
        g.ingest_tick(100, 1, 1, 10 - step);
        let now = audit_lines(&g);
        assert!(now.len() >= previous.len());
        assert_eq!(&now[..previous.len()], &previous[..]);
        previous = now;
    }
    assert!(previous[0].starts_with("[KILL_SWITCH] Activated at 0 - Reason: check"));
    assert!(!g.is_halted());
}

#[test]
fn out_of_order_tick_is_noted() {
    let mut g = SiliconMathGuardian::new();
    g.ingest_tick(100, 1, 1, 50);
    g.ingest_tick(101, 1, 1, 40);
    assert_eq!(g.tick_count(), 2);
    let log = audit_lines(&g);
    assert_eq!(log, vec!["[ORDER] Tick at 40 precedes last tick at 50".to_string()]);
}

#[test]
fn tick_window_is_bounded() {
    let mut g = SiliconMathGuardian::new();
    for i in 0..250u64 {
        g.ingest_tick(100 + i % 5, 1, 1, i);
        assert!(g.tick_count() <= 100);
    }
    assert_eq!(g.tick_count(), 100);
}

#[test]
fn short_history_sentinels() {
    let mut g = SiliconMathGuardian::new();
    for i in 0..5u64 {
        g.ingest_tick(100 + i, 3, 1, i);
    }
    assert_eq!(g.calculate_rsi(14), 5000);
    assert_eq!(g.calculate_volatility(), 0);
    assert_eq!(g.detect_rsi_failure_swing(), 0);
    let m = g.calculate_ofi();
    assert_eq!(m.imbalance(), 0);
    assert_eq!(m.cumulative_delta(), 0);
    assert_eq!(m.trend_strength(), 0);
}

#[test]
fn ofi_matrix_values() {
    let mut g = SiliconMathGuardian::new();
    for i in 0..10u64 {
        g.ingest_tick(100 + 10 * i, 3, 1, i);
    }
    let m = g.calculate_ofi();
    assert_eq!(m.imbalance, 5000);
    assert_eq!(m.cumulative_delta, 20);
    assert_eq!(m.buy_pressure, 7500);
    assert_eq!(m.sell_pressure, 2500);
    // recent mean 170, prior mean 120: 50 / 120
    assert_eq!(m.trend_strength, 4166);
}

#[test]
fn ofi_zero_volume_is_zero() {
    let mut g = SiliconMathGuardian::new();
    for i in 0..12u64 {
        g.ingest_tick(100, 0, 0, i);
    }
    let m = g.calculate_ofi();
    assert_eq!(m.imbalance, 0);
    assert_eq!(m.buy_pressure, 0);
}

#[test]
fn rsi_exact_value() {
    let mut g = SiliconMathGuardian::new();
    // changes: +2, -1, +2, -1
    for (i, p) in [100u64, 102, 101, 103, 102].iter().enumerate() {
        g.ingest_tick(*p, 1, 1, i as u64);
    }
    // gains 4, losses 2: 100 * 4 / 6
    assert_eq!(g.calculate_rsi(4), 6666);
    assert_eq!(g.calculate_rsi(5), 5000);
}

#[test]
fn rsi_without_losses_is_full() {
    let mut g = SiliconMathGuardian::new();
    for i in 0..5u64 {
        g.ingest_tick(100 + i, 1, 1, i);
    }
    assert_eq!(g.calculate_rsi(3), 10000);
}

#[test]
fn volatility_exact_value() {
    let mut g = SiliconMathGuardian::new();
    // returns alternate +10% and -1/11: mean and spread as computed in ppm
    for i in 0..20u64 {
        let p = if i % 2 == 0 { 100 } else { 110 };
        g.ingest_tick(p, 1, 1, i);
    }
    let v = g.calculate_volatility();
    // returns: 100000 (x10) and -90909 (x9)
    let r: Vec<i128> = (0..19).map(|k| if k % 2 == 0 { 100000 } else { -90909 }).collect();
    let n = 19i128;
    let total: i128 = r.iter().sum();
    let spread: i128 = r.iter().map(|x| (x * n - total) * (x * n - total)).sum();
    let var = spread / (n * n * n);
    let mut root = 0i128;
    while (root + 1) * (root + 1) <= var {
        root += 1;
    }
    assert_eq!(v as i128, root);
    assert!(v > 90000 && v < 100000);
}

#[test]
fn failure_swing_bearish() {
    let mut g = SiliconMathGuardian::new();
    // a long rise, a top, then a lower high in the last five prices
    let mut prices: Vec<u64> = (0..15u64).map(|i| 100 + 2 * i).collect();
    prices.extend_from_slice(&[130, 131, 132, 133, 134, 131, 132, 133, 132, 133]);
    for (i, p) in prices.iter().enumerate() {
        g.ingest_tick(*p, 1, 1, i as u64);
    }
    assert!(g.calculate_rsi(14) > 6500);
    assert_eq!(g.detect_rsi_failure_swing(), -1);
}

#[test]
fn failure_swing_bullish() {
    let mut g = SiliconMathGuardian::new();
    let mut prices: Vec<u64> = (0..15u64).map(|i| 200 - 2 * i).collect();
    prices.extend_from_slice(&[170, 169, 168, 167, 166, 169, 168, 167, 168, 167]);
    for (i, p) in prices.iter().enumerate() {
        g.ingest_tick(*p, 1, 1, i as u64);
    }
    assert!(g.calculate_rsi(14) < 3500);
    assert_eq!(g.detect_rsi_failure_swing(), 1);
}

#[test]
fn extreme_values_stay_in_range() {
    let mut g = SiliconMathGuardian::new();
    for i in 0..120u64 {
        let p = if i % 2 == 0 { 1 } else { MAX_PRICE };
        g.ingest_tick(p, MAX_VOLUME, 0, i);
    }
    let m = g.calculate_ofi();
    assert_eq!(m.imbalance, 10000);
    assert_eq!(m.buy_pressure, 10000);
    assert_eq!(m.sell_pressure, 0);
    assert!(g.calculate_volatility() > 35000);
    let s = g.generate_signal(0, Some(Action::BUY), 10000, 500);
    assert_eq!(s.action, Action::HALT);
    assert!(!s.can_execute);
    assert_eq!(g.tick_count(), 100);
}

#[test]
fn consensus_payload_and_audit_rounding() {
    let mut g = SiliconMathGuardian::new();
    for i in 0..30u64 {
        g.ingest_tick(100 - i, 2, 1, i);
    }
    // (0.75 + 0.925) / 2 + 0.1 = 0.9375
    let s = g.generate_signal(50, Some(Action::BUY), 9250, 40);
    assert_eq!(s.confidence, 9375);
    let payload = format!("TITAN:40:BUY:0.9375:{}:CONSENSUS", s.reasoning);
    let expected = format!("0x{}", hex::encode(sha2::Sha256::digest(payload.as_bytes())));
    assert_eq!(s.proof_hash, expected);
    let log = audit_lines(&g);
    assert_eq!(
        log[0],
        format!(
            "[40] BUY | Conf: 0.94 | Src: SymbolicConsensus | Hash: {} | Can Execute: true",
            &expected[..18]
        )
    );
}

#[test]
fn payload_confidence_drops_trailing_zeros() {
    let mut g = SiliconMathGuardian::new();
    for i in 0..30u64 {
        g.ingest_tick(100 - i, 2, 1, i);
    }
    // math confidence alone: 0.75
    let s = g.generate_signal(50, None, 0, 41);
    assert_eq!(s.confidence, 7500);
    let payload = format!("TITAN:41:BUY:0.75:{}:MATH", s.reasoning);
    let expected = format!("0x{}", hex::encode(sha2::Sha256::digest(payload.as_bytes())));
    assert_eq!(s.proof_hash, expected);
}

#[test]
fn trusted_neural_hold_or_halt_never_executes() {
    for neural in [Action::HOLD, Action::HALT] {
        let mut g = SiliconMathGuardian::new();
        for i in 0..30u64 {
            g.ingest_tick(100 + i % 2, 1, 1, i);
        }
        let s = g.generate_signal(50, Some(neural), 9000, 40);
        assert_eq!(s.action, neural);
        assert_eq!(s.source, SignalSource::NeuralCortex);
        assert!(!s.can_execute);
    }
}
