use titan_guardian::signal::{arbitrate, score_indicators, Action, Remark, SignalSource};

#[test]
fn rsi_just_above_75_is_sky_high() {
    // 15001 / 20000 = 75.005%
    let (score, reasons) = score_indicators(15001, 20000, 0, 0, 0, 0, 0);
    assert_eq!(score, -8);
    assert_eq!(reasons, vec!["RSI Sky High (75.00)".to_string()]);
    // exactly 75% is not above 75
    let (score, reasons) = score_indicators(3, 4, 0, 0, 0, 0, 0);
    assert_eq!(score, -6);
    assert_eq!(reasons, vec!["RSI Overbought (75.00)".to_string()]);
}

#[test]
fn imbalance_threshold_is_exact() {
    // (13 - 7) / 20 = 0.30 exactly: no points
    let (score, _) = score_indicators(1, 2, 13, 7, 0, 0, 0);
    assert_eq!(score, 0);
    // 0.301
    let (score, reasons) = score_indicators(1, 2, 1301, 699, 0, 0, 0);
    assert_eq!(score, 4);
    assert_eq!(reasons, vec!["Strong Buy Wall (OFI: 0.30)".to_string()]);
    let (score, _) = score_indicators(1, 2, 699, 1301, 0, 0, 0);
    assert_eq!(score, -4);
}

#[test]
fn trend_confirms_only_a_matching_score() {
    // RSI 20% (+4 points), trend (16 - 10) / 10 = 0.6
    let (score, reasons) = score_indicators(1, 5, 0, 0, 0, 16, 10);
    assert_eq!(score, 10);
    assert_eq!(reasons.last().unwrap(), "Trend momentum confirms");
    // trend exactly 0.5 does not confirm
    let (score, _) = score_indicators(1, 5, 0, 0, 0, 15, 10);
    assert_eq!(score, 8);
    // a falling trend does not confirm a positive score
    let (score, _) = score_indicators(1, 5, 0, 0, 0, 2, 10);
    assert_eq!(score, 8);
}

#[test]
fn arbitration_table_rows() {
    let a = arbitrate(Action::HOLD, 0, None, 0);
    assert_eq!((a.action, a.source, a.can_execute), (Action::HOLD, SignalSource::MathGuardian, false));
    let a = arbitrate(Action::BUY, 9900, Some(Action::BUY), 10000);
    assert_eq!(a.confidence, 10000);
    assert!(a.can_execute);
    let a = arbitrate(Action::BUY, 9000, Some(Action::SELL), 9000);
    assert_eq!((a.action, a.confidence, a.source), (Action::BUY, 9000, SignalSource::MathGuardian));
    assert!(a.can_execute);
    let a = arbitrate(Action::HALT, 0, Some(Action::BUY), 9000);
    assert_eq!((a.action, a.confidence, a.source), (Action::HALT, 10000, SignalSource::EmergencyHalt));
    assert!(!a.can_execute);
    let a = arbitrate(Action::HALT, 0, Some(Action::HALT), 9000);
    assert!(!a.can_execute);
    let a = arbitrate(Action::SELL, 7500, Some(Action::BUY), 9500);
    assert_eq!(a.remark, Remark::Veto);
}
