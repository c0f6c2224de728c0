use titan_guardian::risk::{check_risk, TitanGuardian};

fn verdict(side: &str, vol: i64, ofi: i64, trend: &str, adx: i64, rsi: i64, n: i64) -> String {
    TitanGuardian::new().validate_intent(side, 1000, vol, ofi, trend, adx, rsi, n)
}

#[test]
fn buy_into_sell_wall_is_blocked() {
    // side BUY, size 1.0, vol 0.2, ofi -0.4, SIDEWAYS, adx 10.0, rsi 50.0, no positions
    let r = TitanGuardian::new().validate_intent("BUY", 1000, 200, -400, "SIDEWAYS", 1000, 5000, 0);
    assert_eq!(
        r,
        "{\"allowed\": false, \"reason\": \"OFI Divergence: Buying into massive Sell Wall\"}"
    );
}

#[test]
fn position_cap_blocks() {
    let r = verdict("BUY", 100, 0, "SIDEWAYS", 1000, 5000, 2);
    assert_eq!(
        r,
        "{\"allowed\": false, \"reason\": \"Max Positions Reached: Limit is 2 per symbol\"}"
    );
}

#[test]
fn quiet_intent_is_approved() {
    let r = verdict("BUY", 100, 0, "SIDEWAYS", 1000, 5000, 1);
    assert_eq!(r, "{\"allowed\": true, \"reason\": \"Approved by Silicon Guardian\"}");
}

#[test]
fn scaled_ofi_threshold_is_strict() {
    // -0.30001 truncates to -300, which is not below -300
    assert_eq!(check_risk("BUY", 1000, 100, -300, "SIDEWAYS", 1000, 5000, 0), None);
    assert_eq!(
        check_risk("BUY", 1000, 100, -301, "SIDEWAYS", 1000, 5000, 0),
        Some("OFI Divergence: Buying into massive Sell Wall".to_string())
    );
    assert_eq!(check_risk("BUY", 1000, 100, -299, "SIDEWAYS", 1000, 5000, 0), None);
}

#[test]
fn sell_into_buy_wall_is_blocked() {
    assert_eq!(
        check_risk("SELL", 1000, 100, 301, "SIDEWAYS", 1000, 5000, 0),
        Some("OFI Divergence: Selling into massive Buy Wall".to_string())
    );
    assert_eq!(check_risk("SELL", 1000, 100, 300, "SIDEWAYS", 1000, 5000, 0), None);
}

#[test]
fn high_volatility_blocks_any_side() {
    assert_eq!(
        check_risk("HOLD", 0, 851, 0, "SIDEWAYS", 0, 0, 0),
        Some("High Volatility Halt (Article 14)".to_string())
    );
    assert_eq!(check_risk("HOLD", 0, 850, 0, "SIDEWAYS", 0, 0, 0), None);
}

#[test]
fn lowest_rule_wins() {
    // volatility, sell wall and position cap all fire: the volatility rule wins
    assert_eq!(
        check_risk("BUY", 1000, 900, -500, "BEARISH", 3000, 5000, 3),
        Some("High Volatility Halt (Article 14)".to_string())
    );
    // sell wall and position cap fire: the wall wins
    assert_eq!(
        check_risk("BUY", 1000, 100, -500, "BEARISH", 3000, 5000, 3),
        Some("OFI Divergence: Buying into massive Sell Wall".to_string())
    );
    // position cap and the bear regime filter fire: the cap wins
    assert_eq!(
        check_risk("BUY", 1000, 100, 0, "BEARISH", 3000, 5000, 3),
        Some("Max Positions Reached: Limit is 2 per symbol".to_string())
    );
}

#[test]
fn regime_filters() {
    assert_eq!(
        check_risk("SELL", 1000, 100, 0, "BULLISH", 2501, 7499, 0),
        Some("Regime Filter: SELL blocked in STRONG BULLISH trend".to_string())
    );
    assert_eq!(check_risk("SELL", 1000, 100, 0, "BULLISH", 2501, 7500, 0), None);
    assert_eq!(check_risk("SELL", 1000, 100, 0, "BULLISH", 2500, 5000, 0), None);
    assert_eq!(
        check_risk("BUY", 1000, 100, 0, "BEARISH", 2600, 2501, 0),
        Some("Regime Filter: BUY blocked in STRONG BEARISH trend".to_string())
    );
    assert_eq!(check_risk("BUY", 1000, 100, 0, "BEARISH", 2600, 2500, 0), None);
    assert_eq!(check_risk("buy", 1000, 100, 0, "BEARISH", 2600, 9000, 0), None);
}

#[test]
fn book_imbalance_first_five_levels() {
    let g = TitanGuardian::new();
    // the sixth bid level is ignored
    let bids = vec![10, 10, 10, 10, 10, 1000];
    let asks = vec![30, 20];
    assert_eq!(g.calculate_ofi(&bids, &asks), 0);
    assert_eq!(g.calculate_ofi(&vec![3], &vec![1]), 5000);
    assert_eq!(g.calculate_ofi(&vec![1], &vec![2]), -3333);
    assert_eq!(g.calculate_ofi(&vec![], &vec![]), 0);
    assert_eq!(g.calculate_ofi(&vec![0, 0], &vec![7]), -10000);
}
