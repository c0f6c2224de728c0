//! The risk invariant engine: six non-recursive rules over integer facts,
//! tried in a fixed order. The first rule that derives a block gives the
//! reason; no rule firing means the intent is approved.
//!
//! Scales: size, volatility and order-flow imbalance are in thousandths
//! (0.85 is 850); ADX and RSI are in hundredths (25.0 is 2500).
use vstd::prelude::*;
use crate::indicators::{book_imbalance, bounded, level_imbalance, MAX_VOLUME};
use crate::text::str_equals;

verus! {

/// Volatility (thousandths) above which every intent is blocked.
pub const VOL_HALT_X1000: i64 = 850;
/// Imbalance (thousandths) beyond which trading against the wall is blocked.
pub const OFI_WALL_X1000: i64 = 300;
/// ADX (hundredths) above which a trend counts as strong.
pub const ADX_STRONG_X100: i64 = 2500;
/// RSI (hundredths) below which a SELL in a strong bull trend is blocked.
pub const RSI_BULL_EXIT_X100: i64 = 7500;
/// RSI (hundredths) above which a BUY in a strong bear trend is blocked.
pub const RSI_BEAR_EXIT_X100: i64 = 2500;
/// Open positions per symbol at which new intents are blocked.
pub const MAX_POSITIONS: i64 = 2;

/// The facts of one evaluation, as plain values.
pub struct RiskFacts {
    pub side: Seq<char>,
    pub vol: int,
    pub ofi: int,
    pub trend: Seq<char>,
    pub adx: int,
    pub rsi: int,
    pub positions: int,
}

pub open spec fn facts(
    side: &str,
    vol_x1000: i64,
    ofi_x1000: i64,
    trend: &str,
    adx_x100: i64,
    rsi_x100: i64,
    position_count: i64,
) -> RiskFacts {
    RiskFacts {
        side: side@,
        vol: vol_x1000 as int,
        ofi: ofi_x1000 as int,
        trend: trend@,
        adx: adx_x100 as int,
        rsi: rsi_x100 as int,
        positions: position_count as int,
    }
}

/// Whether rule `k` (numbered from 1 to 6) derives a block on `f`.
pub open spec fn rule_fires(k: int, f: RiskFacts) -> bool {
    if k == 1 {
        f.vol > VOL_HALT_X1000
    } else if k == 2 {
        f.side == "BUY"@ && f.ofi < -OFI_WALL_X1000
    } else if k == 3 {
        f.side == "SELL"@ && f.ofi > OFI_WALL_X1000
    } else if k == 4 {
        f.positions >= MAX_POSITIONS
    } else if k == 5 {
        f.side == "SELL"@ && f.trend == "BULLISH"@ && f.adx > ADX_STRONG_X100 && f.rsi
            < RSI_BULL_EXIT_X100
    } else if k == 6 {
        f.side == "BUY"@ && f.trend == "BEARISH"@ && f.adx > ADX_STRONG_X100 && f.rsi
            > RSI_BEAR_EXIT_X100
    } else {
        false
    }
}

/// The reason that rule `k` gives.
pub open spec fn rule_reason(k: int) -> Seq<char> {
    if k == 1 {
        "High Volatility Halt (Article 14)"@
    } else if k == 2 {
        "OFI Divergence: Buying into massive Sell Wall"@
    } else if k == 3 {
        "OFI Divergence: Selling into massive Buy Wall"@
    } else if k == 4 {
        "Max Positions Reached: Limit is 2 per symbol"@
    } else if k == 5 {
        "Regime Filter: SELL blocked in STRONG BULLISH trend"@
    } else {
        "Regime Filter: BUY blocked in STRONG BEARISH trend"@
    }
}

/// The outcome of the engine: the reason of the first rule, from rule `k` on,
/// that fires, or `None`.
pub open spec fn first_block_from(k: int, f: RiskFacts) -> Option<Seq<char>>
    decreases 7 - k,
{
    if k < 1 || k > 6 {
        None
    } else if rule_fires(k, f) {
        Some(rule_reason(k))
    } else {
        first_block_from(k + 1, f)
    }
}

pub open spec fn risk_verdict(f: RiskFacts) -> Option<Seq<char>> {
    first_block_from(1, f)
}

/// The reason that the engine returns is the one of the lowest-numbered rule
/// that fires, and the engine returns none exactly when no rule fires.
pub proof fn lemma_lowest_rule_wins(f: RiskFacts, k: int)
    requires
        1 <= k <= 6,
    ensures
        (rule_fires(k, f) && forall|j: int| 1 <= j < k ==> !rule_fires(j, f))
            ==> risk_verdict(f) == Some(rule_reason(k)),
        (forall|j: int| 1 <= j <= 6 ==> !rule_fires(j, f)) <==> risk_verdict(f) is None,
{
    reveal_with_fuel(first_block_from, 7);
    if forall|j: int| 1 <= j <= 6 ==> !rule_fires(j, f) {
    } else {
        let j = choose|j: int| 1 <= j <= 6 && rule_fires(j, f);
        assert(rule_fires(j, f));
    }
}

/// Evaluates the rules on one trade intent; `size_x1000` is carried as a
/// fact of the intent and no rule reads it.
pub fn check_risk(
    side: &str,
    size_x1000: i64,
    vol_x1000: i64,
    ofi_x1000: i64,
    trend: &str,
    adx_x100: i64,
    rsi_x100: i64,
    position_count: i64,
) -> (r: Option<String>)
    ensures
        r is Some <==> risk_verdict(
            facts(side, vol_x1000, ofi_x1000, trend, adx_x100, rsi_x100, position_count),
        ) is Some,
        r matches Some(s) ==> risk_verdict(
            facts(side, vol_x1000, ofi_x1000, trend, adx_x100, rsi_x100, position_count),
        ) == Some(s@),
{
    let _ = size_x1000;
    let is_buy = str_equals(side, "BUY");
    let is_sell = str_equals(side, "SELL");
    let bullish = str_equals(trend, "BULLISH");
    let bearish = str_equals(trend, "BEARISH");
    let ghost f = facts(side, vol_x1000, ofi_x1000, trend, adx_x100, rsi_x100, position_count);
    proof {
        reveal_with_fuel(first_block_from, 7);
    }
    if vol_x1000 > VOL_HALT_X1000 {
        Some(String::from_str("High Volatility Halt (Article 14)"))
    } else if is_buy && ofi_x1000 < -OFI_WALL_X1000 {
        Some(String::from_str("OFI Divergence: Buying into massive Sell Wall"))
    } else if is_sell && ofi_x1000 > OFI_WALL_X1000 {
        Some(String::from_str("OFI Divergence: Selling into massive Buy Wall"))
    } else if position_count >= MAX_POSITIONS {
        Some(String::from_str("Max Positions Reached: Limit is 2 per symbol"))
    } else if is_sell && bullish && adx_x100 > ADX_STRONG_X100 && rsi_x100 < RSI_BULL_EXIT_X100 {
        Some(String::from_str("Regime Filter: SELL blocked in STRONG BULLISH trend"))
    } else if is_buy && bearish && adx_x100 > ADX_STRONG_X100 && rsi_x100 > RSI_BEAR_EXIT_X100 {
        Some(String::from_str("Regime Filter: BUY blocked in STRONG BEARISH trend"))
    } else {
        None
    }
}


/// The JSON object that answers a validation: approved, or blocked with the
/// rule's reason.
pub open spec fn verdict_text(v: Option<Seq<char>>) -> Seq<char> {
    match v {
        None => "{\"allowed\": true, \"reason\": \"Approved by Silicon Guardian\"}"@,
        Some(reason) => "{\"allowed\": false, \"reason\": \""@ + reason + "\"}"@,
    }
}

/// The validation gate for trade intents, and the order-book imbalance of
/// callers that hold a full book.
pub struct TitanGuardian {}

impl TitanGuardian {
    pub fn new() -> (r: Self) {
        TitanGuardian {}
    }

    /// Order-flow imbalance of the first five levels of each side of a book,
    /// given as level volumes, in basis points.
    pub fn calculate_ofi(&self, bid_volumes: &Vec<u64>, ask_volumes: &Vec<u64>) -> (r: i64)
        requires
            bounded(bid_volumes@, MAX_VOLUME),
            bounded(ask_volumes@, MAX_VOLUME),
        ensures
            r == level_imbalance(bid_volumes@, ask_volumes@),
            -10000 <= r <= 10000,
    {
        book_imbalance(bid_volumes, ask_volumes)
    }

    /// Validates a trade intent against the risk rules, and answers with a
    /// JSON object.
    pub fn validate_intent(
        &self,
        side: &str,
        size_x1000: i64,
        vol_x1000: i64,
        ofi_x1000: i64,
        trend: &str,
        adx_x100: i64,
        rsi_x100: i64,
        position_count: i64,
    ) -> (r: String)
        ensures
            r@ == verdict_text(
                risk_verdict(
                    facts(side, vol_x1000, ofi_x1000, trend, adx_x100, rsi_x100, position_count),
                ),
            ),
    {
        match check_risk(
            side,
            size_x1000,
            vol_x1000,
            ofi_x1000,
            trend,
            adx_x100,
            rsi_x100,
            position_count,
        ) {
            Some(reason) => {
                let mut r = String::from_str("{\"allowed\": false, \"reason\": \"");
                r.append(reason.as_str());
                r.append("\"}");
                r
            },
            None => String::from_str("{\"allowed\": true, \"reason\": \"Approved by Silicon Guardian\"}"),
        }
    }
}

} // verus!
