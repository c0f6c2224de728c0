//! The scoring function that turns indicators into a math verdict, and the
//! arbitration between that verdict and an optional neural one.
//!
//! Scores are counted in half points, confidences in basis points (10000 is
//! full confidence). The thresholds compare exact fractions; the values in
//! the reasons are shown in hundredths.
use vstd::prelude::*;
use crate::indicators::{
    imbalance_bp, lemma_imbalance_range, lemma_scaled_quotient, ratio_above, ratio_basis_points,
    ratio_below,
};
use crate::text::{hundredths, render_hundredths, render_signed_hundredths, signed_hundredths};

verus! {

#[allow(non_camel_case_types)]
#[derive(Clone, Copy, Debug, PartialEq, Eq, Structural)]
pub enum Action {
    BUY,
    SELL,
    HOLD,
    HALT,
}

#[derive(Clone, Copy, Debug, PartialEq, Eq, Structural)]
pub enum SignalSource {
    MathGuardian,
    NeuralCortex,
    SymbolicConsensus,
    EmergencyHalt,
}

/// Full confidence, in basis points.
pub const FULL_CONFIDENCE: u64 = 10000;
/// Cap of the math confidence (0.99).
pub const MATH_CONFIDENCE_CAP: u64 = 9900;
/// Confidence under which a side counts as unsure (0.85).
pub const MIN_CONFIDENCE: u64 = 8500;
/// Math confidence above which a lone math verdict may execute (0.7).
pub const SOLO_EXECUTE_CONFIDENCE: u64 = 7000;
/// Bonus added to the mean confidence on agreement (0.1).
pub const CONSENSUS_BONUS: u64 = 1000;
/// Confidence of a verdict that lacks consensus (0.5).
pub const LOW_CONSENSUS_CONFIDENCE: u64 = 5000;

pub open spec fn action_text(a: Action) -> Seq<char> {
    match a {
        Action::BUY => "BUY"@,
        Action::SELL => "SELL"@,
        Action::HOLD => "HOLD"@,
        Action::HALT => "HALT"@,
    }
}

/// The short name of a source in the proof payload.
pub open spec fn source_code(s: SignalSource) -> Seq<char> {
    match s {
        SignalSource::MathGuardian => "MATH"@,
        SignalSource::NeuralCortex => "NEURAL"@,
        SignalSource::SymbolicConsensus => "CONSENSUS"@,
        SignalSource::EmergencyHalt => "HALT"@,
    }
}

/// The name of a source in the audit log.
pub open spec fn source_name(s: SignalSource) -> Seq<char> {
    match s {
        SignalSource::MathGuardian => "MathGuardian"@,
        SignalSource::NeuralCortex => "NeuralCortex"@,
        SignalSource::SymbolicConsensus => "SymbolicConsensus"@,
        SignalSource::EmergencyHalt => "EmergencyHalt"@,
    }
}

impl Action {
    pub fn text(&self) -> (r: &'static str)
        ensures
            r@ == action_text(*self),
    {
        match self {
            Action::BUY => "BUY",
            Action::SELL => "SELL",
            Action::HOLD => "HOLD",
            Action::HALT => "HALT",
        }
    }
}

impl SignalSource {
    pub fn code(&self) -> (r: &'static str)
        ensures
            r@ == source_code(*self),
    {
        match self {
            SignalSource::MathGuardian => "MATH",
            SignalSource::NeuralCortex => "NEURAL",
            SignalSource::SymbolicConsensus => "CONSENSUS",
            SignalSource::EmergencyHalt => "HALT",
        }
    }

    pub fn name(&self) -> (r: &'static str)
        ensures
            r@ == source_name(*self),
    {
        match self {
            SignalSource::MathGuardian => "MathGuardian",
            SignalSource::NeuralCortex => "NeuralCortex",
            SignalSource::SymbolicConsensus => "SymbolicConsensus",
            SignalSource::EmergencyHalt => "EmergencyHalt",
        }
    }
}

/// The indicators that the score reads, as exact fractions: RSI is
/// `rsi_num / rsi_den` of 100; the imbalance is `(bid - ask) / (bid + ask)`
/// (0 when both are 0); the trend is `(recent - prior) / prior` (0 when
/// `prior` is 0); `swing` is -1, 0 or 1.
pub struct Indicators {
    pub rsi_num: int,
    pub rsi_den: int,
    pub bid: int,
    pub ask: int,
    pub swing: int,
    pub recent: int,
    pub prior: int,
}

pub open spec fn indicators(
    rsi_num: u64,
    rsi_den: u64,
    bid: u64,
    ask: u64,
    swing: i64,
    recent: u64,
    prior: u64,
) -> Indicators {
    Indicators {
        rsi_num: rsi_num as int,
        rsi_den: rsi_den as int,
        bid: bid as int,
        ask: ask as int,
        swing: swing as int,
        recent: recent as int,
        prior: prior as int,
    }
}

/// RSI in hundredths, rounded down, for display.
pub open spec fn rsi_hundredths(x: Indicators) -> int {
    x.rsi_num * 10000 / x.rsi_den
}

/// Points of the RSI tier, in half points; the first matching tier wins.
pub open spec fn rsi_points(x: Indicators) -> int {
    if ratio_below(x.rsi_num, x.rsi_den, 25, 100) {
        8
    } else if ratio_below(x.rsi_num, x.rsi_den, 30, 100) {
        6
    } else if ratio_below(x.rsi_num, x.rsi_den, 46, 100) {
        2
    } else if ratio_above(x.rsi_num, x.rsi_den, 75, 100) {
        -8
    } else if ratio_above(x.rsi_num, x.rsi_den, 70, 100) {
        -6
    } else if ratio_above(x.rsi_num, x.rsi_den, 59, 100) {
        -2
    } else {
        0
    }
}

pub open spec fn rsi_reasons(x: Indicators) -> Seq<Seq<char>> {
    let v = hundredths(rsi_hundredths(x) as nat);
    if ratio_below(x.rsi_num, x.rsi_den, 25, 100) {
        seq!["RSI Collapsed ("@ + v + ")"@]
    } else if ratio_below(x.rsi_num, x.rsi_den, 30, 100) {
        seq!["RSI Deep Oversold ("@ + v + ")"@]
    } else if ratio_below(x.rsi_num, x.rsi_den, 46, 100) {
        seq!["RSI Below Optimal ("@ + v + ")"@]
    } else if ratio_above(x.rsi_num, x.rsi_den, 75, 100) {
        seq!["RSI Sky High ("@ + v + ")"@]
    } else if ratio_above(x.rsi_num, x.rsi_den, 70, 100) {
        seq!["RSI Overbought ("@ + v + ")"@]
    } else if ratio_above(x.rsi_num, x.rsi_den, 59, 100) {
        seq!["RSI Above Optimal ("@ + v + ")"@]
    } else {
        seq![]
    }
}

/// A value in basis points as hundredths, truncated toward zero.
pub open spec fn percent_of_bp(v: int) -> int {
    if v >= 0 {
        v / 100
    } else {
        -((-v) / 100)
    }
}

/// Points of the order-flow imbalance, in half points: beyond 0.30 either
/// way.
pub open spec fn ofi_points(x: Indicators) -> int {
    if ratio_above(x.bid - x.ask, x.bid + x.ask, 3, 10) {
        4
    } else if ratio_below(x.bid - x.ask, x.bid + x.ask, -3, 10) {
        -4
    } else {
        0
    }
}

pub open spec fn ofi_reasons(x: Indicators) -> Seq<Seq<char>> {
    let v = signed_hundredths(percent_of_bp(imbalance_bp(x.bid, x.ask)));
    if ratio_above(x.bid - x.ask, x.bid + x.ask, 3, 10) {
        seq!["Strong Buy Wall (OFI: "@ + v + ")"@]
    } else if ratio_below(x.bid - x.ask, x.bid + x.ask, -3, 10) {
        seq!["Strong Sell Wall (OFI: "@ + v + ")"@]
    } else {
        seq![]
    }
}

/// Points of the failure swing, in half points.
pub open spec fn swing_points(x: Indicators) -> int {
    if x.swing > 0 {
        3
    } else if x.swing < 0 {
        -3
    } else {
        0
    }
}

pub open spec fn swing_reasons(x: Indicators) -> Seq<Seq<char>> {
    if x.swing > 0 {
        seq!["Bullish Failure Swing detected"@]
    } else if x.swing < 0 {
        seq!["Bearish Failure Swing detected"@]
    } else {
        seq![]
    }
}

/// Points of trend confirmation (a trend beyond 0.5 either way that agrees
/// with the score so far).
pub open spec fn trend_points(x: Indicators, so_far: int) -> int {
    if ratio_above(x.recent - x.prior, x.prior, 1, 2) && so_far > 0 {
        2
    } else if ratio_below(x.recent - x.prior, x.prior, -1, 2) && so_far < 0 {
        -2
    } else {
        0
    }
}

pub open spec fn trend_reasons(x: Indicators, so_far: int) -> Seq<Seq<char>> {
    if trend_points(x, so_far) != 0 {
        seq!["Trend momentum confirms"@]
    } else {
        seq![]
    }
}

pub open spec fn base_score(x: Indicators) -> int {
    rsi_points(x) + ofi_points(x) + swing_points(x)
}

/// The score of a set of indicators, in half points.
pub open spec fn score_of(x: Indicators) -> int {
    base_score(x) + trend_points(x, base_score(x))
}

/// The reasons of the score, in the order in which the rules apply.
pub open spec fn reasons_of(x: Indicators) -> Seq<Seq<char>> {
    rsi_reasons(x) + ofi_reasons(x) + swing_reasons(x) + trend_reasons(x, base_score(x))
}

pub open spec fn views(v: Seq<String>) -> Seq<Seq<char>> {
    v.map_values(|s: String| s@)
}

/// The action of a score: BUY from +4, SELL from -4, HOLD between.
pub open spec fn score_action(score: int) -> Action {
    if score >= 8 {
        Action::BUY
    } else if score <= -8 {
        Action::SELL
    } else {
        Action::HOLD
    }
}

/// `min(|score| / 8, 0.99)` in basis points.
pub open spec fn score_confidence(score: int) -> int {
    let mag = if score < 0 { -score } else { score };
    if mag * 625 > MATH_CONFIDENCE_CAP {
        MATH_CONFIDENCE_CAP as int
    } else {
        mag * 625
    }
}

fn push_text(v: &mut Vec<String>, a: &str, b: &str, c: &str)
    ensures
        views(final(v)@) == views(old(v)@).push(a@ + b@ + c@),
{
    let mut s = String::from_str(a);
    s.append(b);
    s.append(c);
    v.push(s);
    proof {
        assert(views(final(v)@) =~= views(old(v)@).push(a@ + b@ + c@));
    }
}

proof fn lemma_products_fit(num: i128, den: i128, p: i128, q: i128)
    requires
        -1_000_000_000_000_000_000 <= num <= 1_000_000_000_000_000_000,
        0 <= den <= 1_000_000_000_000_000_000,
        -100 <= p <= 100,
        0 < q <= 100,
    ensures
        -100_000_000_000_000_000_000 <= num * q <= 100_000_000_000_000_000_000,
        -100_000_000_000_000_000_000 <= p * den <= 100_000_000_000_000_000_000,
{
    assert(-100_000_000_000_000_000_000 <= num * q <= 100_000_000_000_000_000_000)
        by (nonlinear_arith)
        requires
            -1_000_000_000_000_000_000 <= num <= 1_000_000_000_000_000_000,
            0 < q <= 100;
    assert(-100_000_000_000_000_000_000 <= p * den <= 100_000_000_000_000_000_000)
        by (nonlinear_arith)
        requires
            0 <= den <= 1_000_000_000_000_000_000,
            -100 <= p <= 100;
}

/// `num / den > p / q` on machine integers.
fn exceeds(num: i128, den: i128, p: i128, q: i128) -> (r: bool)
    requires
        -1_000_000_000_000_000_000 <= num <= 1_000_000_000_000_000_000,
        0 <= den <= 1_000_000_000_000_000_000,
        -100 <= p <= 100,
        0 < q <= 100,
    ensures
        r == ratio_above(num as int, den as int, p as int, q as int),
{
    proof {
        lemma_products_fit(num, den, p, q);
    }
    den > 0 && num * q > p * den
}

/// `num / den < p / q` on machine integers.
fn falls_short(num: i128, den: i128, p: i128, q: i128) -> (r: bool)
    requires
        -1_000_000_000_000_000_000 <= num <= 1_000_000_000_000_000_000,
        0 <= den <= 1_000_000_000_000_000_000,
        -100 <= p <= 100,
        0 < q <= 100,
    ensures
        r == ratio_below(num as int, den as int, p as int, q as int),
{
    proof {
        lemma_products_fit(num, den, p, q);
    }
    den > 0 && num * q < p * den
}

/// Scores indicators given as exact fractions (see `Indicators`). Returns
/// the score in half points and the reasons in order.
pub fn score_indicators(
    rsi_num: u64,
    rsi_den: u64,
    bid: u64,
    ask: u64,
    swing: i64,
    recent: u64,
    prior: u64,
) -> (r: (i64, Vec<String>))
    requires
        0 < rsi_den <= 100_000_000_000_000_000,
        rsi_num <= rsi_den,
        bid <= 100_000_000_000_000_000,
        ask <= 100_000_000_000_000_000,
        recent <= 100_000_000_000_000_000,
        prior <= 100_000_000_000_000_000,
    ensures
        r.0 == score_of(indicators(rsi_num, rsi_den, bid, ask, swing, recent, prior)),
        views(r.1@) == reasons_of(indicators(rsi_num, rsi_den, bid, ask, swing, recent, prior)),
        -17 <= r.0 <= 17,
{
    let ghost x = indicators(rsi_num, rsi_den, bid, ask, swing, recent, prior);
    let mut score: i64 = 0;
    let mut reasons: Vec<String> = Vec::new();
    let rn = rsi_num as i128;
    let rd = rsi_den as i128;
    proof {
        lemma_scaled_quotient(rsi_num as int, rsi_den as int);
    }
    let rsi_text = render_hundredths(((rsi_num as u128) * 10000 / (rsi_den as u128)) as u64);
    if falls_short(rn, rd, 25, 100) {
        score = 8;
        push_text(&mut reasons, "RSI Collapsed (", rsi_text.as_str(), ")");
    } else if falls_short(rn, rd, 30, 100) {
        score = 6;
        push_text(&mut reasons, "RSI Deep Oversold (", rsi_text.as_str(), ")");
    } else if falls_short(rn, rd, 46, 100) {
        score = 2;
        push_text(&mut reasons, "RSI Below Optimal (", rsi_text.as_str(), ")");
    } else if exceeds(rn, rd, 75, 100) {
        score = -8;
        push_text(&mut reasons, "RSI Sky High (", rsi_text.as_str(), ")");
    } else if exceeds(rn, rd, 70, 100) {
        score = -6;
        push_text(&mut reasons, "RSI Overbought (", rsi_text.as_str(), ")");
    } else if exceeds(rn, rd, 59, 100) {
        score = -2;
        push_text(&mut reasons, "RSI Above Optimal (", rsi_text.as_str(), ")");
    }
    assert(views(reasons@) =~= rsi_reasons(x));
    let net = bid as i128 - ask as i128;
    let total = bid as i128 + ask as i128;
    proof {
        lemma_imbalance_range(bid as int, ask as int);
    }
    let ofi = ratio_basis_points(net, total as u128);
    let ofi_pct: i64 = if ofi >= 0 { ofi / 100 } else { -((-ofi) / 100) };
    let ofi_text = render_signed_hundredths(ofi_pct);
    if exceeds(net, total, 3, 10) {
        score = score + 4;
        push_text(&mut reasons, "Strong Buy Wall (OFI: ", ofi_text.as_str(), ")");
    } else if falls_short(net, total, -3, 10) {
        score = score - 4;
        push_text(&mut reasons, "Strong Sell Wall (OFI: ", ofi_text.as_str(), ")");
    }
    assert(views(reasons@) =~= rsi_reasons(x) + ofi_reasons(x));
    if swing > 0 {
        score = score + 3;
        reasons.push(String::from_str("Bullish Failure Swing detected"));
    } else if swing < 0 {
        score = score - 3;
        reasons.push(String::from_str("Bearish Failure Swing detected"));
    }
    assert(views(reasons@) =~= rsi_reasons(x) + ofi_reasons(x) + swing_reasons(x));
    assert(score == base_score(x));
    let change = recent as i128 - prior as i128;
    let base = prior as i128;
    if exceeds(change, base, 1, 2) && score > 0 {
        score = score + 2;
        reasons.push(String::from_str("Trend momentum confirms"));
    } else if falls_short(change, base, -1, 2) && score < 0 {
        score = score - 2;
        reasons.push(String::from_str("Trend momentum confirms"));
    }
    assert(views(reasons@) =~= reasons_of(x));
    (score, reasons)
}

pub fn math_action(score: i64) -> (r: Action)
    ensures
        r == score_action(score as int),
{
    if score >= 8 {
        Action::BUY
    } else if score <= -8 {
        Action::SELL
    } else {
        Action::HOLD
    }
}

pub fn math_confidence(score: i64) -> (r: u64)
    requires
        -100 <= score <= 100,
    ensures
        r == score_confidence(score as int),
        r <= MATH_CONFIDENCE_CAP,
{
    let mag: u64 = if score < 0 { (-score) as u64 } else { score as u64 };
    if mag * 625 > MATH_CONFIDENCE_CAP {
        MATH_CONFIDENCE_CAP
    } else {
        mag * 625
    }
}

/// What the arbitration adds to the reasons.
#[derive(Clone, Copy, Debug, PartialEq, Eq, Structural)]
pub enum Remark {
    Nothing,
    Veto,
    LowConsensus,
}

/// The outcome of arbitration.
#[derive(Clone, Copy, Debug)]
pub struct Arbitration {
    pub action: Action,
    pub confidence: u64,
    pub source: SignalSource,
    pub can_execute: bool,
    pub remark: Remark,
}

pub open spec fn arbitration(
    action: Action,
    confidence: u64,
    source: SignalSource,
    can_execute: bool,
    remark: Remark,
) -> Arbitration {
    Arbitration { action, confidence, source, can_execute, remark }
}

/// The arbitration table, tried top to bottom.
pub open spec fn arbitration_of(
    math: Action,
    math_conf: u64,
    neural: Option<Action>,
    neural_conf: u64,
) -> Arbitration {
    match neural {
        None => arbitration(
            math,
            math_conf,
            SignalSource::MathGuardian,
            math != Action::HOLD && math != Action::HALT && math_conf > SOLO_EXECUTE_CONFIDENCE,
            Remark::Nothing,
        ),
        Some(n) => if n == math && math != Action::HOLD {
            let boosted = (math_conf + neural_conf) / 2 + CONSENSUS_BONUS;
            arbitration(
                math,
                if boosted > FULL_CONFIDENCE { FULL_CONFIDENCE } else { boosted as u64 },
                SignalSource::SymbolicConsensus,
                math != Action::HALT,
                Remark::Nothing,
            )
        } else if math == Action::SELL && n == Action::BUY {
            arbitration(Action::HOLD, 0, SignalSource::MathGuardian, false, Remark::Veto)
        } else if math == Action::HALT {
            arbitration(Action::HALT, FULL_CONFIDENCE, SignalSource::EmergencyHalt, false, Remark::Nothing)
        } else if neural_conf < MIN_CONFIDENCE && math_conf < MIN_CONFIDENCE {
            arbitration(
                Action::HOLD,
                LOW_CONSENSUS_CONFIDENCE,
                SignalSource::SymbolicConsensus,
                false,
                Remark::LowConsensus,
            )
        } else if math == Action::HOLD && neural_conf > MIN_CONFIDENCE {
            arbitration(
                n,
                neural_conf,
                SignalSource::NeuralCortex,
                n == Action::BUY || n == Action::SELL,
                Remark::Nothing,
            )
        } else {
            arbitration(math, math_conf, SignalSource::MathGuardian, math != Action::HOLD, Remark::Nothing)
        },
    }
}

/// Reconciles the math verdict with an optional neural verdict.
pub fn arbitrate(math: Action, math_conf: u64, neural: Option<Action>, neural_conf: u64) -> (r:
    Arbitration)
    requires
        math_conf <= FULL_CONFIDENCE,
        neural_conf <= FULL_CONFIDENCE,
    ensures
        r == arbitration_of(math, math_conf, neural, neural_conf),
{
    match neural {
        None => Arbitration {
            action: math,
            confidence: math_conf,
            source: SignalSource::MathGuardian,
            can_execute: math != Action::HOLD && math != Action::HALT && math_conf
                > SOLO_EXECUTE_CONFIDENCE,
            remark: Remark::Nothing,
        },
        Some(n) => {
            if n == math && math != Action::HOLD {
                let boosted = (math_conf + neural_conf) / 2 + CONSENSUS_BONUS;
                Arbitration {
                    action: math,
                    confidence: if boosted > FULL_CONFIDENCE { FULL_CONFIDENCE } else { boosted },
                    source: SignalSource::SymbolicConsensus,
                    can_execute: math != Action::HALT,
                    remark: Remark::Nothing,
                }
            } else if math == Action::SELL && n == Action::BUY {
                Arbitration {
                    action: Action::HOLD,
                    confidence: 0,
                    source: SignalSource::MathGuardian,
                    can_execute: false,
                    remark: Remark::Veto,
                }
            } else if math == Action::HALT {
                Arbitration {
                    action: Action::HALT,
                    confidence: FULL_CONFIDENCE,
                    source: SignalSource::EmergencyHalt,
                    can_execute: false,
                    remark: Remark::Nothing,
                }
            } else if neural_conf < MIN_CONFIDENCE && math_conf < MIN_CONFIDENCE {
                Arbitration {
                    action: Action::HOLD,
                    confidence: LOW_CONSENSUS_CONFIDENCE,
                    source: SignalSource::SymbolicConsensus,
                    can_execute: false,
                    remark: Remark::LowConsensus,
                }
            } else if math == Action::HOLD && neural_conf > MIN_CONFIDENCE {
                Arbitration {
                    action: n,
                    confidence: neural_conf,
                    source: SignalSource::NeuralCortex,
                    can_execute: n == Action::BUY || n == Action::SELL,
                    remark: Remark::Nothing,
                }
            } else {
                Arbitration {
                    action: math,
                    confidence: math_conf,
                    source: SignalSource::MathGuardian,
                    can_execute: math != Action::HOLD,
                    remark: Remark::Nothing,
                }
            }
        },
    }
}

/// When the math verdict is SELL and the neural verdict is BUY, the outcome
/// is HOLD with zero confidence from the math guardian, whatever the two
/// confidences.
pub proof fn lemma_veto_asymmetry(math_conf: u64, neural_conf: u64)
    ensures
        arbitration_of(Action::SELL, math_conf, Some(Action::BUY), neural_conf).action
            == Action::HOLD,
        arbitration_of(Action::SELL, math_conf, Some(Action::BUY), neural_conf).confidence == 0,
        arbitration_of(Action::SELL, math_conf, Some(Action::BUY), neural_conf).source
            == SignalSource::MathGuardian,
        arbitration_of(Action::SELL, math_conf, Some(Action::BUY), neural_conf).remark
            == Remark::Veto,
{
}

/// Arbitration never lets a HOLD or HALT outcome execute, and keeps the
/// confidence within [0, 1] when both inputs are.
pub proof fn lemma_idle_never_executes(
    math: Action,
    math_conf: u64,
    neural: Option<Action>,
    neural_conf: u64,
)
    requires
        math_conf <= FULL_CONFIDENCE,
        neural_conf <= FULL_CONFIDENCE,
    ensures
        ({
            let r = arbitration_of(math, math_conf, neural, neural_conf);
            &&& (r.action == Action::HOLD || r.action == Action::HALT) ==> !r.can_execute
            &&& r.confidence <= FULL_CONFIDENCE
        }),
{
}

} // verus!
