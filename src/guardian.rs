//! The math guardian engine: bounded tick and price windows, the indicator
//! pipeline, the safety gates, arbitration, and the audit trail.
//!
//! The clock is the caller's: every operation that stamps a time takes it as
//! `now_ms`. Prices, volumes and ratios follow the scales of `indicators`;
//! confidences are in basis points.
use vstd::prelude::*;
use crate::audit::{audit_line, audit_line_of, json_lines, json_string_array, payload_of,
    proof_hash, proof_hash_of, proof_payload};
use crate::indicators::{
    bounded, momentum_parts, momentum_sums, rsi_parts, rsi_ratio, failure_swing, failure_swing_of, momentum, momentum_of, ratio_basis_points,
    ratio_bp, rsi, rsi_of, volatility, volatility_of, imbalance_bp, lemma_imbalance_range,
    MAX_PRICE, MAX_VOLUME, VOLATILITY_HALT,
};
use crate::signal::{
    arbitrate, arbitration_of, math_action, math_confidence, reasons_of, score_action,
    score_confidence, score_indicators, score_of, views, Action, Indicators, Remark, SignalSource,
    FULL_CONFIDENCE,
};
use crate::text::{
    decimal, hundredths, render_hundredths, render_u64, round_to_hundredths, rounded_hundredths,
};

verus! {

/// Capacity of the tick and price windows.
pub const TICK_CAPACITY: usize = 100;
/// Capacity of the imbalance history.
pub const OFI_CAPACITY: usize = 50;
/// Network latency, in milliseconds, above which the engine halts.
pub const MAX_LATENCY_MS: u64 = 200;
/// Ticks needed before the order-flow matrix is computed.
pub const MIN_OFI_TICKS: usize = 10;

#[derive(Clone, Copy, Debug)]
pub struct MarketTick {
    pub price: u64,
    pub bid_volume: u64,
    pub ask_volume: u64,
    pub timestamp: u64,
}

/// Order-flow figures of the tick window; ratios in basis points, the
/// cumulative delta in volume units.
#[derive(Clone, Copy, Debug)]
pub struct OFIMatrix {
    pub imbalance: i64,
    pub cumulative_delta: i64,
    pub buy_pressure: i64,
    pub sell_pressure: i64,
    pub trend_strength: i64,
}

impl OFIMatrix {
    pub fn imbalance(&self) -> (r: i64)
        ensures
            r == self.imbalance,
    {
        self.imbalance
    }

    pub fn cumulative_delta(&self) -> (r: i64)
        ensures
            r == self.cumulative_delta,
    {
        self.cumulative_delta
    }

    pub fn trend_strength(&self) -> (r: i64)
        ensures
            r == self.trend_strength,
    {
        self.trend_strength
    }
}

#[derive(Clone, Debug)]
pub struct TradingSignal {
    pub action: Action,
    pub confidence: u64,
    pub reasoning: String,
    pub source: SignalSource,
    pub proof_hash: String,
    pub timestamp: u64,
    pub can_execute: bool,
}

impl TradingSignal {
    pub fn action(&self) -> (r: Action)
        ensures
            r == self.action,
    {
        self.action
    }

    pub fn confidence(&self) -> (r: u64)
        ensures
            r == self.confidence,
    {
        self.confidence
    }

    pub fn reasoning(&self) -> (r: String)
        ensures
            r@ == self.reasoning@,
    {
        self.reasoning.clone()
    }

    pub fn proof_hash(&self) -> (r: String)
        ensures
            r@ == self.proof_hash@,
    {
        self.proof_hash.clone()
    }

    pub fn can_execute(&self) -> (r: bool)
        ensures
            r == self.can_execute,
    {
        self.can_execute
    }
}

pub struct SiliconMathGuardian {
    tick_buffer: Vec<MarketTick>,
    price_history: Vec<u64>,
    ofi_history: Vec<i64>,
    kill_switch_active: bool,
    audit_log: Vec<String>,
    last_volatility: u64,
    buffer_size: usize,
}

/// `s` with its oldest element dropped when it holds more than `cap`.
pub open spec fn capped<A>(s: Seq<A>, cap: int) -> Seq<A> {
    if s.len() > cap {
        s.drop_first()
    } else {
        s
    }
}

pub open spec fn tick_in_range(t: MarketTick) -> bool {
    t.price <= MAX_PRICE && t.bid_volume <= MAX_VOLUME && t.ask_volume <= MAX_VOLUME
}

pub open spec fn tick_prices(t: Seq<MarketTick>) -> Seq<u64> {
    t.map_values(|k: MarketTick| k.price)
}

pub open spec fn bid_total(t: Seq<MarketTick>) -> int
    decreases t.len(),
{
    if t.len() == 0 {
        0
    } else {
        bid_total(t.drop_last()) + t.last().bid_volume
    }
}

pub open spec fn ask_total(t: Seq<MarketTick>) -> int
    decreases t.len(),
{
    if t.len() == 0 {
        0
    } else {
        ask_total(t.drop_last()) + t.last().ask_volume
    }
}

pub open spec fn zero_matrix() -> OFIMatrix {
    OFIMatrix {
        imbalance: 0,
        cumulative_delta: 0,
        buy_pressure: 0,
        sell_pressure: 0,
        trend_strength: 0,
    }
}

/// The order-flow matrix of a tick window and its prices: all zero with
/// fewer than ten ticks.
pub open spec fn ofi_matrix_of(ticks: Seq<MarketTick>, prices: Seq<u64>) -> OFIMatrix {
    if ticks.len() < MIN_OFI_TICKS {
        zero_matrix()
    } else {
        let b = bid_total(ticks);
        let a = ask_total(ticks);
        let t = if b + a > 1 { b + a } else { 1 };
        OFIMatrix {
            imbalance: imbalance_bp(b, a) as i64,
            cumulative_delta: (b - a) as i64,
            buy_pressure: ratio_bp(b, t) as i64,
            sell_pressure: ratio_bp(a, t) as i64,
            trend_strength: momentum_of(prices) as i64,
        }
    }
}

/// The verdict depends on the windows, the kill switch and the call's
/// inputs alone: two engines that agree on those give the same verdict, and
/// so the same signal for the same clock reading.
pub proof fn lemma_verdict_deterministic(
    a: SiliconMathGuardian,
    b: SiliconMathGuardian,
    latency: u64,
    neural: Option<Action>,
    neural_conf: u64,
)
    requires
        a.kill_switch() == b.kill_switch(),
        a.ticks() == b.ticks(),
        a.prices() == b.prices(),
    ensures
        verdict_of(a.kill_switch(), a.ticks(), a.prices(), latency, neural, neural_conf)
            == verdict_of(b.kill_switch(), b.ticks(), b.prices(), latency, neural, neural_conf),
{
}

/// Comma-separated concatenation.
pub open spec fn join(parts: Seq<Seq<char>>) -> Seq<char>
    decreases parts.len(),
{
    if parts.len() == 0 {
        seq![]
    } else if parts.len() == 1 {
        parts[0]
    } else {
        join(parts.drop_last()) + ", "@ + parts.last()
    }
}

pub open spec fn remark_reasons(r: Remark) -> Seq<Seq<char>> {
    match r {
        Remark::Nothing => seq![],
        Remark::Veto => seq!["[VETO] Math Guardian blocks risky BUY"@],
        Remark::LowConsensus => seq!["Insufficient consensus confidence"@],
    }
}

pub open spec fn latency_reason(latency: u64) -> Seq<char> {
    "Network latency "@ + decimal(latency as nat) + "ms exceeds 200ms threshold"@
}

pub open spec fn latency_note(latency: u64) -> Seq<char> {
    "[HALT] Network latency "@ + decimal(latency as nat) + "ms exceeds threshold 200ms"@
}

pub open spec fn volatility_reason(vol: int) -> Seq<char> {
    "Volatility "@ + hundredths(rounded_hundredths(vol as nat)) + "% exceeds safe threshold"@
}

pub open spec fn volatility_note(vol: int) -> Seq<char> {
    "[HALT] Volatility "@ + hundredths(rounded_hundredths(vol as nat))
        + "% exceeds threshold 3.50%"@
}

pub open spec fn kill_reason() -> Seq<char> {
    "KILL SWITCH ACTIVE - Human intervention required"@
}

/// The volume totals that the score reads: (0, 0) with fewer than ten ticks,
/// as the order-flow matrix is then all zero.
pub open spec fn ofi_parts(ticks: Seq<MarketTick>) -> (int, int) {
    if ticks.len() < MIN_OFI_TICKS {
        (0, 0)
    } else {
        (bid_total(ticks), ask_total(ticks))
    }
}

/// The exact indicators of a state: RSI(14), the imbalance of the tick
/// window, the failure swing, and the momentum of the price window.
pub open spec fn indicators_of(ticks: Seq<MarketTick>, prices: Seq<u64>) -> Indicators {
    Indicators {
        rsi_num: rsi_parts(prices, 14).0,
        rsi_den: rsi_parts(prices, 14).1,
        bid: ofi_parts(ticks).0,
        ask: ofi_parts(ticks).1,
        swing: failure_swing_of(prices),
        recent: momentum_parts(prices).0,
        prior: momentum_parts(prices).1,
    }
}

/// What a signal says, before it is stamped and hashed.
pub struct Verdict {
    pub action: Action,
    pub confidence: u64,
    pub source: SignalSource,
    pub can_execute: bool,
    pub reasoning: Seq<char>,
    /// Audit lines written before the signal's own line.
    pub notes: Seq<Seq<char>>,
}

pub open spec fn halt_verdict(reasoning: Seq<char>, notes: Seq<Seq<char>>) -> Verdict {
    Verdict {
        action: Action::HALT,
        confidence: FULL_CONFIDENCE,
        source: SignalSource::EmergencyHalt,
        can_execute: false,
        reasoning,
        notes,
    }
}

/// Whether the safety gates let the indicator pipeline run.
pub open spec fn gates_pass(kill: bool, prices: Seq<u64>, latency: u64) -> bool {
    !kill && latency <= MAX_LATENCY_MS && volatility_of(prices) <= VOLATILITY_HALT
}

/// The verdict of the engine on a state and the inputs of one call.
pub open spec fn verdict_of(
    kill: bool,
    ticks: Seq<MarketTick>,
    prices: Seq<u64>,
    latency: u64,
    neural: Option<Action>,
    neural_conf: u64,
) -> Verdict {
    if kill {
        halt_verdict(kill_reason(), seq![])
    } else if latency > MAX_LATENCY_MS {
        halt_verdict(latency_reason(latency), seq![latency_note(latency)])
    } else if volatility_of(prices) > VOLATILITY_HALT {
        let v = volatility_of(prices);
        halt_verdict(volatility_reason(v), seq![volatility_note(v)])
    } else {
        let x = indicators_of(ticks, prices);
        let score = score_of(x);
        let a = arbitration_of(
            score_action(score),
            score_confidence(score) as u64,
            neural,
            neural_conf,
        );
        Verdict {
            action: a.action,
            confidence: a.confidence,
            source: a.source,
            can_execute: a.can_execute,
            reasoning: join(
                reasons_of(x) + remark_reasons(a.remark),
            ),
            notes: seq![],
        }
    }
}

pub open spec fn order_note(ticks: Seq<MarketTick>, now_ms: u64) -> Seq<Seq<char>> {
    if ticks.len() > 0 && now_ms < ticks.last().timestamp {
        seq![
            "[ORDER] Tick at "@ + decimal(now_ms as nat) + " precedes last tick at "@ + decimal(
                ticks.last().timestamp as nat,
            ),
        ]
    } else {
        seq![]
    }
}

impl SiliconMathGuardian {
    pub closed spec fn ticks(&self) -> Seq<MarketTick> {
        self.tick_buffer@
    }

    pub closed spec fn prices(&self) -> Seq<u64> {
        self.price_history@
    }

    pub closed spec fn ofi_history(&self) -> Seq<i64> {
        self.ofi_history@
    }

    pub closed spec fn kill_switch(&self) -> bool {
        self.kill_switch_active
    }

    pub closed spec fn audit(&self) -> Seq<Seq<char>> {
        views(self.audit_log@)
    }

    pub closed spec fn last_volatility(&self) -> u64 {
        self.last_volatility
    }

    pub closed spec fn wf(&self) -> bool {
        &&& self.buffer_size == TICK_CAPACITY
        &&& self.tick_buffer@.len() <= TICK_CAPACITY
        &&& self.ofi_history@.len() <= OFI_CAPACITY
        &&& forall|i: int| 0 <= i < self.tick_buffer@.len() ==> tick_in_range(#[trigger] self.tick_buffer@[i])
        &&& self.price_history@ == tick_prices(self.tick_buffer@)
        &&& forall|i: int| 0 <= i < self.ofi_history@.len() ==> -10000 <= #[trigger] self.ofi_history@[i] <= 10000
    }

    /// What a well-formed engine holds: the price window is the tick
    /// window's prices, both hold at most 100 entries, every tick is within
    /// the library's price and volume bounds, and the imbalance history holds
    /// at most 50 values in [-1, 1].
    pub proof fn lemma_windows(&self)
        requires
            self.wf(),
        ensures
            self.prices() == tick_prices(self.ticks()),
            self.ticks().len() <= TICK_CAPACITY,
            forall|i: int| 0 <= i < self.ticks().len() ==> tick_in_range(#[trigger] self.ticks()[i]),
            self.ofi_history().len() <= OFI_CAPACITY,
            forall|i: int|
                0 <= i < self.ofi_history().len() ==> -10000 <= #[trigger] self.ofi_history()[i]
                    <= 10000,
    {
    }

    proof fn lemma_prices_bounded(&self)
        requires
            self.wf(),
        ensures
            bounded(self.prices(), MAX_PRICE),
            self.prices().len() <= TICK_CAPACITY,
    {
        assert forall|i: int| 0 <= i < self.prices().len() implies self.prices()[i] <= MAX_PRICE by {
            assert(tick_in_range(self.tick_buffer@[i]));
        }
    }

    pub fn new() -> (r: Self)
        ensures
            r.wf(),
            r.ticks() == Seq::<MarketTick>::empty(),
            r.prices() == Seq::<u64>::empty(),
            r.ofi_history() == Seq::<i64>::empty(),
            !r.kill_switch(),
            r.audit() == Seq::<Seq<char>>::empty(),
            r.last_volatility() == 0,
    {
        let r = SiliconMathGuardian {
            tick_buffer: Vec::new(),
            price_history: Vec::new(),
            ofi_history: Vec::new(),
            kill_switch_active: false,
            audit_log: Vec::new(),
            last_volatility: 0,
            buffer_size: TICK_CAPACITY,
        };
        proof {
            assert(r.audit() =~= Seq::<Seq<char>>::empty());
            assert(r.price_history@ =~= tick_prices(r.tick_buffer@));
        }
        r
    }

    fn log(&mut self, line: String)
        ensures
            final(self).audit() == old(self).audit().push(line@),
            final(self).tick_buffer == old(self).tick_buffer,
            final(self).price_history == old(self).price_history,
            final(self).ofi_history == old(self).ofi_history,
            final(self).kill_switch_active == old(self).kill_switch_active,
            final(self).last_volatility == old(self).last_volatility,
            final(self).buffer_size == old(self).buffer_size,
    {
        self.audit_log.push(line);
        proof {
            assert(views(self.audit_log@) =~= views(old(self).audit_log@).push(line@));
        }
    }

    /// Halts all trading until an operator deactivates the switch.
    pub fn activate_kill_switch(&mut self, reason: &str, now_ms: u64)
        requires
            old(self).wf(),
        ensures
            final(self).wf(),
            old(self).audit().is_prefix_of(final(self).audit()),
            final(self).kill_switch(),
            final(self).audit() == old(self).audit().push(
                "[KILL_SWITCH] Activated at "@ + decimal(now_ms as nat) + " - Reason: "@ + reason@,
            ),
            final(self).ticks() == old(self).ticks(),
            final(self).prices() == old(self).prices(),
            final(self).ofi_history() == old(self).ofi_history(),
            final(self).last_volatility() == old(self).last_volatility(),
    {
        self.kill_switch_active = true;
        let mut line = String::from_str("[KILL_SWITCH] Activated at ");
        let ts = render_u64(now_ms);
        line.append(ts.as_str());
        line.append(" - Reason: ");
        line.append(reason);
        self.log(line);
    }

    /// Lifts the kill switch, recording the operator's signature.
    pub fn deactivate_kill_switch(&mut self, operator_signature: &str, now_ms: u64)
        requires
            old(self).wf(),
        ensures
            final(self).wf(),
            old(self).audit().is_prefix_of(final(self).audit()),
            !final(self).kill_switch(),
            final(self).audit() == old(self).audit().push(
                "[KILL_SWITCH] Deactivated at "@ + decimal(now_ms as nat) + " - Operator: "@
                    + operator_signature@,
            ),
            final(self).ticks() == old(self).ticks(),
            final(self).prices() == old(self).prices(),
            final(self).ofi_history() == old(self).ofi_history(),
            final(self).last_volatility() == old(self).last_volatility(),
    {
        let mut line = String::from_str("[KILL_SWITCH] Deactivated at ");
        let ts = render_u64(now_ms);
        line.append(ts.as_str());
        line.append(" - Operator: ");
        line.append(operator_signature);
        self.log(line);
        self.kill_switch_active = false;
    }

    /// Number of ticks in the window.
    pub fn tick_count(&self) -> (r: usize)
        ensures
            r == self.ticks().len(),
    {
        self.tick_buffer.len()
    }

    pub fn is_halted(&self) -> (r: bool)
        ensures
            r == self.kill_switch(),
    {
        self.kill_switch_active
    }

    /// Appends a tick stamped `now_ms`; the oldest tick and price leave once
    /// the windows hold more than their capacity. A tick older than the last
    /// one is kept and noted in the audit log.
    pub fn ingest_tick(&mut self, price: u64, bid_vol: u64, ask_vol: u64, now_ms: u64)
        requires
            old(self).wf(),
            price <= MAX_PRICE,
            bid_vol <= MAX_VOLUME,
            ask_vol <= MAX_VOLUME,
        ensures
            final(self).wf(),
            old(self).audit().is_prefix_of(final(self).audit()),
            final(self).ticks() == capped(
                old(self).ticks().push(
                    MarketTick {
                        price,
                        bid_volume: bid_vol,
                        ask_volume: ask_vol,
                        timestamp: now_ms,
                    },
                ),
                TICK_CAPACITY as int,
            ),
            final(self).prices() == capped(old(self).prices().push(price), TICK_CAPACITY as int),
            final(self).prices() == tick_prices(final(self).ticks()),
            final(self).ticks().len() <= TICK_CAPACITY,
            final(self).audit() == old(self).audit() + order_note(old(self).ticks(), now_ms),
            final(self).kill_switch() == old(self).kill_switch(),
            final(self).ofi_history() == old(self).ofi_history(),
            final(self).last_volatility() == old(self).last_volatility(),
    {
        let n = self.tick_buffer.len();
        if n > 0 && now_ms < self.tick_buffer[n - 1].timestamp {
            let mut line = String::from_str("[ORDER] Tick at ");
            let a = render_u64(now_ms);
            line.append(a.as_str());
            line.append(" precedes last tick at ");
            let b = render_u64(self.tick_buffer[n - 1].timestamp);
            line.append(b.as_str());
            self.log(line);
        }
        assert(self.audit() =~= old(self).audit() + order_note(old(self).ticks(), now_ms));
        let tick = MarketTick { price, bid_volume: bid_vol, ask_volume: ask_vol, timestamp: now_ms };
        self.tick_buffer.push(tick);
        self.price_history.push(price);
        if self.tick_buffer.len() > self.buffer_size {
            self.tick_buffer.remove(0);
        }
        if self.price_history.len() > self.buffer_size {
            self.price_history.remove(0);
        }
        proof {
            let t = self.tick_buffer@;
            let o = old(self).tick_buffer@.push(tick);
            assert(tick_prices(o) =~= old(self).price_history@.push(price));
            assert forall|i: int| 0 <= i < t.len() implies tick_in_range(#[trigger] t[i]) by {
                if n + 1 > TICK_CAPACITY {
                    assert(t[i] == o[i + 1]);
                } else {
                    assert(t[i] == o[i]);
                }
            }
            assert(self.price_history@ =~= tick_prices(t));
        }
    }

    /// Total bid and ask volume of the tick window.
    fn volume_totals(&self) -> (r: (u64, u64))
        requires
            self.wf(),
        ensures
            r.0 == bid_total(self.ticks()),
            r.1 == ask_total(self.ticks()),
            r.0 <= 100 * MAX_VOLUME,
            r.1 <= 100 * MAX_VOLUME,
    {
        let n = self.tick_buffer.len();
        let mut b: u64 = 0;
        let mut a: u64 = 0;
        let mut i: usize = 0;
        while i < n
            invariant
                self.wf(),
                n == self.tick_buffer@.len(),
                i <= n,
                b == bid_total(self.tick_buffer@.take(i as int)),
                a == ask_total(self.tick_buffer@.take(i as int)),
                b <= i * MAX_VOLUME,
                a <= i * MAX_VOLUME,
            decreases n - i,
        {
            assert(self.tick_buffer@.take(i + 1).drop_last() =~= self.tick_buffer@.take(i as int));
            assert(tick_in_range(self.tick_buffer@[i as int]));
            b = b + self.tick_buffer[i].bid_volume;
            a = a + self.tick_buffer[i].ask_volume;
            i = i + 1;
        }
        assert(self.tick_buffer@.take(n as int) =~= self.tick_buffer@);
        (b, a)
    }

    /// The order-flow matrix of the tick window; from ten ticks on, its
    /// imbalance is also appended to the bounded imbalance history.
    pub fn calculate_ofi(&mut self) -> (r: OFIMatrix)
        requires
            old(self).wf(),
        ensures
            final(self).wf(),
            old(self).audit().is_prefix_of(final(self).audit()),
            r == ofi_matrix_of(old(self).ticks(), old(self).prices()),
            -10000 <= r.imbalance <= 10000,
            bid_total(old(self).ticks()) + ask_total(old(self).ticks()) == 0 ==> r.imbalance == 0,
            final(self).ofi_history() == if old(self).ticks().len() < MIN_OFI_TICKS {
                old(self).ofi_history()
            } else {
                capped(old(self).ofi_history().push(r.imbalance), OFI_CAPACITY as int)
            },
            final(self).ticks() == old(self).ticks(),
            final(self).prices() == old(self).prices(),
            final(self).audit() == old(self).audit(),
            final(self).kill_switch() == old(self).kill_switch(),
            final(self).last_volatility() == old(self).last_volatility(),
    {
        let n = self.tick_buffer.len();
        if n < MIN_OFI_TICKS {
            return OFIMatrix {
                imbalance: 0,
                cumulative_delta: 0,
                buy_pressure: 0,
                sell_pressure: 0,
                trend_strength: 0,
            };
        }
        let (b, a) = self.volume_totals();
        proof {
            lemma_imbalance_range(b as int, a as int);
            self.lemma_prices_bounded();
        }
        let total: u64 = b + a;
        let t: u64 = if total > 1 { total } else { 1 };
        let imbalance = ratio_basis_points(b as i128 - a as i128, total as u128);
        let buy = ratio_basis_points(b as i128, t as u128);
        let sell = ratio_basis_points(a as i128, t as u128);
        let trend = momentum(&self.price_history);
        self.ofi_history.push(imbalance);
        if self.ofi_history.len() > OFI_CAPACITY {
            self.ofi_history.remove(0);
        }
        proof {
            let h = self.ofi_history@;
            assert forall|i: int| 0 <= i < h.len() implies -10000 <= #[trigger] h[i] <= 10000 by {
                if old(self).ofi_history@.len() + 1 > OFI_CAPACITY {
                    assert(h[i] == old(self).ofi_history@.push(imbalance)[i + 1]);
                } else {
                    assert(h[i] == old(self).ofi_history@.push(imbalance)[i]);
                }
            }
        }
        OFIMatrix {
            imbalance,
            cumulative_delta: (b as i64) - (a as i64),
            buy_pressure: buy,
            sell_pressure: sell,
            trend_strength: trend,
        }
    }

    /// RSI over the last `period` price changes, in hundredths.
    pub fn calculate_rsi(&self, period: usize) -> (r: u64)
        requires
            self.wf(),
        ensures
            r == rsi_of(self.prices(), period as int),
            r <= 10000,
    {
        proof {
            self.lemma_prices_bounded();
        }
        rsi(&self.price_history, period)
    }

    /// The RSI failure swing of the price window: 1, -1 or 0.
    pub fn detect_rsi_failure_swing(&self) -> (r: i64)
        requires
            self.wf(),
        ensures
            r == failure_swing_of(self.prices()),
    {
        proof {
            self.lemma_prices_bounded();
        }
        failure_swing(&self.price_history)
    }

    /// Volatility of the price window, in ten-thousandths of a percent; from
    /// twenty prices on it is also kept as the last volatility.
    pub fn calculate_volatility(&mut self) -> (r: u64)
        requires
            old(self).wf(),
        ensures
            final(self).wf(),
            old(self).audit().is_prefix_of(final(self).audit()),
            r == volatility_of(old(self).prices()),
            final(self).last_volatility() == if old(self).prices().len() < 20 {
                old(self).last_volatility()
            } else {
                r
            },
            final(self).ticks() == old(self).ticks(),
            final(self).prices() == old(self).prices(),
            final(self).ofi_history() == old(self).ofi_history(),
            final(self).audit() == old(self).audit(),
            final(self).kill_switch() == old(self).kill_switch(),
    {
        proof {
            self.lemma_prices_bounded();
        }
        let v = volatility(&self.price_history);
        if self.price_history.len() >= 20 {
            self.last_volatility = v;
        }
        v
    }

    /// The audit log as a JSON array of strings.
    pub fn get_audit_log(&self) -> (r: String)
        ensures
            r@ == json_string_array(self.audit()),
    {
        json_lines(&self.audit_log)
    }

    /// Stamps, hashes and logs a signal.
    fn create_signal(
        &mut self,
        action: Action,
        confidence: u64,
        reasoning: String,
        source: SignalSource,
        can_execute: bool,
        now_ms: u64,
    ) -> (r: TradingSignal)
        requires
            old(self).wf(),
        ensures
            final(self).wf(),
            r.action == action,
            r.confidence == confidence,
            r.reasoning@ == reasoning@,
            r.source == source,
            r.timestamp == now_ms,
            r.can_execute == can_execute,
            r.proof_hash@.len() == 66,
            r.proof_hash@ == proof_hash_of(
                payload_of(now_ms, action, confidence, reasoning@, source),
            ),
            final(self).audit() == old(self).audit().push(
                audit_line_of(now_ms, action, confidence, source, r.proof_hash@, can_execute),
            ),
            final(self).ticks() == old(self).ticks(),
            final(self).prices() == old(self).prices(),
            final(self).ofi_history() == old(self).ofi_history(),
            final(self).kill_switch() == old(self).kill_switch(),
            final(self).last_volatility() == old(self).last_volatility(),
    {
        let payload = proof_payload(now_ms, action, confidence, reasoning.as_str(), source);
        let hash = proof_hash(payload.as_str());
        let line = audit_line(now_ms, action, confidence, source, hash.as_str(), can_execute);
        self.log(line);
        TradingSignal {
            action,
            confidence,
            reasoning,
            source,
            proof_hash: hash,
            timestamp: now_ms,
            can_execute,
        }
    }

    /// The engine's verdict on the current windows, the network latency and
    /// an optional neural verdict with its confidence (basis points): the
    /// safety gates first (kill switch, latency above 200 ms, volatility above
    /// 3.5%), then the indicators, the score and the arbitration. The signal
    /// is stamped `now_ms`, hashed, and logged after any gate's note.
    pub fn generate_signal(
        &mut self,
        network_latency_ms: u64,
        neural_action: Option<Action>,
        neural_confidence: u64,
        now_ms: u64,
    ) -> (r: TradingSignal)
        requires
            old(self).wf(),
            neural_confidence <= FULL_CONFIDENCE,
        ensures
            final(self).wf(),
            old(self).audit().is_prefix_of(final(self).audit()),
            ({
                let v = verdict_of(
                    old(self).kill_switch(),
                    old(self).ticks(),
                    old(self).prices(),
                    network_latency_ms,
                    neural_action,
                    neural_confidence,
                );
                &&& r.action == v.action
                &&& r.confidence == v.confidence
                &&& r.source == v.source
                &&& r.can_execute == v.can_execute
                &&& r.reasoning@ == v.reasoning
                &&& r.timestamp == now_ms
                &&& r.proof_hash@ == proof_hash_of(
                    payload_of(now_ms, v.action, v.confidence, v.reasoning, v.source),
                )
                &&& final(self).audit() == old(self).audit() + v.notes + seq![
                    audit_line_of(now_ms, v.action, v.confidence, v.source, r.proof_hash@, v.can_execute),
                ]
            }),
            (old(self).kill_switch() || network_latency_ms > MAX_LATENCY_MS || volatility_of(
                old(self).prices(),
            ) > VOLATILITY_HALT) ==> r.action == Action::HALT && !r.can_execute,
            (r.action == Action::HOLD || r.action == Action::HALT) ==> !r.can_execute,
            r.confidence <= FULL_CONFIDENCE,
            r.proof_hash@.len() == 66,
            final(self).last_volatility() == if old(self).kill_switch() || network_latency_ms
                > MAX_LATENCY_MS || old(self).prices().len() < 20 {
                old(self).last_volatility()
            } else {
                volatility_of(old(self).prices()) as u64
            },
            final(self).ticks() == old(self).ticks(),
            final(self).prices() == old(self).prices(),
            final(self).kill_switch() == old(self).kill_switch(),
            final(self).ofi_history() == if gates_pass(
                old(self).kill_switch(),
                old(self).prices(),
                network_latency_ms,
            ) && old(self).ticks().len() >= MIN_OFI_TICKS {
                capped(
                    old(self).ofi_history().push(
                        ofi_matrix_of(old(self).ticks(), old(self).prices()).imbalance,
                    ),
                    OFI_CAPACITY as int,
                )
            } else {
                old(self).ofi_history()
            },
    {
        if self.kill_switch_active {
            let reason = String::from_str("KILL SWITCH ACTIVE - Human intervention required");
            let r = self.create_signal(
                Action::HALT,
                FULL_CONFIDENCE,
                reason,
                SignalSource::EmergencyHalt,
                false,
                now_ms,
            );
            assert(self.audit() =~= old(self).audit() + seq![] + seq![
                audit_line_of(now_ms, Action::HALT, FULL_CONFIDENCE, SignalSource::EmergencyHalt, r.proof_hash@, false),
            ]);
            return r;
        }
        if network_latency_ms > MAX_LATENCY_MS {
            let lat = render_u64(network_latency_ms);
            let mut note = String::from_str("[HALT] Network latency ");
            note.append(lat.as_str());
            note.append("ms exceeds threshold 200ms");
            let ghost note_view = note@;
            self.log(note);
            let mut reason = String::from_str("Network latency ");
            reason.append(lat.as_str());
            reason.append("ms exceeds 200ms threshold");
            let ghost mid = self.audit();
            let r = self.create_signal(
                Action::HALT,
                FULL_CONFIDENCE,
                reason,
                SignalSource::EmergencyHalt,
                false,
                now_ms,
            );
            assert(self.audit() =~= old(self).audit() + seq![note_view] + seq![
                audit_line_of(now_ms, Action::HALT, FULL_CONFIDENCE, SignalSource::EmergencyHalt, r.proof_hash@, false),
            ]);
            return r;
        }
        let vol = self.calculate_volatility();
        if vol > VOLATILITY_HALT {
            let pct = render_hundredths(round_to_hundredths(vol));
            let mut note = String::from_str("[HALT] Volatility ");
            note.append(pct.as_str());
            note.append("% exceeds threshold 3.50%");
            let ghost note_view = note@;
            self.log(note);
            let mut reason = String::from_str("Volatility ");
            reason.append(pct.as_str());
            reason.append("% exceeds safe threshold");
            let r = self.create_signal(
                Action::HALT,
                FULL_CONFIDENCE,
                reason,
                SignalSource::EmergencyHalt,
                false,
                now_ms,
            );
            assert(self.audit() =~= old(self).audit() + seq![note_view] + seq![
                audit_line_of(now_ms, Action::HALT, FULL_CONFIDENCE, SignalSource::EmergencyHalt, r.proof_hash@, false),
            ]);
            return r;
        }
        proof {
            self.lemma_prices_bounded();
        }
        let (rsi_num, rsi_den) = rsi_ratio(&self.price_history, 14);
        let totals = self.volume_totals();
        let (bid, ask) = if self.tick_buffer.len() < MIN_OFI_TICKS { (0, 0) } else { totals };
        let (recent, prior) = momentum_sums(&self.price_history);
        let _matrix = self.calculate_ofi();
        let swing = self.detect_rsi_failure_swing();
        let scored = score_indicators(rsi_num, rsi_den, bid, ask, swing, recent, prior);
        let score = scored.0;
        let mut reasons = scored.1;
        let action = math_action(score);
        let confidence = math_confidence(score);
        let verdict = arbitrate(action, confidence, neural_action, neural_confidence);
        let ghost before_remark = views(reasons@);
        match verdict.remark {
            Remark::Nothing => {},
            Remark::Veto => {
                reasons.push(String::from_str("[VETO] Math Guardian blocks risky BUY"));
            },
            Remark::LowConsensus => {
                reasons.push(String::from_str("Insufficient consensus confidence"));
            },
        }
        assert(views(reasons@) =~= before_remark + remark_reasons(verdict.remark));
        let reasoning = join_reasons(&reasons);
        let r = self.create_signal(
            verdict.action,
            verdict.confidence,
            reasoning,
            verdict.source,
            verdict.can_execute,
            now_ms,
        );
        assert(self.audit() =~= old(self).audit() + seq![] + seq![
            audit_line_of(now_ms, verdict.action, verdict.confidence, verdict.source, r.proof_hash@, verdict.can_execute),
        ]);
        r
    }
}

/// The reasons joined with `", "`.
pub fn join_reasons(parts: &Vec<String>) -> (r: String)
    ensures
        r@ == join(views(parts@)),
{
    let mut r = String::new();
    let mut i: usize = 0;
    while i < parts.len()
        invariant
            i <= parts@.len(),
            r@ == join(views(parts@).take(i as int)),
        decreases parts@.len() - i,
    {
        let ghost before = views(parts@).take(i as int);
        assert(views(parts@).take(i + 1).drop_last() =~= before);
        if i > 0 {
            r.append(", ");
        }
        r.append(parts[i].as_str());
        proof {
            if i == 0 {
                assert(r@ =~= views(parts@).take(1)[0]);
            }
        }
        i = i + 1;
    }
    assert(views(parts@).take(parts@.len() as int) =~= views(parts@));
    r
}

} // verus!
