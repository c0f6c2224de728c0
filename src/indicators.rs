//! Indicator kernels over price and volume sequences.
//!
//! Prices and volumes are non-negative integers in the instrument's own
//! units. Ratios (imbalance, momentum, pressures) are in basis points, that
//! is in ten-thousandths, truncated toward zero. RSI is in hundredths.
use vstd::prelude::*;

verus! {

/// Largest volume of one tick or book level.
pub const MAX_VOLUME: u64 = 1_000_000_000_000_000;
/// Largest price.
pub const MAX_PRICE: u64 = 1_000_000_000;
/// Capacity of the tick and price windows.
pub const WINDOW_CAP: usize = 100;
/// Scale of ratios: 10000 stands for 1.
pub const RATIO_ONE: i64 = 10000;
/// RSI of a window with too little history, in hundredths.
pub const RSI_NEUTRAL: u64 = 5000;
/// RSI of a window without losses, in hundredths.
pub const RSI_MAX: u64 = 10000;

pub open spec fn sum(s: Seq<u64>) -> int
    decreases s.len(),
{
    if s.len() == 0 {
        0
    } else {
        sum(s.drop_last()) + s.last()
    }
}

pub open spec fn bounded(s: Seq<u64>, m: u64) -> bool {
    forall|i: int| 0 <= i < s.len() ==> s[i] <= m
}

/// `num / den` in basis points, truncated toward zero; 0 when `den` is 0.
pub open spec fn ratio_bp(num: int, den: int) -> int {
    if den <= 0 {
        0
    } else if num >= 0 {
        num * 10000 / den
    } else {
        -((-num) * 10000 / den)
    }
}

/// Normalized imbalance of two volume totals, in basis points.
pub open spec fn imbalance_bp(bid: int, ask: int) -> int {
    ratio_bp(bid - ask, bid + ask)
}

/// The imbalance of two non-negative totals lies in [-1, 1], and is exactly
/// 0 when both are 0.
pub proof fn lemma_imbalance_range(bid: int, ask: int)
    requires
        bid >= 0,
        ask >= 0,
    ensures
        -10000 <= imbalance_bp(bid, ask) <= 10000,
        bid + ask == 0 ==> imbalance_bp(bid, ask) == 0,
{
    let t = bid + ask;
    if t > 0 {
        if bid >= ask {
            assert((bid - ask) * 10000 <= t * 10000) by (nonlinear_arith)
                requires bid - ask <= t;
            assert((bid - ask) * 10000 / t <= 10000) by (nonlinear_arith)
                requires (bid - ask) * 10000 <= t * 10000, t > 0;
            assert((bid - ask) * 10000 / t >= 0) by (nonlinear_arith)
                requires bid - ask >= 0, t > 0;
        } else {
            assert((ask - bid) * 10000 <= t * 10000) by (nonlinear_arith)
                requires ask - bid <= t;
            assert((ask - bid) * 10000 / t <= 10000) by (nonlinear_arith)
                requires (ask - bid) * 10000 <= t * 10000, t > 0;
            assert((ask - bid) * 10000 / t >= 0) by (nonlinear_arith)
                requires ask - bid >= 0, t > 0;
        }
    }
}

pub proof fn lemma_scaled_quotient(n: int, d: int)
    requires
        0 <= n <= d,
        d > 0,
    ensures
        0 <= n * 10000 / d <= 10000,
{
    assert(n * 10000 <= d * 10000) by (nonlinear_arith)
        requires n <= d;
    assert(n * 10000 / d <= 10000) by (nonlinear_arith)
        requires n * 10000 <= d * 10000, d > 0;
    assert(n * 10000 / d >= 0) by (nonlinear_arith)
        requires n >= 0, d > 0;
}

proof fn lemma_quotient_le(n: int, d: int)
    requires
        n >= 0,
        d >= 1,
    ensures
        0 <= n / d <= n,
{
    assert(0 <= n / d <= n) by (nonlinear_arith)
        requires n >= 0, d >= 1;
}

proof fn lemma_sum_bound(s: Seq<u64>, m: u64)
    requires
        bounded(s, m),
    ensures
        0 <= sum(s) <= s.len() * m,
    decreases s.len(),
{
    if s.len() > 0 {
        lemma_sum_bound(s.drop_last(), m);
        assert(s.len() * m == (s.len() - 1) * m + m) by (nonlinear_arith);
    }
}

/// Sum of the first `n` volumes.
pub fn sum_prefix(v: &Vec<u64>, n: usize) -> (r: u64)
    requires
        n <= v@.len(),
        n <= WINDOW_CAP,
        bounded(v@, MAX_VOLUME),
    ensures
        r == sum(v@.take(n as int)),
        r <= n * MAX_VOLUME,
{
    let mut total: u64 = 0;
    let mut i: usize = 0;
    while i < n
        invariant
            i <= n <= v@.len(),
            n <= WINDOW_CAP,
            bounded(v@, MAX_VOLUME),
            total == sum(v@.take(i as int)),
            total <= i * MAX_VOLUME,
        decreases n - i,
    {
        assert(v@.take(i + 1).drop_last() =~= v@.take(i as int));
        total = total + v[i];
        i = i + 1;
    }
    total
}

/// `num / den` in basis points, truncated toward zero; 0 when `den` is 0.
pub fn ratio_basis_points(num: i128, den: u128) -> (r: i64)
    requires
        -1_000_000_000_000_000_000 <= num <= 1_000_000_000_000_000_000,
        den <= 1_000_000_000_000_000_000,
        den > 0 ==> -(den as int) <= num <= den,
    ensures
        r == ratio_bp(num as int, den as int),
        den > 0 ==> -10000 <= r <= 10000,
{
    if den == 0 {
        return 0;
    }
    let d = den as i128;
    if num >= 0 {
        proof {
            lemma_scaled_quotient(num as int, d as int);
        }
        ((num * 10000) / d) as i64
    } else {
        let m = -num;
        proof {
            lemma_scaled_quotient(m as int, d as int);
        }
        -(((m * 10000) / d) as i64)
    }
}

/// Order-flow imbalance of the first five levels of two book sides, given as
/// the volumes of their levels: `(B - A) / (B + A)` in basis points, 0 when
/// both sums are 0.
pub open spec fn level_imbalance(bids: Seq<u64>, asks: Seq<u64>) -> int {
    imbalance_bp(sum(bids.take(top_levels(bids))), sum(asks.take(top_levels(asks))))
}

pub open spec fn top_levels(s: Seq<u64>) -> int {
    if s.len() < 5 {
        s.len() as int
    } else {
        5
    }
}

pub fn book_imbalance(bids: &Vec<u64>, asks: &Vec<u64>) -> (r: i64)
    requires
        bounded(bids@, MAX_VOLUME),
        bounded(asks@, MAX_VOLUME),
    ensures
        r == level_imbalance(bids@, asks@),
        -10000 <= r <= 10000,
{
    let nb: usize = if bids.len() < 5 { bids.len() } else { 5 };
    let na: usize = if asks.len() < 5 { asks.len() } else { 5 };
    let b = sum_prefix(bids, nb);
    let a = sum_prefix(asks, na);
    proof {
        lemma_imbalance_range(b as int, a as int);
    }
    ratio_basis_points(b as i128 - a as i128, b as u128 + a as u128)
}


/// Sum of `v[lo..hi]`.
pub fn sum_window(v: &Vec<u64>, lo: usize, hi: usize) -> (r: u64)
    requires
        lo <= hi <= v@.len(),
        hi - lo <= WINDOW_CAP,
        bounded(v@, MAX_VOLUME),
    ensures
        r == sum(v@.subrange(lo as int, hi as int)),
        r <= (hi - lo) * MAX_VOLUME,
{
    let mut total: u64 = 0;
    let mut i: usize = lo;
    while i < hi
        invariant
            lo <= i <= hi <= v@.len(),
            hi - lo <= WINDOW_CAP,
            bounded(v@, MAX_VOLUME),
            total == sum(v@.subrange(lo as int, i as int)),
            total <= (i - lo) * MAX_VOLUME,
        decreases hi - i,
    {
        assert(v@.subrange(lo as int, i + 1).drop_last() =~= v@.subrange(lo as int, i as int));
        total = total + v[i];
        i = i + 1;
    }
    total
}

/// Momentum of a price window: the relative change of the mean of the last
/// five prices over the mean of the five before them, in basis points; 0
/// with fewer than ten prices or a zero prior mean.
pub open spec fn momentum_of(s: Seq<u64>) -> int {
    ratio_bp(momentum_parts(s).0 - momentum_parts(s).1, momentum_parts(s).1)
}

/// The sums of the last five prices and of the five before them; (0, 0)
/// with fewer than ten prices.
pub open spec fn momentum_parts(s: Seq<u64>) -> (int, int) {
    if s.len() < 10 {
        (0, 0)
    } else {
        (sum(s.subrange(s.len() - 5, s.len() as int)), sum(s.subrange(s.len() - 10, s.len() - 5)))
    }
}

/// The two sums of `momentum_parts`.
pub fn momentum_sums(prices: &Vec<u64>) -> (r: (u64, u64))
    requires
        prices@.len() <= WINDOW_CAP,
        bounded(prices@, MAX_PRICE),
    ensures
        r.0 == momentum_parts(prices@).0,
        r.1 == momentum_parts(prices@).1,
        r.0 <= 5 * MAX_PRICE,
        r.1 <= 5 * MAX_PRICE,
{
    let n = prices.len();
    if n < 10 {
        return (0, 0);
    }
    let recent = sum_window(prices, n - 5, n);
    let prior = sum_window(prices, n - 10, n - 5);
    proof {
        lemma_sum_bound(prices@.subrange(n - 5, n as int), MAX_PRICE);
        lemma_sum_bound(prices@.subrange(n - 10, n - 5), MAX_PRICE);
    }
    (recent, prior)
}

pub fn momentum(prices: &Vec<u64>) -> (r: i64)
    requires
        prices@.len() <= WINDOW_CAP,
        bounded(prices@, MAX_PRICE),
    ensures
        r == momentum_of(prices@),
{
    let n = prices.len();
    if n < 10 {
        return 0;
    }
    let recent = sum_window(prices, n - 5, n);
    let prior = sum_window(prices, n - 10, n - 5);
    proof {
        lemma_sum_bound(prices@.subrange(n - 5, n as int), MAX_PRICE);
        lemma_sum_bound(prices@.subrange(n - 10, n - 5), MAX_PRICE);
    }
    let num = recent as i128 - prior as i128;
    if prior == 0 {
        return 0;
    }
    if num >= 0 {
        let q = (num * 10000) / (prior as i128);
        proof {
            lemma_quotient_le((num * 10000) as int, prior as int);
        }
        q as i64
    } else {
        let m = -num;
        let q = (m * 10000) / (prior as i128);
        proof {
            lemma_quotient_le((m * 10000) as int, prior as int);
        }
        -(q as i64)
    }
}

/// The rise at index `k` of a price sequence, or 0.
pub open spec fn rise(s: Seq<u64>, k: int) -> int {
    if s[k] > s[k - 1] {
        s[k] - s[k - 1]
    } else {
        0
    }
}

/// The fall at index `k` of a price sequence, or 0.
pub open spec fn fall(s: Seq<u64>, k: int) -> int {
    if s[k] < s[k - 1] {
        s[k - 1] - s[k]
    } else {
        0
    }
}

pub open spec fn gains(s: Seq<u64>, lo: int, hi: int) -> int
    decreases hi - lo,
{
    if hi <= lo {
        0
    } else {
        gains(s, lo, hi - 1) + rise(s, hi - 1)
    }
}

pub open spec fn losses(s: Seq<u64>, lo: int, hi: int) -> int
    decreases hi - lo,
{
    if hi <= lo {
        0
    } else {
        losses(s, lo, hi - 1) + fall(s, hi - 1)
    }
}

/// RSI over the last `period` price changes as an exact fraction of 100,
/// `(num, den)`: 1/2 without `period + 1` prices, 1/1 without losses, else
/// `G / (G + L)`, that is `(100 - 100 / (1 + G / L)) / 100`.
pub open spec fn rsi_parts(s: Seq<u64>, period: int) -> (int, int) {
    if s.len() < period + 1 {
        (1, 2)
    } else {
        let g = gains(s, s.len() - period, s.len() as int);
        let l = losses(s, s.len() - period, s.len() as int);
        if l == 0 {
            (1, 1)
        } else {
            (g, g + l)
        }
    }
}

/// RSI in hundredths, rounded down.
pub open spec fn rsi_of(s: Seq<u64>, period: int) -> int {
    rsi_parts(s, period).0 * 10000 / rsi_parts(s, period).1
}

/// `num / den > p / q`, for a positive `den` and `q`.
pub open spec fn ratio_above(num: int, den: int, p: int, q: int) -> bool {
    den > 0 && num * q > p * den
}

/// `num / den < p / q`, for a positive `den` and `q`.
pub open spec fn ratio_below(num: int, den: int, p: int, q: int) -> bool {
    den > 0 && num * q < p * den
}

/// The exact RSI fraction (see `rsi_parts`).
pub fn rsi_ratio(prices: &Vec<u64>, period: usize) -> (r: (u64, u64))
    requires
        prices@.len() <= WINDOW_CAP,
        bounded(prices@, MAX_PRICE),
    ensures
        r.0 == rsi_parts(prices@, period as int).0,
        r.1 == rsi_parts(prices@, period as int).1,
        0 <= r.0 <= r.1,
        0 < r.1 <= 100 * MAX_PRICE,
{
    let n = prices.len();
    if n < 1 || period > n - 1 {
        return (1, 2);
    }
    let lo = n - period;
    let mut g: u64 = 0;
    let mut l: u64 = 0;
    let mut i: usize = lo;
    while i < n
        invariant
            1 <= lo <= i <= n == prices@.len() <= WINDOW_CAP,
            bounded(prices@, MAX_PRICE),
            g == gains(prices@, lo as int, i as int),
            l == losses(prices@, lo as int, i as int),
            g + l <= (i - lo) * MAX_PRICE,
        decreases n - i,
    {
        let a = prices[i - 1];
        let b = prices[i];
        if b > a {
            g = g + (b - a);
        } else if b < a {
            l = l + (a - b);
        }
        i = i + 1;
    }
    if l == 0 {
        return (1, 1);
    }
    (g, g + l)
}

pub fn rsi(prices: &Vec<u64>, period: usize) -> (r: u64)
    requires
        prices@.len() <= WINDOW_CAP,
        bounded(prices@, MAX_PRICE),
    ensures
        r == rsi_of(prices@, period as int),
        r <= 10000,
{
    let (num, den) = rsi_ratio(prices, period);
    proof {
        lemma_scaled_quotient(num as int, den as int);
    }
    num * 10000 / den
}

pub open spec fn window_min(s: Seq<u64>, lo: int, hi: int) -> int
    decreases hi - lo,
{
    if hi <= lo + 1 {
        s[lo] as int
    } else if s[hi - 1] < window_min(s, lo, hi - 1) {
        s[hi - 1] as int
    } else {
        window_min(s, lo, hi - 1)
    }
}

pub open spec fn window_max(s: Seq<u64>, lo: int, hi: int) -> int
    decreases hi - lo,
{
    if hi <= lo + 1 {
        s[lo] as int
    } else if s[hi - 1] > window_max(s, lo, hi - 1) {
        s[hi - 1] as int
    } else {
        window_max(s, lo, hi - 1)
    }
}

/// Extremes of `v[lo..hi]`, a non-empty window: (minimum, maximum).
fn window_extremes(v: &Vec<u64>, lo: usize, hi: usize) -> (r: (u64, u64))
    requires
        lo < hi <= v@.len(),
    ensures
        r.0 == window_min(v@, lo as int, hi as int),
        r.1 == window_max(v@, lo as int, hi as int),
{
    let mut mn = v[lo];
    let mut mx = v[lo];
    let mut i: usize = lo + 1;
    while i < hi
        invariant
            lo < i <= hi <= v@.len(),
            mn == window_min(v@, lo as int, i as int),
            mx == window_max(v@, lo as int, i as int),
        decreases hi - i,
    {
        if v[i] < mn {
            mn = v[i];
        }
        if v[i] > mx {
            mx = v[i];
        }
        i = i + 1;
    }
    (mn, mx)
}

/// RSI failure swing: 1 when the exact RSI(14) is below 35 and the last five prices
/// stay above the low of the five before them; -1 when RSI(14) is above 65
/// and the last five stay below the prior high; 0 otherwise, and 0 with fewer
/// than twenty prices.
pub open spec fn failure_swing_of(s: Seq<u64>) -> int {
    if s.len() < 20 {
        0
    } else {
        let r = rsi_parts(s, 14);
        let n = s.len() as int;
        if ratio_below(r.0, r.1, 35, 100) && window_min(s, n - 5, n) > window_min(s, n - 10, n - 5) {
            1
        } else if ratio_above(r.0, r.1, 65, 100) && window_max(s, n - 5, n) < window_max(
            s,
            n - 10,
            n - 5,
        ) {
            -1
        } else {
            0
        }
    }
}

pub fn failure_swing(prices: &Vec<u64>) -> (r: i64)
    requires
        prices@.len() <= WINDOW_CAP,
        bounded(prices@, MAX_PRICE),
    ensures
        r == failure_swing_of(prices@),
{
    let n = prices.len();
    if n < 20 {
        return 0;
    }
    let (num, den) = rsi_ratio(prices, 14);
    let below = (num as u128) * 100 < 35 * (den as u128);
    let above = (num as u128) * 100 > 65 * (den as u128);
    let recent = window_extremes(prices, n - 5, n);
    let prior = window_extremes(prices, n - 10, n - 5);
    if below && recent.0 > prior.0 {
        1
    } else if above && recent.1 < prior.1 {
        -1
    } else {
        0
    }
}


/// Volatility above which the engine halts, in ten-thousandths of a
/// percent (3.5%).
pub const VOLATILITY_HALT: u64 = 35000;

/// The simple return at index `k`, in parts per million, truncated toward
/// zero; 0 after a zero price.
pub open spec fn return_ppm(s: Seq<u64>, k: int) -> int {
    if s[k - 1] == 0 {
        0
    } else if s[k] >= s[k - 1] {
        (s[k] - s[k - 1]) * 1_000_000 / (s[k - 1] as int)
    } else {
        -((s[k - 1] - s[k]) * 1_000_000 / (s[k - 1] as int))
    }
}

/// Sum of the returns at indices `1 .. hi`.
pub open spec fn return_sum(s: Seq<u64>, hi: int) -> int
    decreases hi,
{
    if hi <= 1 {
        0
    } else {
        return_sum(s, hi - 1) + return_ppm(s, hi - 1)
    }
}

/// Sum over indices `1 .. hi` of `(r * n - total)^2`: `n^3` times the sum of
/// squared deviations from the mean `total / n`.
pub open spec fn spread_sum(s: Seq<u64>, hi: int, n: int, total: int) -> int
    decreases hi,
{
    if hi <= 1 {
        0
    } else {
        let d = return_ppm(s, hi - 1) * n - total;
        spread_sum(s, hi - 1, n, total) + d * d
    }
}

pub open spec fn is_isqrt(v: int, r: int) -> bool {
    r >= 0 && r * r <= v && v < (r + 1) * (r + 1)
}

/// The integer square root, rounded down.
pub open spec fn isqrt(v: int) -> int {
    choose|r: int| is_isqrt(v, r)
}

pub proof fn lemma_isqrt_unique(v: int, r: int)
    requires
        is_isqrt(v, r),
    ensures
        isqrt(v) == r,
{
    let q = isqrt(v);
    assert(is_isqrt(v, q));
    if q < r {
        assert((q + 1) * (q + 1) <= r * r) by (nonlinear_arith)
            requires 0 <= q, q + 1 <= r;
    } else if r < q {
        assert((r + 1) * (r + 1) <= q * q) by (nonlinear_arith)
            requires 0 <= r, r + 1 <= q;
    }
}

/// Population variance of the returns, in squared parts per million,
/// rounded down: `sum((r - mean)^2) / n` with `n` the number of returns.
pub open spec fn variance_of(s: Seq<u64>) -> int {
    let n = s.len() - 1;
    spread_sum(s, s.len() as int, n, return_sum(s, s.len() as int)) / (n * n * n)
}

/// Volatility of a price window: the standard deviation of its simple
/// returns times 100, in ten-thousandths of a percent, rounded down; 0 with
/// fewer than twenty prices.
pub open spec fn volatility_of(s: Seq<u64>) -> int {
    if s.len() < 20 {
        0
    } else {
        isqrt(variance_of(s))
    }
}

proof fn lemma_abs_mul(a: int, b: int, am: int, bm: int)
    requires
        -am <= a <= am,
        0 <= b <= bm,
    ensures
        -(am * bm) <= a * b <= am * bm,
{
    assert(-(am * bm) <= a * b <= am * bm) by (nonlinear_arith)
        requires -am <= a <= am, 0 <= b <= bm;
}

proof fn lemma_square_bound(d: int, m: int)
    requires
        -m <= d <= m,
    ensures
        0 <= d * d <= m * m,
{
    assert(0 <= d * d <= m * m) by (nonlinear_arith)
        requires -m <= d <= m;
}

/// The return between two prices, in parts per million.
fn return_between(prev: u64, cur: u64) -> (r: i128)
    requires
        prev <= MAX_PRICE,
        cur <= MAX_PRICE,
    ensures
        r == return_ppm(seq![prev, cur], 1),
        -1_000_000_000_000_000 <= r <= 1_000_000_000_000_000,
{
    if prev == 0 {
        return 0;
    }
    if cur >= prev {
        let d = (cur - prev) as i128;
        proof {
            lemma_quotient_le(d * 1_000_000, prev as int);
        }
        d * 1_000_000 / (prev as i128)
    } else {
        let d = (prev - cur) as i128;
        proof {
            lemma_quotient_le(d * 1_000_000, prev as int);
        }
        -(d * 1_000_000 / (prev as i128))
    }
}

/// Integer square root by bisection.
pub fn integer_sqrt(v: u128) -> (r: u64)
    requires
        v < 0x4000_0000_0000_0000_0000_0000_0000_0000,
    ensures
        is_isqrt(v as int, r as int),
{
    let mut lo: u128 = 0;
    let mut hi: u128 = 0x8000_0000_0000_0000;
    assert(hi * hi == 0x4000_0000_0000_0000_0000_0000_0000_0000);
    while hi - lo > 1
        invariant
            lo < hi <= 0x8000_0000_0000_0000,
            lo * lo <= v,
            v < hi * hi,
        decreases hi - lo,
    {
        let mid = lo + (hi - lo) / 2;
        proof {
            assert(mid * mid <= hi * hi) by (nonlinear_arith)
                requires 0 <= mid <= hi;
            assert(hi * hi <= 0x4000_0000_0000_0000_0000_0000_0000_0000) by (nonlinear_arith)
                requires 0 <= hi <= 0x8000_0000_0000_0000;
        }
        if mid * mid <= v {
            lo = mid;
        } else {
            hi = mid;
        }
    }
    assert(hi == lo + 1);
    lo as u64
}

/// Volatility of a price window (see `volatility_of`).
pub fn volatility(prices: &Vec<u64>) -> (r: u64)
    requires
        prices@.len() <= WINDOW_CAP,
        bounded(prices@, MAX_PRICE),
    ensures
        r == volatility_of(prices@),
{
    let len = prices.len();
    if len < 20 {
        return 0;
    }
    let ghost s = prices@;
    let n: usize = len - 1;
    let mut total: i128 = 0;
    let mut k: usize = 1;
    while k < len
        invariant
            1 <= k <= len == s.len() <= WINDOW_CAP,
            s == prices@,
            bounded(s, MAX_PRICE),
            total == return_sum(s, k as int),
            -(k - 1) * 1_000_000_000_000_000 <= total <= (k - 1) * 1_000_000_000_000_000,
        decreases len - k,
    {
        let r = return_between(prices[k - 1], prices[k]);
        assert(r == return_ppm(s, k as int));
        total = total + r;
        k = k + 1;
    }
    let mut spread: u128 = 0;
    let mut k: usize = 1;
    while k < len
        invariant
            1 <= k <= len == s.len() <= WINDOW_CAP,
            n == len - 1,
            s == prices@,
            bounded(s, MAX_PRICE),
            total == return_sum(s, len as int),
            -99_000_000_000_000_000 <= total <= 99_000_000_000_000_000,
            spread == spread_sum(s, k as int, n as int, total as int),
            spread <= (k - 1) * 40_000_000_000_000_000_000_000_000_000_000_000,
        decreases len - k,
    {
        let r = return_between(prices[k - 1], prices[k]);
        assert(r == return_ppm(s, k as int));
        proof {
            lemma_abs_mul(r as int, n as int, 1_000_000_000_000_000, 99);
        }
        let d = r * (n as i128) - total;
        proof {
            lemma_square_bound(d as int, 200_000_000_000_000_000);
            assert(200_000_000_000_000_000 * 200_000_000_000_000_000
                == 40_000_000_000_000_000_000_000_000_000_000_000);
        }
        let sq = (d * d) as u128;
        spread = spread + sq;
        k = k + 1;
    }
    proof {
        assert((n as int) * (n as int) <= 9801) by (nonlinear_arith)
            requires 0 <= n <= 99;
        assert((n as int) * (n as int) * (n as int) <= 970299) by (nonlinear_arith)
            requires 0 <= n <= 99, (n as int) * (n as int) <= 9801;
        assert((n as int) * (n as int) * (n as int) >= 1) by (nonlinear_arith)
            requires 1 <= n;
    }
    let cube = (n as u128) * (n as u128) * (n as u128);
    let v = spread / cube;
    proof {
        lemma_quotient_le(spread as int, cube as int);
    }
    let root = integer_sqrt(v);
    proof {
        lemma_isqrt_unique(v as int, root as int);
    }
    root
}

} // verus!
