//! Text helpers: comparison of strings and rendering of numbers.
use vstd::prelude::*;

verus! {

/// Character-by-character equality of two strings.
pub fn str_equals(a: &str, b: &str) -> (r: bool)
    ensures
        r == (a@ == b@),
{
    let n = a.unicode_len();
    let m = b.unicode_len();
    if n != m {
        return false;
    }
    let mut i: usize = 0;
    while i < n
        invariant
            n == a@.len(),
            m == b@.len(),
            n == m,
            i <= n,
            forall|j: int| 0 <= j < i ==> a@[j] == b@[j],
        decreases n - i,
    {
        if a.get_char(i) != b.get_char(i) {
            return false;
        }
        i = i + 1;
    }
    assert(a@ =~= b@);
    true
}


/// The decimal digits of `n`, most significant first, without leading zeros.
pub open spec fn decimal(n: nat) -> Seq<char>
    decreases n,
{
    if n < 10 {
        seq![digit_char(n)]
    } else {
        decimal(n / 10).push(digit_char(n % 10))
    }
}

pub open spec fn digit_char(d: nat) -> char {
    if d == 0 { '0' } else if d == 1 { '1' } else if d == 2 { '2' } else if d == 3 { '3' }
    else if d == 4 { '4' } else if d == 5 { '5' } else if d == 6 { '6' } else if d == 7 { '7' }
    else if d == 8 { '8' } else { '9' }
}

fn digit_str(d: u64) -> (r: &'static str)
    requires
        d < 10,
    ensures
        r@ == seq![digit_char(d as nat)],
{
    proof {
        reveal_strlit("0");
        reveal_strlit("1");
        reveal_strlit("2");
        reveal_strlit("3");
        reveal_strlit("4");
        reveal_strlit("5");
        reveal_strlit("6");
        reveal_strlit("7");
        reveal_strlit("8");
        reveal_strlit("9");
    }
    if d == 0 { "0" } else if d == 1 { "1" } else if d == 2 { "2" } else if d == 3 { "3" }
    else if d == 4 { "4" } else if d == 5 { "5" } else if d == 6 { "6" } else if d == 7 { "7" }
    else if d == 8 { "8" } else { "9" }
}

/// The decimal digits of `n`.
pub fn render_u64(n: u64) -> (r: String)
    ensures
        r@ == decimal(n as nat),
    decreases n,
{
    if n < 10 {
        let r = String::from_str(digit_str(n));
        proof {
            assert(r@ =~= decimal(n as nat));
        }
        r
    } else {
        let mut r = render_u64(n / 10);
        r.append(digit_str(n % 10));
        proof {
            assert(r@ =~= decimal(n as nat));
        }
        r
    }
}

/// `n` with exactly two digits, zero-padded, for `n < 100`.
pub open spec fn two_digits(n: nat) -> Seq<char> {
    seq![digit_char(n / 10), digit_char(n % 10)]
}

/// A non-negative value in hundredths, as `units.hh`.
pub open spec fn hundredths(v: nat) -> Seq<char> {
    decimal(v / 100) + "."@ + two_digits(v % 100)
}

/// A signed value in hundredths, with a leading `-` when negative.
pub open spec fn signed_hundredths(v: int) -> Seq<char> {
    if v < 0 {
        "-"@ + hundredths((-v) as nat)
    } else {
        hundredths(v as nat)
    }
}

pub(crate) fn render_digit(d: u64) -> (r: String)
    requires
        d < 10,
    ensures
        r@ == seq![digit_char(d as nat)],
{
    String::from_str(digit_str(d))
}

/// Renders a non-negative value given in hundredths with two decimals.
pub fn render_hundredths(v: u64) -> (r: String)
    ensures
        r@ == hundredths(v as nat),
{
    let mut r = render_u64(v / 100);
    r.append(".");
    let tens = render_digit((v % 100) / 10);
    let ones = render_digit(v % 10);
    r.append(tens.as_str());
    r.append(ones.as_str());
    proof {
        reveal_strlit(".");
        assert((v % 100) / 10 == (v as nat % 100) / 10);
        assert(v % 10 == (v as nat % 100) % 10) by (nonlinear_arith);
        assert(r@ =~= hundredths(v as nat));
    }
    r
}

/// A value in ten-thousandths, rounded to the nearest hundredth, halves up.
pub open spec fn rounded_hundredths(v: nat) -> nat {
    v / 100 + if v % 100 >= 50 { 1nat } else { 0nat }
}

pub fn round_to_hundredths(v: u64) -> (r: u64)
    ensures
        r == rounded_hundredths(v as nat),
{
    v / 100 + if v % 100 >= 50 { 1 } else { 0 }
}

/// Renders a signed value given in hundredths with two decimals.
pub fn render_signed_hundredths(v: i64) -> (r: String)
    ensures
        r@ == signed_hundredths(v as int),
{
    if v < 0 {
        let mag: u64 = if v == i64::MIN { 9223372036854775808u64 } else { (-v) as u64 };
        let body = render_hundredths(mag);
        let mut r = String::from_str("-");
        r.append(body.as_str());
        proof {
            assert(r@ =~= signed_hundredths(v as int));
        }
        r
    } else {
        render_hundredths(v as u64)
    }
}

} // verus!
