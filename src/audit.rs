//! Proof hashes and audit lines of emitted signals.
//!
//! The proof payload of a signal is
//! `TITAN:{timestamp}:{ACTION}:{confidence}:{reasoning}:{SOURCE}`, with the
//! confidence written as a decimal with four places. Its proof hash is `0x`
//! followed by the lowercase hex of the SHA-256 digest of the payload's UTF-8
//! bytes.
use vstd::prelude::*;
use vstd::utf8::encode_utf8;
use crate::signal::{action_text, source_code, source_name, views, Action, SignalSource};
use crate::text::{
    decimal, digit_char, hundredths, render_digit, render_hundredths, render_u64,
    round_to_hundredths, rounded_hundredths,
};

verus! {

/// The SHA-256 digest of a byte sequence.
pub uninterp spec fn sha256_of(data: Seq<u8>) -> Seq<u8>;

/// The JSON text of an array of strings.
pub uninterp spec fn json_string_array(lines: Seq<Seq<char>>) -> Seq<char>;

/// Relies on `sha2::Sha256::digest`: the SHA-256 digest of the bytes, which
/// has 32 bytes.
#[verifier::external_body]
fn sha256_digest(data: &[u8]) -> (r: Vec<u8>)
    ensures
        r@ == sha256_of(data@),
        r@.len() == 32,
{
    <sha2::Sha256 as sha2::Digest>::digest(data).to_vec()
}

/// Relies on `hex::encode`: two lowercase hex digits per byte, high nibble
/// first.
#[verifier::external_body]
fn hex_lower(data: &[u8]) -> (r: String)
    ensures
        r@ == hex_text(data@),
{
    hex::encode(data)
}

/// Relies on `serde_json::to_string` on a vector of strings, which cannot
/// fail: the JSON array of the strings.
#[verifier::external_body]
pub(crate) fn json_lines(lines: &Vec<String>) -> (r: String)
    ensures
        r@ == json_string_array(views(lines@)),
{
    serde_json::to_string(lines).unwrap_or_default()
}

pub open spec fn hex_digit(d: nat) -> char {
    if d < 10 {
        digit_char(d)
    } else if d == 10 {
        'a'
    } else if d == 11 {
        'b'
    } else if d == 12 {
        'c'
    } else if d == 13 {
        'd'
    } else if d == 14 {
        'e'
    } else {
        'f'
    }
}

/// Lowercase hex of a byte sequence.
pub open spec fn hex_text(b: Seq<u8>) -> Seq<char>
    decreases b.len(),
{
    if b.len() == 0 {
        seq![]
    } else {
        hex_text(b.drop_last()) + seq![
            hex_digit((b.last() / 16) as nat),
            hex_digit((b.last() % 16) as nat),
        ]
    }
}

pub proof fn lemma_hex_len(b: Seq<u8>)
    ensures
        hex_text(b).len() == 2 * b.len(),
    decreases b.len(),
{
    if b.len() > 0 {
        lemma_hex_len(b.drop_last());
    }
}

/// The digits of a fraction `f / 10000` (with `0 < f < 10000`), without
/// trailing zeros.
pub open spec fn fraction_text(f: nat) -> Seq<char> {
    if f % 1000 == 0 {
        seq![digit_char(f / 1000)]
    } else if f % 100 == 0 {
        seq![digit_char(f / 1000), digit_char((f / 100) % 10)]
    } else if f % 10 == 0 {
        seq![digit_char(f / 1000), digit_char((f / 100) % 10), digit_char((f / 10) % 10)]
    } else {
        seq![
            digit_char(f / 1000),
            digit_char((f / 100) % 10),
            digit_char((f / 10) % 10),
            digit_char(f % 10),
        ]
    }
}

/// A confidence in basis points in its shortest decimal form: `1`, `0.75`,
/// `0.8125`.
pub open spec fn confidence_text(c: nat) -> Seq<char> {
    if c % 10000 == 0 {
        decimal(c / 10000)
    } else {
        decimal(c / 10000) + "."@ + fraction_text(c % 10000)
    }
}

pub open spec fn bool_text(b: bool) -> Seq<char> {
    if b {
        "true"@
    } else {
        "false"@
    }
}

pub open spec fn payload_of(
    timestamp: u64,
    action: Action,
    confidence: u64,
    reasoning: Seq<char>,
    source: SignalSource,
) -> Seq<char> {
    "TITAN:"@ + decimal(timestamp as nat) + ":"@ + action_text(action) + ":"@ + confidence_text(
        confidence as nat,
    ) + ":"@ + reasoning + ":"@ + source_code(source)
}

pub open spec fn proof_hash_of(payload: Seq<char>) -> Seq<char> {
    "0x"@ + hex_text(sha256_of(encode_utf8(payload)))
}

/// The audit line of a signal; `hash` is its proof hash, of which the first
/// eighteen characters are kept. The confidence has two places, rounded to
/// the nearest hundredth.
pub open spec fn audit_line_of(
    timestamp: u64,
    action: Action,
    confidence: u64,
    source: SignalSource,
    hash: Seq<char>,
    can_execute: bool,
) -> Seq<char> {
    "["@ + decimal(timestamp as nat) + "] "@ + action_text(action) + " | Conf: "@ + hundredths(
        rounded_hundredths(confidence as nat),
    ) + " | Src: "@ + source_name(source) + " | Hash: "@ + hash.take(18) + " | Can Execute: "@
        + bool_text(can_execute)
}

pub fn render_confidence(c: u64) -> (r: String)
    ensures
        r@ == confidence_text(c as nat),
{
    let mut r = render_u64(c / 10000);
    let f = c % 10000;
    if f == 0 {
        return r;
    }
    r.append(".");
    let d3 = render_digit(f / 1000);
    r.append(d3.as_str());
    if f % 1000 != 0 {
        let d2 = render_digit((f / 100) % 10);
        r.append(d2.as_str());
        if f % 100 != 0 {
            let d1 = render_digit((f / 10) % 10);
            r.append(d1.as_str());
            if f % 10 != 0 {
                let d0 = render_digit(f % 10);
                r.append(d0.as_str());
            }
        }
    }
    proof {
        assert(r@ =~= confidence_text(c as nat));
    }
    r
}

/// The canonical payload of a signal.
pub fn proof_payload(
    timestamp: u64,
    action: Action,
    confidence: u64,
    reasoning: &str,
    source: SignalSource,
) -> (r: String)
    ensures
        r@ == payload_of(timestamp, action, confidence, reasoning@, source),
{
    let mut r = String::from_str("TITAN:");
    let ts = render_u64(timestamp);
    r.append(ts.as_str());
    r.append(":");
    r.append(action.text());
    r.append(":");
    let c = render_confidence(confidence);
    r.append(c.as_str());
    r.append(":");
    r.append(reasoning);
    r.append(":");
    r.append(source.code());
    r
}

/// `0x` and the lowercase hex of the SHA-256 digest of the payload's bytes.
pub fn proof_hash(payload: &str) -> (r: String)
    ensures
        r@ == proof_hash_of(payload@),
        r@.len() == 66,
{
    let digest = sha256_digest(payload.as_bytes());
    let h = hex_lower(digest.as_slice());
    proof {
        lemma_hex_len(digest@);
    }
    let mut r = String::from_str("0x");
    r.append(h.as_str());
    proof {
        reveal_strlit("0x");
    }
    r
}

fn bool_str(b: bool) -> (r: &'static str)
    ensures
        r@ == bool_text(b),
{
    if b {
        "true"
    } else {
        "false"
    }
}

/// The audit line of a signal whose proof hash is `hash`.
pub fn audit_line(
    timestamp: u64,
    action: Action,
    confidence: u64,
    source: SignalSource,
    hash: &str,
    can_execute: bool,
) -> (r: String)
    requires
        hash@.len() >= 18,
    ensures
        r@ == audit_line_of(timestamp, action, confidence, source, hash@, can_execute),
{
    let mut r = String::from_str("[");
    let ts = render_u64(timestamp);
    r.append(ts.as_str());
    r.append("] ");
    r.append(action.text());
    r.append(" | Conf: ");
    let c = render_hundredths(round_to_hundredths(confidence));
    r.append(c.as_str());
    r.append(" | Src: ");
    r.append(source.name());
    r.append(" | Hash: ");
    r.append(hash.substring_char(0, 18));
    r.append(" | Can Execute: ");
    r.append(bool_str(can_execute));
    r
}

} // verus!
