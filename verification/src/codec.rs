//! Decoding of control payloads into registry entries.
//!
//! An add request carries a raw byte buffer from user space holding either
//! UTF-8 bytes or little-endian UTF-16 code units, optionally ended by one
//! terminating zero code unit.  Exactly one trailing terminator is
//! stripped, at the code-unit level, before the text is decoded; any other
//! content is kept literally, an empty buffer included.  Decoding never
//! fails: malformed sequences are reconstructed lossily.  Entries are
//! stored as UTF-8 bytes, so both payload forms land in one representation.

use vstd::prelude::*;

verus! {

/// `s` with exactly one trailing zero byte removed, if one is there.
pub open spec fn strip_nul_u8(s: Seq<u8>) -> Seq<u8> {
    if s.len() > 0 && s[s.len() - 1] == 0 {
        s.drop_last()
    } else {
        s
    }
}

/// `s` with exactly one trailing zero code unit removed, if one is there.
pub open spec fn strip_nul_u16(s: Seq<u16>) -> Seq<u16> {
    if s.len() > 0 && s[s.len() - 1] == 0 {
        s.drop_last()
    } else {
        s
    }
}

/// The 16-bit code unit formed from two little-endian bytes.
pub open spec fn word_of(lo: u8, hi: u8) -> u16 {
    (lo as u16) | ((hi as u16) << 8)
}

/// The little-endian 16-bit code units packed in `s`, a trailing odd byte
/// being dropped.
pub open spec fn words_of(s: Seq<u8>) -> Seq<u16> {
    Seq::new((s.len() / 2) as nat, |i: int| word_of(s[2 * i], s[2 * i + 1]))
}

/// The UTF-8 bytes of the text that lossy UTF-8 decoding yields on `s`:
/// `s` itself where `s` is well-formed, `s` with each invalid sequence
/// replaced otherwise.
pub uninterp spec fn utf8_lossy(s: Seq<u8>) -> Seq<u8>;

/// The UTF-8 bytes of the text that lossy UTF-16 decoding yields on the
/// code units `s`, unpaired surrogates replaced.
pub uninterp spec fn utf16_lossy(s: Seq<u16>) -> Seq<u8>;

/// Relies on `String::from_utf8_lossy`: the result is a function of the
/// input bytes alone, and an empty input gives the empty string.
#[verifier::external_body]
fn utf8_lossy_exec(b: &Vec<u8>) -> (r: Vec<u8>)
    ensures
        r@ == utf8_lossy(b@),
        b@.len() == 0 ==> r@.len() == 0,
{
    String::from_utf8_lossy(b).into_owned().into_bytes()
}

/// Relies on `String::from_utf16_lossy`: the result is a function of the
/// input code units alone, and an empty input gives the empty string.
#[verifier::external_body]
fn utf16_lossy_exec(b: &Vec<u16>) -> (r: Vec<u8>)
    ensures
        r@ == utf16_lossy(b@),
        b@.len() == 0 ==> r@.len() == 0,
{
    String::from_utf16_lossy(b).into_bytes()
}

/// Strip one trailing zero byte, if present.
fn strip_nul_bytes(payload: &Vec<u8>) -> (r: Vec<u8>)
    ensures
        r@ =~= strip_nul_u8(payload@),
{
    let n: usize = payload.len();
    let keep: usize = if n > 0 && payload[n - 1] == 0 {
        n - 1
    } else {
        n
    };
    let mut out: Vec<u8> = Vec::new();
    let mut i: usize = 0;
    while i < keep
        invariant
            keep <= payload@.len(),
            0 <= i <= keep,
            out@ =~= payload@.subrange(0, i as int),
        decreases keep - i,
    {
        out.push(payload[i]);
        i = i + 1;
    }
    assert(out@ =~= payload@.subrange(0, keep as int));
    out
}

/// Reassemble the little-endian 16-bit code units packed in a raw byte
/// buffer, dropping a trailing odd byte.
fn words_of_bytes(payload: &Vec<u8>) -> (r: Vec<u16>)
    ensures
        r@ =~= words_of(payload@),
{
    let n: usize = payload.len() / 2;
    let mut out: Vec<u16> = Vec::new();
    let mut i: usize = 0;
    while i < n
        invariant
            n == payload@.len() / 2,
            2 * n <= payload@.len() <= usize::MAX,
            0 <= i <= n,
            out@.len() == i,
            forall|k: int| 0 <= k < i ==> out@[k] == word_of(payload@[2 * k], payload@[2 * k + 1]),
        decreases n - i,
    {
        let lo: u8 = payload[2 * i];
        let hi: u8 = payload[2 * i + 1];
        out.push((lo as u16) | ((hi as u16) << 8));
        i = i + 1;
    }
    assert(out@ =~= words_of(payload@));
    out
}

/// Decode a UTF-8 add payload into the entry to store: one trailing zero
/// byte stripped, then decoded lossily.  A payload without a trailing
/// terminator is kept verbatim as the argument of the decoding.
pub fn decode_utf8_payload(payload: &Vec<u8>) -> (r: Vec<u8>)
    ensures
        r@ == utf8_lossy(strip_nul_u8(payload@)),
{
    let stripped = strip_nul_bytes(payload);
    utf8_lossy_exec(&stripped)
}

/// Decode a UTF-16 add payload into the entry to store: the bytes are read
/// as little-endian code units (a trailing odd byte dropped), one trailing
/// zero code unit is stripped, and the rest is decoded lossily.
pub fn decode_utf16_payload(payload: &Vec<u8>) -> (r: Vec<u8>)
    ensures
        r@ == utf16_lossy(strip_nul_u16(words_of(payload@))),
{
    let words = words_of_bytes(payload);
    let stripped = strip_nul_words(&words);
    utf16_lossy_exec(&stripped)
}

/// Strip one trailing zero code unit, if present.
fn strip_nul_words(payload: &Vec<u16>) -> (r: Vec<u16>)
    ensures
        r@ =~= strip_nul_u16(payload@),
{
    let n: usize = payload.len();
    let keep: usize = if n > 0 && payload[n - 1] == 0 {
        n - 1
    } else {
        n
    };
    let mut out: Vec<u16> = Vec::new();
    let mut i: usize = 0;
    while i < keep
        invariant
            keep <= payload@.len(),
            0 <= i <= keep,
            out@ =~= payload@.subrange(0, i as int),
        decreases keep - i,
    {
        out.push(payload[i]);
        i = i + 1;
    }
    assert(out@ =~= payload@.subrange(0, keep as int));
    out
}

/// A payload whose last code unit is not a terminator (the empty payload
/// included) goes into decoding exactly as it arrived: no unit is lost.
pub proof fn lemma_no_terminator_kept_verbatim_u8(payload: Seq<u8>)
    requires
        payload.len() == 0 || payload[payload.len() - 1] != 0,
    ensures
        strip_nul_u8(payload) == payload,
{
}

/// The UTF-16 counterpart: without a trailing terminator nothing is
/// stripped.
pub proof fn lemma_no_terminator_kept_verbatim_u16(payload: Seq<u16>)
    requires
        payload.len() == 0 || payload[payload.len() - 1] != 0,
    ensures
        strip_nul_u16(payload) == payload,
{
}

} // verus!
