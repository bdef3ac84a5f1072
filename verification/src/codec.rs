//! Canonical encoding of the journal value.
//!
//! The journal carries a single unsigned 128-bit value, laid out as one
//! 32-byte big-endian word in the target chain's calling convention:
//! sixteen zero padding bytes followed by the sixteen value bytes, most
//! significant first.  Encoding and decoding form a bijection between
//! the value range and the well-formed 32-byte layouts.

use vstd::arithmetic::div_mod::{
    lemma_basic_div, lemma_div_denominator, lemma_mod_breakdown, lemma_small_mod,
};
use vstd::prelude::*;

verus! {

/// Total width in bytes of the encoded journal word.
pub const JOURNAL_WIDTH: usize = 32;

/// Number of leading padding bytes that must be zero.
pub const JOURNAL_PADDING: usize = 16;

/// Rejection cases of [`decode_journal`].
#[derive(Clone, Copy, Debug, PartialEq, Eq, Structural)]
pub enum DecodeError {
    /// The byte sequence is not exactly one 32-byte word.
    LengthMismatch,
    /// A padding byte that the fixed-width layout requires to be zero is not.
    PaddingMismatch,
}

/// 256 raised to the power `n`: the number of values that `n` bytes hold.
pub open spec fn pow256(n: nat) -> nat
    decreases n,
{
    if n == 0 {
        1
    } else {
        256 * pow256((n - 1) as nat)
    }
}

/// The big-endian `n`-byte encoding of `v % pow256(n)`.
pub open spec fn be_bytes(v: nat, n: nat) -> Seq<u8>
    decreases n,
{
    if n == 0 {
        Seq::empty()
    } else {
        be_bytes(v / 256, (n - 1) as nat).push((v % 256) as u8)
    }
}

/// The value that a big-endian byte sequence denotes.
pub open spec fn be_value(s: Seq<u8>) -> nat
    decreases s.len(),
{
    if s.len() == 0 {
        0
    } else {
        (be_value(s.drop_last()) * 256 + s.last()) as nat
    }
}

/// The canonical byte layout of journal value `v`.
pub open spec fn spec_encode_journal(v: u128) -> Seq<u8> {
    be_bytes(v as nat, JOURNAL_WIDTH as nat)
}

/// A byte sequence is a well-formed journal word: exact width, zero padding.
pub open spec fn journal_layout_ok(s: Seq<u8>) -> bool {
    &&& s.len() == JOURNAL_WIDTH
    &&& forall|i: int| 0 <= i < JOURNAL_PADDING ==> s[i] == 0u8
}

/// The value a well-formed journal word decodes to; `None` otherwise.
pub open spec fn spec_decode_journal(s: Seq<u8>) -> Option<u128> {
    if journal_layout_ok(s) {
        Some(be_value(s) as u128)
    } else {
        None
    }
}

proof fn lemma_pow256_pos(n: nat)
    ensures
        pow256(n) >= 1,
    decreases n,
{
    if n > 0 {
        lemma_pow256_pos((n - 1) as nat);
    }
}

proof fn lemma_pow256_increases(m: nat, n: nat)
    requires
        m <= n,
    ensures
        pow256(m) <= pow256(n),
    decreases n,
{
    if m < n {
        lemma_pow256_increases(m, (n - 1) as nat);
        lemma_pow256_pos((n - 1) as nat);
    }
}

proof fn lemma_pow256_16_value()
    ensures
        pow256(16) == 0x1_0000_0000_0000_0000_0000_0000_0000_0000nat,
{
    reveal_with_fuel(pow256, 17);
}

proof fn lemma_be_bytes_len(v: nat, n: nat)
    ensures
        be_bytes(v, n).len() == n,
    decreases n,
{
    if n > 0 {
        lemma_be_bytes_len(v / 256, (n - 1) as nat);
    }
}

/// Closed form for the bytes of `be_bytes`: byte `j` holds digit `n - 1 - j`.
proof fn lemma_be_bytes_index(v: nat, n: nat)
    ensures
        be_bytes(v, n).len() == n,
        forall|j: int|
            0 <= j < n ==> be_bytes(v, n)[j] == ((v / pow256((n - 1 - j) as nat)) % 256) as u8,
    decreases n,
{
    lemma_be_bytes_len(v, n);
    if n > 0 {
        lemma_be_bytes_index(v / 256, (n - 1) as nat);
        assert forall|j: int| 0 <= j < n implies be_bytes(v, n)[j] == ((v / pow256(
            (n - 1 - j) as nat,
        )) % 256) as u8 by {
            if j < n - 1 {
                let m = (n - 2 - j) as nat;
                lemma_pow256_pos(m);
                lemma_div_denominator(v as int, 256, pow256(m) as int);
                assert(pow256((m + 1) as nat) == 256 * pow256(m));
                assert(be_bytes(v, n)[j] == be_bytes(v / 256, (n - 1) as nat)[j]);
                assert((v / 256) / pow256(m) == v / pow256((n - 1 - j) as nat));
            } else {
                assert(pow256(0) == 1);
                assert(v / 1 == v);
                assert(be_bytes(v, n)[j] == (v % 256) as u8);
            }
        }
    }
}

/// Decoding inverts encoding: `be_value` recovers the value modulo the width.
proof fn lemma_be_value_of_be_bytes(v: nat, n: nat)
    ensures
        be_value(be_bytes(v, n)) == v % pow256(n),
    decreases n,
{
    lemma_be_bytes_len(v, n);
    if n == 0 {
        assert(pow256(0) == 1);
        assert(v % 1 == 0) by (nonlinear_arith);
    } else {
        let prefix = be_bytes(v / 256, (n - 1) as nat);
        lemma_be_bytes_len(v / 256, (n - 1) as nat);
        assert(be_bytes(v, n).drop_last() =~= prefix);
        assert(be_bytes(v, n).last() == (v % 256) as u8);
        lemma_be_value_of_be_bytes(v / 256, (n - 1) as nat);
        lemma_pow256_pos((n - 1) as nat);
        lemma_mod_breakdown(v as int, 256, pow256((n - 1) as nat) as int);
        assert(pow256(n) == 256 * pow256((n - 1) as nat));
        assert(v % pow256(n) == 256 * ((v / 256) % pow256((n - 1) as nat)) + v % 256);
    }
}

/// Encoding inverts decoding: a sequence re-encodes from its own value.
proof fn lemma_be_bytes_of_be_value(s: Seq<u8>)
    ensures
        be_bytes(be_value(s), s.len()) == s,
    decreases s.len(),
{
    if s.len() > 0 {
        let prefix = s.drop_last();
        let v = be_value(s);
        assert(v == be_value(prefix) * 256 + s.last());
        assert(v % 256 == s.last() && v / 256 == be_value(prefix)) by (nonlinear_arith)
            requires
                v == be_value(prefix) * 256 + s.last(),
                s.last() < 256,
        ;
        lemma_be_bytes_of_be_value(prefix);
        assert(be_bytes(v, s.len()) == be_bytes(be_value(prefix), (s.len() - 1) as nat).push(
            (v % 256) as u8,
        ));
        assert(be_bytes(v, s.len()) =~= s);
    } else {
        assert(be_bytes(be_value(s), s.len()) =~= s);
    }
}

/// The value of a well-formed journal word fits in sixteen bytes.
proof fn lemma_layout_value_bounded(s: Seq<u8>)
    requires
        journal_layout_ok(s),
    ensures
        be_value(s) < pow256(16),
{
    lemma_be_value_prefix_zero(s, JOURNAL_PADDING as int);
    lemma_be_value_bound(s.subrange(JOURNAL_PADDING as int, s.len() as int));
}

/// Dropping an all-zero prefix does not change the denoted value.
proof fn lemma_be_value_prefix_zero(s: Seq<u8>, k: int)
    requires
        0 <= k <= s.len(),
        forall|i: int| 0 <= i < k ==> s[i] == 0u8,
    ensures
        be_value(s) == be_value(s.subrange(k, s.len() as int)),
    decreases s.len(),
{
    if s.len() == k {
        lemma_be_value_zero(s);
        assert(s.subrange(k, s.len() as int) =~= Seq::<u8>::empty());
    } else {
        let prefix = s.drop_last();
        lemma_be_value_prefix_zero(prefix, k);
        assert(s.subrange(k, s.len() as int).drop_last() =~= prefix.subrange(
            k,
            prefix.len() as int,
        ));
        assert(s.subrange(k, s.len() as int).last() == s.last());
    }
}

/// An all-zero byte sequence denotes zero.
proof fn lemma_be_value_zero(s: Seq<u8>)
    requires
        forall|i: int| 0 <= i < s.len() ==> s[i] == 0u8,
    ensures
        be_value(s) == 0,
    decreases s.len(),
{
    if s.len() > 0 {
        lemma_be_value_zero(s.drop_last());
    }
}

/// A sequence of `n` bytes denotes a value below `pow256(n)`.
proof fn lemma_be_value_bound(s: Seq<u8>)
    ensures
        be_value(s) < pow256(s.len()),
    decreases s.len(),
{
    if s.len() == 0 {
        assert(pow256(0) == 1);
    } else {
        let prefix = s.drop_last();
        lemma_be_value_bound(prefix);
        let p = pow256(prefix.len());
        assert(be_value(prefix) * 256 + s.last() < p * 256) by (nonlinear_arith)
            requires
                be_value(prefix) < p,
                s.last() < 256,
        ;
        assert(pow256(s.len()) == 256 * p);
    }
}

/// Encodes a journal value into its canonical 32-byte big-endian word.
pub fn encode_journal(v: u128) -> (r: Vec<u8>)
    ensures
        r@ == spec_encode_journal(v),
        r@.len() == JOURNAL_WIDTH,
{
    let ghost vn = v as nat;
    proof {
        assert(pow256(0) == 1);
        assert(vn / 1 == vn);
    }
    // Extract the sixteen value bytes, least significant first.
    let mut low: Vec<u8> = Vec::new();
    let mut x: u128 = v;
    let mut k: usize = 0;
    while k < 16
        invariant
            k <= 16,
            low@.len() == k,
            x as nat == vn / pow256(k as nat),
            forall|i: int|
                0 <= i < k ==> low@[i] == ((vn / pow256(i as nat)) % 256) as u8,
        decreases 16 - k,
    {
        proof {
            lemma_pow256_pos(k as nat);
            lemma_div_denominator(vn as int, pow256(k as nat) as int, 256);
            assert(pow256((k + 1) as nat) == 256 * pow256(k as nat));
        }
        low.push((x % 256) as u8);
        x = x / 256;
        k += 1;
    }
    // Lay the word out: zero padding, then the value bytes reversed.
    let mut out: Vec<u8> = Vec::new();
    let mut i: usize = 0;
    while i < 16
        invariant
            i <= 16,
            out@.len() == i,
            forall|j: int| 0 <= j < i ==> out@[j] == 0u8,
        decreases 16 - i,
    {
        out.push(0u8);
        i += 1;
    }
    let mut m: usize = 16;
    while m > 0
        invariant
            m <= 16,
            low@.len() == 16,
            forall|i2: int|
                0 <= i2 < 16 ==> low@[i2] == ((vn / pow256(i2 as nat)) % 256) as u8,
            out@.len() == 16 + (16 - m),
            forall|j: int| 0 <= j < 16 ==> out@[j] == 0u8,
            forall|j: int|
                16 <= j < out@.len() ==> out@[j] == ((vn / pow256((31 - j) as nat)) % 256) as u8,
        decreases m,
    {
        m -= 1;
        out.push(low[m]);
    }
    proof {
        lemma_be_bytes_index(vn, 32);
        lemma_pow256_16_value();
        assert forall|j: int| 0 <= j < 16 implies be_bytes(vn, 32)[j] == 0u8 by {
            lemma_pow256_increases(16, (31 - j) as nat);
            lemma_pow256_pos((31 - j) as nat);
            lemma_basic_div(vn as int, pow256((31 - j) as nat) as int);
        }
        assert(out@ =~= be_bytes(vn, 32));
    }
    out
}

/// Decodes a canonical 32-byte big-endian word back into the journal value.
///
/// Fails with [`DecodeError::LengthMismatch`] when the input is not exactly
/// one word wide, and with [`DecodeError::PaddingMismatch`] when a padding
/// byte is nonzero; succeeds on exactly the well-formed layouts.
pub fn decode_journal(bytes: &Vec<u8>) -> (r: Result<u128, DecodeError>)
    ensures
        match r {
            Ok(w) => spec_decode_journal(bytes@) == Some(w),
            Err(DecodeError::LengthMismatch) => bytes@.len() != JOURNAL_WIDTH,
            Err(DecodeError::PaddingMismatch) => bytes@.len() == JOURNAL_WIDTH && exists|i: int|
                0 <= i < JOURNAL_PADDING && bytes@[i] != 0u8,
        },
        r is Ok <==> journal_layout_ok(bytes@),
{
    if bytes.len() != JOURNAL_WIDTH {
        return Err(DecodeError::LengthMismatch);
    }
    let mut i: usize = 0;
    while i < 16
        invariant
            i <= 16,
            bytes@.len() == 32,
            forall|j: int| 0 <= j < i ==> bytes@[j] == 0u8,
        decreases 16 - i,
    {
        if bytes[i] != 0 {
            return Err(DecodeError::PaddingMismatch);
        }
        i += 1;
    }
    proof {
        lemma_pow256_16_value();
        lemma_be_value_zero(bytes@.subrange(0, 16));
    }
    let mut acc: u128 = 0;
    let mut k: usize = 16;
    while k < 32
        invariant
            16 <= k <= 32,
            bytes@.len() == 32,
            journal_layout_ok(bytes@),
            acc as nat == be_value(bytes@.subrange(0, k as int)),
            (acc as nat) < pow256((k - 16) as nat),
            pow256(16) == 0x1_0000_0000_0000_0000_0000_0000_0000_0000nat,
        decreases 32 - k,
    {
        let b = bytes[k];
        proof {
            let cur = bytes@.subrange(0, k as int);
            let next = bytes@.subrange(0, k as int + 1);
            assert(next.drop_last() =~= cur);
            assert(next.last() == bytes@[k as int]);
            let p = pow256((k - 16) as nat);
            lemma_pow256_pos((k - 16) as nat);
            assert(acc as nat * 256 + b < 256 * p) by (nonlinear_arith)
                requires
                    (acc as nat) < p,
                    b < 256,
                    p >= 1,
            ;
            assert(pow256((k - 15) as nat) == 256 * p);
            lemma_pow256_increases((k - 15) as nat, 16);
        }
        acc = acc * 256 + (b as u128);
        k += 1;
    }
    proof {
        assert(bytes@.subrange(0, 32) =~= bytes@);
    }
    Ok(acc)
}

/// Law: decoding an encoded value gives the value back, for the whole range.
pub proof fn lemma_encode_decode_round_trip(v: u128)
    ensures
        spec_decode_journal(spec_encode_journal(v)) == Some(v),
{
    let s = spec_encode_journal(v);
    lemma_be_bytes_index(v as nat, 32);
    lemma_pow256_16_value();
    assert forall|j: int| 0 <= j < 16 implies s[j] == 0u8 by {
        lemma_pow256_increases(16, (31 - j) as nat);
        lemma_pow256_pos((31 - j) as nat);
        lemma_basic_div(v as int, pow256((31 - j) as nat) as int);
    }
    assert(journal_layout_ok(s));
    lemma_be_value_of_be_bytes(v as nat, 32);
    lemma_pow256_increases(16, 32);
    lemma_pow256_pos(32);
    lemma_small_mod(v as nat, pow256(32));
}

/// Law: encoding a decoded word gives the word back, so the codec is a
/// bijection between journal values and well-formed layouts.
pub proof fn lemma_decode_encode_round_trip(s: Seq<u8>)
    requires
        journal_layout_ok(s),
    ensures
        spec_decode_journal(s) matches Some(w) && spec_encode_journal(w) == s,
{
    lemma_layout_value_bounded(s);
    lemma_pow256_16_value();
    lemma_be_bytes_of_be_value(s);
    let w = be_value(s) as u128;
    assert(w as nat == be_value(s));
}

/// Appends all bytes of `src` to `dst`.
pub(crate) fn append_bytes(dst: &mut Vec<u8>, src: &Vec<u8>)
    ensures
        final(dst)@ == old(dst)@ + src@,
{
    let mut i: usize = 0;
    while i < src.len()
        invariant
            i <= src@.len(),
            dst@ == old(dst)@ + src@.subrange(0, i as int),
        decreases src@.len() - i,
    {
        dst.push(src[i]);
        i += 1;
        proof {
            assert(old(dst)@ + src@.subrange(0, i - 1 as int) + seq![src@[i - 1]] =~= old(dst)@
                + src@.subrange(0, i as int));
        }
    }
    proof {
        assert(src@.subrange(0, src@.len() as int) =~= src@);
    }
}

} // verus!
