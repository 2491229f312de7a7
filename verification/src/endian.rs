//! Unsigned integers as fixed-width byte strings, in both byte orders.

use vstd::arithmetic::power::{lemma_pow0, lemma_pow_positive, pow};
use vstd::prelude::*;

verus! {

/// The number that `bytes` spells, most significant byte first.
pub open spec fn be_value(bytes: Seq<u8>) -> nat
    decreases bytes.len(),
{
    if bytes.len() == 0 {
        0
    } else {
        256 * be_value(bytes.drop_last()) + bytes.last() as nat
    }
}

/// The `width` low-order bytes of `value`, most significant byte first.
pub open spec fn be_bytes(value: nat, width: nat) -> Seq<u8>
    decreases width,
{
    if width == 0 {
        Seq::empty()
    } else {
        be_bytes(value / 256, (width - 1) as nat).push((value % 256) as u8)
    }
}

/// The `width` low-order bytes of `value`, least significant byte first.
pub open spec fn le_bytes(value: nat, width: nat) -> Seq<u8>
    decreases width,
{
    if width == 0 {
        Seq::empty()
    } else {
        seq![(value % 256) as u8] + le_bytes(value / 256, (width - 1) as nat)
    }
}

/// 2^64, the first value that no `u64` holds.
pub open spec fn two_pow_64() -> nat {
    0x1_0000_0000_0000_0000
}

/// Each further byte multiplies the weight by 256.
pub proof fn lemma_pow256_unfold(n: nat)
    requires
        n > 0,
    ensures
        pow(256, n) == 256 * pow(256, (n - 1) as nat),
        pow(256, n) > 0,
{
    reveal(pow);
    lemma_pow_positive(256, n);
}

/// 256^8 is 2^64.
pub proof fn lemma_pow256_8()
    ensures
        pow(256, 8) == two_pow_64(),
        pow(256, 7) == 0x100_0000_0000_0000,
{
    lemma_pow0(256);
    lemma_pow256_unfold(1);
    lemma_pow256_unfold(2);
    lemma_pow256_unfold(3);
    lemma_pow256_unfold(4);
    lemma_pow256_unfold(5);
    lemma_pow256_unfold(6);
    lemma_pow256_unfold(7);
    lemma_pow256_unfold(8);
}

/// A number written at a width takes that many bytes.
pub proof fn lemma_be_bytes_len(value: nat, width: nat)
    ensures
        be_bytes(value, width).len() == width,
    decreases width,
{
    if width > 0 {
        lemma_be_bytes_len(value / 256, (width - 1) as nat);
    }
}

/// A byte string spells a number below 256 to the power of its length.
pub proof fn lemma_be_value_bound(bytes: Seq<u8>)
    ensures
        be_value(bytes) < pow(256, bytes.len()),
    decreases bytes.len(),
{
    if bytes.len() == 0 {
        lemma_pow0(256);
    } else {
        lemma_be_value_bound(bytes.drop_last());
        lemma_pow256_unfold(bytes.len());
    }
}

/// Appending `tail` shifts what `head` spells by the width of `tail`.
pub proof fn lemma_be_value_concat(head: Seq<u8>, tail: Seq<u8>)
    ensures
        be_value(head + tail) == be_value(head) * pow(256, tail.len()) + be_value(tail),
    decreases tail.len(),
{
    if tail.len() == 0 {
        lemma_pow0(256);
    } else {
        let shorter = tail.drop_last();
        lemma_be_value_concat(head, shorter);
        assert((head + tail).drop_last() =~= head + shorter);
        lemma_pow256_unfold(tail.len());
        let above = be_value(head) as int;
        let weight = pow(256, shorter.len());
        assert(256 * (above * weight) == above * (256 * weight)) by (nonlinear_arith);
    }
}

/// Writing a number that fits in `width` bytes and reading it back gives
/// the number.
pub proof fn lemma_be_value_of_bytes(value: nat, width: nat)
    requires
        value < pow(256, width),
    ensures
        be_value(be_bytes(value, width)) == value,
    decreases width,
{
    if width == 0 {
        lemma_pow0(256);
    } else {
        lemma_pow256_unfold(width);
        let rest = be_bytes(value / 256, (width - 1) as nat);
        lemma_be_value_of_bytes(value / 256, (width - 1) as nat);
        assert(rest.push((value % 256) as u8).drop_last() =~= rest);
    }
}

/// Reading a byte string and writing the number at the same width gives
/// the byte string.
pub proof fn lemma_be_bytes_of_value(bytes: Seq<u8>)
    ensures
        be_bytes(be_value(bytes), bytes.len()) == bytes,
    decreases bytes.len(),
{
    if bytes.len() > 0 {
        lemma_be_bytes_of_value(bytes.drop_last());
    }
}

/// Bytes that are all zero spell zero.
pub proof fn lemma_be_value_zeros(bytes: Seq<u8>)
    requires
        forall|i: int| 0 <= i < bytes.len() ==> bytes[i] == 0,
    ensures
        be_value(bytes) == 0,
    decreases bytes.len(),
{
    if bytes.len() > 0 {
        lemma_be_value_zeros(bytes.drop_last());
    }
}

/// The eight-byte big-endian form of `value`.
pub fn u64_to_be_bytes(value: u64) -> (out: [u8; 8])
    ensures
        out@ == be_bytes(value as nat, 8),
{
    let mut out = [0u8; 8];
    let mut rest: u64 = value;
    let mut i: usize = 8;
    while i > 0
        invariant
            i <= 8,
            be_bytes(value as nat, 8) == be_bytes(rest as nat, i as nat) + out@.subrange(
                i as int,
                8,
            ),
        decreases i,
    {
        i = i - 1;
        out[i] = (rest % 256) as u8;
        rest = rest / 256;
    }
    out
}

/// The eight-byte little-endian form of `value`.
pub fn u64_to_le_bytes(value: u64) -> (out: [u8; 8])
    ensures
        out@ == le_bytes(value as nat, 8),
{
    let mut out = [0u8; 8];
    let mut rest: u64 = value;
    let mut i: usize = 0;
    while i < 8
        invariant
            i <= 8,
            le_bytes(value as nat, 8) == out@.subrange(0, i as int) + le_bytes(
                rest as nat,
                (8 - i) as nat,
            ),
        decreases 8 - i,
    {
        out[i] = (rest % 256) as u8;
        rest = rest / 256;
        i = i + 1;
    }
    out
}

/// Reads the eight bytes of `bytes` that start at `at` as a big-endian
/// number.
pub(crate) fn read_u64_be(bytes: &[u8], at: usize) -> (value: u64)
    requires
        at + 8 <= bytes@.len(),
    ensures
        value == be_value(bytes@.subrange(at as int, at + 8)),
{
    let len: usize = bytes.len();
    let mut value: u64 = 0;
    let mut i: usize = 0;
    while i < 8
        invariant
            i <= 8,
            at + 8 <= len == bytes@.len(),
            value == be_value(bytes@.subrange(at as int, at + i)),
        decreases 8 - i,
    {
        proof {
            let seen = bytes@.subrange(at as int, at + i);
            lemma_be_value_bound(seen);
            lemma_pow256_8();
            if i < 7 {
                vstd::arithmetic::power::lemma_pow_increases(256, i as nat, 7);
            }
            let next = bytes@.subrange(at as int, at + i + 1);
            assert(next.drop_last() =~= seen);
        }
        value = value * 256 + bytes[at + i] as u64;
        i = i + 1;
    }
    value
}

} // verus!
