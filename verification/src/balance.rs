//! Raw token balances and their normalisation to whole units.

use crate::endian::{
    be_bytes, be_value, lemma_be_value_bound, lemma_be_value_concat, lemma_be_value_of_bytes,
    lemma_be_value_zeros, lemma_pow256_8, read_u64_be,
};
use crate::hexfmt::{prefixed_hex, prefixed_hex_chars};
use alloy::primitives::U256;
use vstd::arithmetic::div_mod::lemma_basic_div;
use vstd::arithmetic::power::{lemma_pow1, lemma_pow_adds, lemma_pow_increases, pow};
use vstd::prelude::*;

verus! {

/// 2^256, the first value that no raw balance holds.
pub open spec fn two_pow_256() -> nat {
    0x1_0000_0000_0000_0000_0000_0000_0000_0000_0000_0000_0000_0000_0000_0000_0000_0000nat
}

/// The largest number of decimals for which a power of ten still is a
/// 256-bit value.
pub const MAX_EXACT_DECIMALS: u8 = 77;

/// An on-chain token balance before decimal adjustment: an unsigned 256-bit
/// integer, held as its 32 bytes, most significant first.
#[derive(Clone, Copy, Debug, PartialEq, Eq)]
pub struct RawBalance {
    pub be_bytes: [u8; 32],
}

impl View for RawBalance {
    type V = nat;

    open spec fn view(&self) -> nat {
        be_value(self.be_bytes@)
    }
}

/// The raw balances of the three tracked assets, as fetched.
#[derive(Clone, Copy, Debug, PartialEq, Eq)]
pub struct RawBalances {
    pub wbtc: RawBalance,
    pub eth: RawBalance,
    pub doge: RawBalance,
}

/// Why a raw balance has no whole-unit value.
#[derive(Clone, Copy, Debug, PartialEq, Eq)]
pub enum NormalizationError {
    /// The whole-unit value does not fit in 64 bits.
    Overflow,
}

/// 256^32 is 2^256.
pub proof fn lemma_pow256_32()
    ensures
        pow(256, 32) == two_pow_256(),
{
    lemma_pow256_8();
    lemma_pow_adds(256, 8, 8);
    lemma_pow_adds(256, 16, 16);
    let radix8 = pow(256, 8);
    let radix16 = pow(256, 16);
    assert(radix16 == 0x1_0000_0000_0000_0000_0000_0000_0000_0000int) by (nonlinear_arith)
        requires
            radix16 == radix8 * radix8,
            radix8 == 0x1_0000_0000_0000_0000,
    ;
    assert(radix16 * radix16 == 0x1_0000_0000_0000_0000_0000_0000_0000_0000_0000_0000_0000_0000_0000_0000_0000_0000int) by (nonlinear_arith)
        requires
            radix16 == 0x1_0000_0000_0000_0000_0000_0000_0000_0000int,
    ;
}

/// Every raw balance is below 2^256.
pub proof fn lemma_raw_balance_bound(raw: RawBalance)
    ensures
        raw@ < two_pow_256(),
{
    lemma_be_value_bound(raw.be_bytes@);
    lemma_pow256_32();
}

/// Ten to the 77th power still is a 256-bit value; ten to the 78th is not.
pub proof fn lemma_pow10_limits()
    ensures
        0 < pow(10, 77) < two_pow_256(),
        pow(10, 78) >= two_pow_256(),
{
    lemma_pow1(10);
    lemma_pow_adds(10, 1, 1);
    lemma_pow_adds(10, 2, 2);
    lemma_pow_adds(10, 4, 4);
    lemma_pow_adds(10, 8, 8);
    lemma_pow_adds(10, 16, 16);
    lemma_pow_adds(10, 32, 32);
    lemma_pow_adds(10, 64, 8);
    lemma_pow_adds(10, 72, 4);
    lemma_pow_adds(10, 76, 1);
    lemma_pow_adds(10, 77, 1);
    let ten1 = pow(10, 1);
    let ten2 = pow(10, 2);
    let ten4 = pow(10, 4);
    let ten8 = pow(10, 8);
    let ten16 = pow(10, 16);
    let ten32 = pow(10, 32);
    let ten64 = pow(10, 64);
    let ten72 = pow(10, 72);
    let ten76 = pow(10, 76);
    let ten77 = pow(10, 77);
    let ten78 = pow(10, 78);
    assert(ten2 == 100) by (nonlinear_arith)
        requires
            ten2 == ten1 * ten1,
            ten1 == 10,
    ;
    assert(ten4 == 10000) by (nonlinear_arith)
        requires
            ten4 == ten2 * ten2,
            ten2 == 100,
    ;
    assert(ten8 == 100000000) by (nonlinear_arith)
        requires
            ten8 == ten4 * ten4,
            ten4 == 10000,
    ;
    assert(ten16 == 10000000000000000) by (nonlinear_arith)
        requires
            ten16 == ten8 * ten8,
            ten8 == 100000000,
    ;
    assert(ten32 == 100000000000000000000000000000000int) by (nonlinear_arith)
        requires
            ten32 == ten16 * ten16,
            ten16 == 10000000000000000,
    ;
    assert(ten64 == 10000000000000000000000000000000000000000000000000000000000000000int)
        by (nonlinear_arith)
        requires
            ten64 == ten32 * ten32,
            ten32 == 100000000000000000000000000000000int,
    ;
    assert(ten72 == 1000000000000000000000000000000000000000000000000000000000000000000000000int)
        by (nonlinear_arith)
        requires
            ten72 == ten64 * ten8,
            ten64 == 10000000000000000000000000000000000000000000000000000000000000000int,
            ten8 == 100000000,
    ;
    assert(ten76
        == 10000000000000000000000000000000000000000000000000000000000000000000000000000int)
        by (nonlinear_arith)
        requires
            ten76 == ten72 * ten4,
            ten72 == 1000000000000000000000000000000000000000000000000000000000000000000000000int,
            ten4 == 10000,
    ;
    assert(ten77
        == 100000000000000000000000000000000000000000000000000000000000000000000000000000int)
        by (nonlinear_arith)
        requires
            ten77 == ten76 * ten1,
            ten76
                == 10000000000000000000000000000000000000000000000000000000000000000000000000000int,
            ten1 == 10,
    ;
    assert(ten78
        == 1000000000000000000000000000000000000000000000000000000000000000000000000000000int)
        by (nonlinear_arith)
        requires
            ten78 == ten77 * ten1,
            ten77
                == 100000000000000000000000000000000000000000000000000000000000000000000000000000int,
            ten1 == 10,
    ;
}

/// Calls `ruint::Uint::pow` on 256-bit integers made from `base` and
/// `exponent`. The crate documents that the power wraps around on overflow,
/// so the result is the true power modulo 2^256, here written out as 32
/// bytes, most significant first. The contract is trusted.
#[verifier::external_body]
fn u256_pow(base: u64, exponent: u64) -> (power: [u8; 32])
    ensures
        be_value(power@) == pow(base as int, exponent as nat) % (two_pow_256() as int),
{
    U256::from(base).pow(U256::from(exponent)).to_be_bytes::<32>()
}

/// Calls the division of `ruint::Uint` on two 256-bit integers given as 32
/// bytes each, most significant first. The crate documents that it rounds
/// down and panics on a zero divisor, which `requires` leaves out. The
/// contract is trusted.
#[verifier::external_body]
fn u256_div(dividend: &[u8; 32], divisor: &[u8; 32]) -> (quotient: [u8; 32])
    requires
        be_value(divisor@) != 0,
    ensures
        be_value(quotient@) == be_value(dividend@) / be_value(divisor@),
{
    let n = U256::from_be_bytes::<32>(*dividend);
    let d = U256::from_be_bytes::<32>(*divisor);
    (n / d).to_be_bytes::<32>()
}

impl RawBalance {
    /// The balance that the 32 bytes spell, most significant byte first.
    pub fn from_be_bytes(bytes: [u8; 32]) -> (raw: RawBalance)
        ensures
            raw.be_bytes == bytes,
    {
        RawBalance { be_bytes: bytes }
    }

    /// The balance `value`.
    pub fn from_u128(value: u128) -> (raw: RawBalance)
        ensures
            raw@ == value,
            raw.be_bytes@ == be_bytes(value as nat, 32),
    {
        let mut out = [0u8; 32];
        let mut rest: u128 = value;
        let mut i: usize = 32;
        while i > 0
            invariant
                i <= 32,
                be_bytes(value as nat, 32) == be_bytes(rest as nat, i as nat) + out@.subrange(
                    i as int,
                    32,
                ),
            decreases i,
        {
            i = i - 1;
            out[i] = (rest % 256) as u8;
            rest = rest / 256;
        }
        proof {
            assert(out@.subrange(0, 32) =~= out@);
            lemma_pow256_32();
            lemma_be_value_of_bytes(value as nat, 32);
        }
        RawBalance { be_bytes: out }
    }

    /// The balance as a 64-bit integer, where it is one.
    pub fn to_u64(&self) -> (small: Option<u64>)
        ensures
            small is Some <==> self@ <= u64::MAX,
            small matches Some(value) ==> value == self@,
    {
        let mut i: usize = 0;
        while i < 24
            invariant
                i <= 24,
                forall|k: int| 0 <= k < i ==> self.be_bytes@[k] == 0,
            decreases 24 - i,
        {
            if self.be_bytes[i] != 0 {
                proof {
                    lemma_high_byte(self.be_bytes@, i as int);
                    lemma_pow256_8();
                    lemma_pow_increases(256, 8, (31 - i) as nat);
                }
                return None;
            }
            i = i + 1;
        }
        let value: u64 = read_u64_be(self.be_bytes.as_slice(), 24);
        proof {
            let all = self.be_bytes@;
            let head = all.subrange(0, 24);
            let tail = all.subrange(24, 32);
            assert(all =~= head + tail);
            lemma_be_value_concat(head, tail);
            lemma_be_value_zeros(head);
            assert(be_value(head) * pow(256, tail.len()) == 0) by (nonlinear_arith)
                requires
                    be_value(head) == 0,
            ;
        }
        Some(value)
    }

    /// The balance in hexadecimal, at its full width of 256 bits.
    pub fn hex(&self) -> (text: String)
        ensures
            text@ == prefixed_hex_chars(self.be_bytes@),
    {
        prefixed_hex(self.be_bytes.as_slice())
    }
}

/// A byte that is not zero puts the whole above the weight of its place.
proof fn lemma_high_byte(bytes: Seq<u8>, at: int)
    requires
        0 <= at < bytes.len(),
        bytes[at] != 0,
    ensures
        be_value(bytes) >= pow(256, (bytes.len() - 1 - at) as nat),
{
    let head = bytes.subrange(0, at + 1);
    let tail = bytes.subrange(at + 1, bytes.len() as int);
    assert(bytes =~= head + tail);
    lemma_be_value_concat(head, tail);
    let above = be_value(head) as int;
    let weight = pow(256, tail.len());
    vstd::arithmetic::power::lemma_pow_positive(256, tail.len());
    assert(above * weight >= weight) by (nonlinear_arith)
        requires
            above >= 1,
            weight > 0,
    ;
}

/// What `raw` is worth in whole units of a token with `decimals` decimals.
pub open spec fn whole_units(raw: nat, decimals: nat) -> int {
    raw as int / pow(10, decimals)
}

/// A whole-unit value is never negative and never above the raw value.
pub proof fn lemma_whole_units_range(raw: nat, decimals: nat)
    ensures
        0 <= whole_units(raw, decimals) <= raw,
{
    vstd::arithmetic::power::lemma_pow_positive(10, decimals);
    vstd::arithmetic::div_mod::lemma_div_pos_is_pos(raw as int, pow(10, decimals));
    vstd::arithmetic::div_mod::lemma_div_is_ordered_by_denominator(
        raw as int,
        1,
        pow(10, decimals),
    );
}

/// With no decimals a balance is its own whole-unit value, and a balance of
/// zero is zero whole units whatever the decimals.
pub proof fn whole_units_at_the_edges(raw: nat, decimals: nat)
    ensures
        whole_units(raw, 0) == raw,
        whole_units(0, decimals) == 0,
{
    vstd::arithmetic::power::lemma_pow0(10);
    vstd::arithmetic::power::lemma_pow_positive(10, decimals);
    lemma_basic_div(0, pow(10, decimals));
}

/// Divides `raw` by ten to the power of `decimals`, rounding down, and
/// returns the quotient where it fits in 64 bits.
pub fn normalize(raw: &RawBalance, decimals: u8) -> (result: Result<u64, NormalizationError>)
    ensures
        result is Ok <==> whole_units(raw@, decimals as nat) <= u64::MAX,
        result matches Ok(units) ==> units == whole_units(raw@, decimals as nat),
        result matches Err(e) ==> e == NormalizationError::Overflow,
{
    proof {
        lemma_raw_balance_bound(*raw);
        lemma_pow10_limits();
    }
    if decimals > MAX_EXACT_DECIMALS {
        proof {
            lemma_pow_increases(10, 78, decimals as nat);
            lemma_basic_div(raw@ as int, pow(10, decimals as nat));
        }
        return Ok(0);
    }
    let divisor: [u8; 32] = u256_pow(10, decimals as u64);
    proof {
        lemma_pow_increases(10, decimals as nat, 77);
        vstd::arithmetic::power::lemma_pow_positive(10, decimals as nat);
        vstd::arithmetic::div_mod::lemma_small_mod(
            pow(10, decimals as nat) as nat,
            two_pow_256(),
        );
    }
    let quotient = RawBalance { be_bytes: u256_div(&raw.be_bytes, &divisor) };
    match quotient.to_u64() {
        Some(units) => Ok(units),
        None => Err(NormalizationError::Overflow),
    }
}

} // verus!
