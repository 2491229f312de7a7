//! The public commitment and its two byte forms.
//!
//! The canonical form is what the verifiable computation emits and what a
//! verifier consumes: five fields of eight bytes each, most significant byte
//! first, in the order agent id, the three balances, validity flag. The
//! display form is per field, least significant byte first, in hexadecimal;
//! it is what the fixture shows and is never parsed.

use crate::endian::{
    be_bytes, be_value, le_bytes, lemma_be_bytes_len, lemma_be_bytes_of_value,
    lemma_be_value_bound, lemma_be_value_of_bytes, lemma_pow256_8, read_u64_be, u64_to_be_bytes,
    u64_to_le_bytes,
};
use crate::hexfmt::{prefixed_hex, prefixed_hex_chars};
use vstd::prelude::*;

verus! {

/// Bytes that one field takes in the canonical form.
pub const FIELD_WIDTH: usize = 8;

/// Bytes that a commitment takes in the canonical form.
pub const COMMITMENT_LEN: usize = 40;

/// What a proving run makes public: whose balances were checked, the three
/// whole-unit balances that went into the check, and its verdict as 0 or 1.
#[derive(Clone, Copy, Debug, PartialEq, Eq, Structural)]
pub struct PublicCommitment {
    pub agent_id: u64,
    pub wbtc: u64,
    pub eth: u64,
    pub doge: u64,
    pub is_valid: u64,
}

/// Why a byte string is no commitment.
#[derive(Clone, Copy, Debug, PartialEq, Eq, Structural)]
pub enum DecodeError {
    /// The byte string is not `COMMITMENT_LEN` bytes long.
    InvalidLength,
    /// The validity field holds a number other than 0 and 1.
    InvalidFlag,
}

impl PublicCommitment {
    /// The validity flag is 0 or 1.
    pub open spec fn wf(&self) -> bool {
        self.is_valid <= 1
    }
}

/// The canonical form of a commitment.
pub open spec fn encoding(c: PublicCommitment) -> Seq<u8> {
    be_bytes(c.agent_id as nat, 8) + be_bytes(c.wbtc as nat, 8) + be_bytes(c.eth as nat, 8)
        + be_bytes(c.doge as nat, 8) + be_bytes(c.is_valid as nat, 8)
}

/// The number in the field at position `index` of `bytes`.
pub open spec fn field(bytes: Seq<u8>, index: int) -> nat {
    be_value(bytes.subrange(8 * index, 8 * index + 8))
}

/// What a byte string says as a commitment, or why it says nothing.
pub open spec fn decoding(bytes: Seq<u8>) -> Result<PublicCommitment, DecodeError> {
    if bytes.len() != 40 {
        Err(DecodeError::InvalidLength)
    } else if field(bytes, 4) > 1 {
        Err(DecodeError::InvalidFlag)
    } else {
        Ok(
            PublicCommitment {
                agent_id: field(bytes, 0) as u64,
                wbtc: field(bytes, 1) as u64,
                eth: field(bytes, 2) as u64,
                doge: field(bytes, 3) as u64,
                is_valid: field(bytes, 4) as u64,
            },
        )
    }
}

/// How a field's number is shown: its eight bytes, least significant first,
/// in hexadecimal.
pub open spec fn display_chars(value: u64) -> Seq<char> {
    prefixed_hex_chars(le_bytes(value as nat, 8))
}

/// Every field of a canonical form holds a 64-bit number.
pub proof fn lemma_field_fits(bytes: Seq<u8>, index: int)
    requires
        0 <= index,
        8 * index + 8 <= bytes.len(),
    ensures
        field(bytes, index) <= u64::MAX,
{
    lemma_be_value_bound(bytes.subrange(8 * index, 8 * index + 8));
    lemma_pow256_8();
}

/// The fields of a canonical form are the commitment's fields.
pub proof fn lemma_fields_of_encoding(c: PublicCommitment)
    ensures
        encoding(c).len() == 40,
        field(encoding(c), 0) == c.agent_id,
        field(encoding(c), 1) == c.wbtc,
        field(encoding(c), 2) == c.eth,
        field(encoding(c), 3) == c.doge,
        field(encoding(c), 4) == c.is_valid,
{
    let f0 = be_bytes(c.agent_id as nat, 8);
    let f1 = be_bytes(c.wbtc as nat, 8);
    let f2 = be_bytes(c.eth as nat, 8);
    let f3 = be_bytes(c.doge as nat, 8);
    let f4 = be_bytes(c.is_valid as nat, 8);
    lemma_be_bytes_len(c.agent_id as nat, 8);
    lemma_be_bytes_len(c.wbtc as nat, 8);
    lemma_be_bytes_len(c.eth as nat, 8);
    lemma_be_bytes_len(c.doge as nat, 8);
    lemma_be_bytes_len(c.is_valid as nat, 8);
    lemma_pow256_8();
    lemma_be_value_of_bytes(c.agent_id as nat, 8);
    lemma_be_value_of_bytes(c.wbtc as nat, 8);
    lemma_be_value_of_bytes(c.eth as nat, 8);
    lemma_be_value_of_bytes(c.doge as nat, 8);
    lemma_be_value_of_bytes(c.is_valid as nat, 8);
    let all = encoding(c);
    assert(all.subrange(0, 8) =~= f0);
    assert(all.subrange(8, 16) =~= f1);
    assert(all.subrange(16, 24) =~= f2);
    assert(all.subrange(24, 32) =~= f3);
    assert(all.subrange(32, 40) =~= f4);
}

/// Decoding the canonical form of a commitment whose flag is 0 or 1 gives
/// the commitment back; with any other flag it is refused for the flag.
pub proof fn decode_inverts_encode(c: PublicCommitment)
    ensures
        c.wf() ==> decoding(encoding(c)) == Ok::<PublicCommitment, DecodeError>(c),
        !c.wf() ==> decoding(encoding(c)) == Err::<PublicCommitment, DecodeError>(
            DecodeError::InvalidFlag,
        ),
{
    lemma_fields_of_encoding(c);
}

/// Encoding what a byte string decodes to gives the byte string back: every
/// commitment has one canonical form, and nothing else decodes.
pub proof fn encode_inverts_decode(bytes: Seq<u8>)
    requires
        decoding(bytes) is Ok,
    ensures
        encoding(decoding(bytes).unwrap()) == bytes,
        decoding(bytes).unwrap().wf(),
{
    let c = decoding(bytes).unwrap();
    lemma_field_fits(bytes, 0);
    lemma_field_fits(bytes, 1);
    lemma_field_fits(bytes, 2);
    lemma_field_fits(bytes, 3);
    lemma_field_fits(bytes, 4);
    lemma_be_bytes_of_value(bytes.subrange(0, 8));
    lemma_be_bytes_of_value(bytes.subrange(8, 16));
    lemma_be_bytes_of_value(bytes.subrange(16, 24));
    lemma_be_bytes_of_value(bytes.subrange(24, 32));
    lemma_be_bytes_of_value(bytes.subrange(32, 40));
}

/// Two commitments with the same canonical form are the same commitment.
pub proof fn encoding_is_injective(a: PublicCommitment, b: PublicCommitment)
    requires
        encoding(a) == encoding(b),
    ensures
        a == b,
{
    lemma_fields_of_encoding(a);
    lemma_fields_of_encoding(b);
}

/// Appends one field in the canonical form.
fn push_field(out: &mut Vec<u8>, value: u64)
    ensures
        final(out)@ == old(out)@ + be_bytes(value as nat, 8),
{
    let field = u64_to_be_bytes(value);
    let mut i: usize = 0;
    while i < 8
        invariant
            i <= 8,
            field@ == be_bytes(value as nat, 8),
            out@ == old(out)@ + field@.subrange(0, i as int),
        decreases 8 - i,
    {
        out.push(field[i]);
        i = i + 1;
    }
}

/// Writes a commitment in its canonical form.
pub fn encode(c: &PublicCommitment) -> (bytes: Vec<u8>)
    ensures
        bytes@ == encoding(*c),
        bytes@.len() == COMMITMENT_LEN,
{
    let mut bytes: Vec<u8> = Vec::new();
    push_field(&mut bytes, c.agent_id);
    push_field(&mut bytes, c.wbtc);
    push_field(&mut bytes, c.eth);
    push_field(&mut bytes, c.doge);
    push_field(&mut bytes, c.is_valid);
    proof {
        lemma_fields_of_encoding(*c);
    }
    bytes
}

/// Reads a commitment from its canonical form. A byte string of another
/// length is refused, and so is one whose validity field is not 0 or 1.
pub fn decode(bytes: &[u8]) -> (result: Result<PublicCommitment, DecodeError>)
    ensures
        result == decoding(bytes@),
{
    if bytes.len() != COMMITMENT_LEN {
        return Err(DecodeError::InvalidLength);
    }
    let is_valid: u64 = read_u64_be(bytes, 32);
    if is_valid > 1 {
        return Err(DecodeError::InvalidFlag);
    }
    Ok(
        PublicCommitment {
            agent_id: read_u64_be(bytes, 0),
            wbtc: read_u64_be(bytes, 8),
            eth: read_u64_be(bytes, 16),
            doge: read_u64_be(bytes, 24),
            is_valid,
        },
    )
}

/// Shows a field's number in the display form.
pub fn display_hex(value: u64) -> (text: String)
    ensures
        text@ == display_chars(value),
{
    let bytes = u64_to_le_bytes(value);
    prefixed_hex(bytes.as_slice())
}

} // verus!
