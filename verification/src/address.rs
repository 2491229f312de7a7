//! Chain addresses and the agent identifier derived from one.

use crate::endian::{be_value, read_u64_be};
use alloy::primitives::Address;
use vstd::prelude::*;

verus! {

/// The 20 bytes that a text stands for as a checksummed address, or `None`
/// where it is not one. The checksum is a hash of the address's own digits,
/// so this is a function of the text alone; it is computed by the outside
/// parser and not defined here.
pub uninterp spec fn checksummed_address(text: Seq<char>) -> Option<Seq<u8>>;

/// A parsed address as plain bytes.
pub open spec fn address_bytes(parsed: Option<[u8; 20]>) -> Option<Seq<u8>> {
    match parsed {
        Some(address) => Some(address@),
        None => None,
    }
}

/// The identifier of the agent at `address`: the address's first eight
/// bytes as one number, most significant byte first. Addresses that agree
/// in those bytes share an identifier.
pub open spec fn agent_id_of(address: Seq<u8>) -> nat {
    be_value(address.subrange(0, 8))
}

/// Calls `alloy::primitives::Address::parse_checksummed` with no chain id,
/// which accepts a text only if it starts with `0x`, holds the 40 digits of
/// an address and spells them in the case that the address's checksum
/// prescribes. The result is named, not described; the contract is
/// trusted.
#[verifier::external_body]
pub(crate) fn parse_checksummed(text: &str) -> (parsed: Option<[u8; 20]>)
    ensures
        address_bytes(parsed) == checksummed_address(text@),
{
    match Address::parse_checksummed(text, None) {
        Ok(address) => Some(address.into_array()),
        Err(_) => None,
    }
}

/// Derives the agent identifier from an address.
pub fn agent_id(address: &[u8; 20]) -> (id: u64)
    ensures
        id == agent_id_of(address@),
{
    read_u64_be(address.as_slice(), 0)
}

} // verus!
