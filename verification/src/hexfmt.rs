//! Hexadecimal text for byte strings, as the fixture and the response show
//! them.

use vstd::prelude::*;
use vstd::string::StringExecFns;

verus! {

/// The sixteen digits, in order of their value.
pub open spec fn hex_alphabet() -> Seq<char> {
    seq!['0', '1', '2', '3', '4', '5', '6', '7', '8', '9', 'a', 'b', 'c', 'd', 'e', 'f']
}

/// Two lower-case digits for each byte, the high half first.
pub open spec fn hex_chars(bytes: Seq<u8>) -> Seq<char> {
    Seq::new(
        2 * bytes.len(),
        |i: int|
            hex_alphabet()[if i % 2 == 0 {
                bytes[i / 2] as int / 16
            } else {
                bytes[i / 2] as int % 16
            }],
    )
}

/// The marker that opens every hexadecimal string.
pub open spec fn hex_prefix() -> Seq<char> {
    seq!['0', 'x']
}

/// `bytes` in digits behind the marker.
pub open spec fn prefixed_hex_chars(bytes: Seq<u8>) -> Seq<char> {
    hex_prefix() + hex_chars(bytes)
}

/// Calls `hex::encode`, which writes each byte as two characters taken from
/// the table `0123456789abcdef`: first the one for the byte's upper four
/// bits, then the one for its lower four. The contract is trusted.
#[verifier::external_body]
pub(crate) fn hex_encode(bytes: &[u8]) -> (text: String)
    ensures
        text@ == hex_chars(bytes@),
{
    hex::encode(bytes)
}

/// The text `0x` followed by the digits of `bytes`.
pub fn prefixed_hex(bytes: &[u8]) -> (text: String)
    ensures
        text@ == prefixed_hex_chars(bytes@),
{
    let digits = hex_encode(bytes);
    let text = String::from_str("0x").concat(digits.as_str());
    proof {
        reveal_strlit("0x");
    }
    text
}

/// Some digits follow the marker exactly when there is a byte to show.
pub proof fn lemma_prefixed_hex_len(bytes: Seq<u8>)
    ensures
        prefixed_hex_chars(bytes).len() == 2 + 2 * bytes.len(),
        prefixed_hex_chars(bytes) == hex_prefix() <==> bytes.len() == 0,
{
}

} // verus!
