//! The fixture that a completed request leaves behind, and the response
//! that mirrors it.

use crate::balance::RawBalances;
use crate::commitment::{display_chars, display_hex, encode, encoding, PublicCommitment};
use crate::hexfmt::{hex_prefix, lemma_prefixed_hex_len, prefixed_hex, prefixed_hex_chars};
use crate::variant::Variant;
use vstd::prelude::*;
use vstd::string::StringExecFns;

verus! {

/// The record that pairs a commitment with the verifying-key fingerprint
/// and the proof. The four commitment fields are in the display form,
/// `public_values` is the canonical form in hexadecimal, and `proof_hex` is
/// the proof in hexadecimal, or the bare marker `0x` where the backend
/// gives no bytes that a chain can verify.
#[derive(Debug, PartialEq, Eq)]
pub struct Fixture {
    pub agent: String,
    pub wbtc_bal: String,
    pub eth_bal: String,
    pub doge_bal: String,
    pub is_valid: bool,
    pub vkey: String,
    pub public_values: String,
    pub proof_hex: String,
}

/// A fixture as plain values.
pub struct FixtureView {
    pub agent: Seq<char>,
    pub wbtc_bal: Seq<char>,
    pub eth_bal: Seq<char>,
    pub doge_bal: Seq<char>,
    pub is_valid: bool,
    pub vkey: Seq<char>,
    pub public_values: Seq<char>,
    pub proof_hex: Seq<char>,
}

impl View for Fixture {
    type V = FixtureView;

    open spec fn view(&self) -> FixtureView {
        FixtureView {
            agent: self.agent@,
            wbtc_bal: self.wbtc_bal@,
            eth_bal: self.eth_bal@,
            doge_bal: self.doge_bal@,
            is_valid: self.is_valid,
            vkey: self.vkey@,
            public_values: self.public_values@,
            proof_hex: self.proof_hex@,
        }
    }
}

/// What the caller gets back: the request's agent, the raw balances at
/// their full width of 256 bits, and the fixture's verdict, fingerprint,
/// committed values and proof.
#[derive(Debug, PartialEq, Eq)]
pub struct ProofResponse {
    pub agent: String,
    pub wbtc_bal: String,
    pub eth_bal: String,
    pub doge_bal: String,
    pub is_valid: bool,
    pub vkey: String,
    pub public_values: Vec<String>,
    pub proof_hex: String,
}

/// A response as plain values.
pub struct ProofResponseView {
    pub agent: Seq<char>,
    pub wbtc_bal: Seq<char>,
    pub eth_bal: Seq<char>,
    pub doge_bal: Seq<char>,
    pub is_valid: bool,
    pub vkey: Seq<char>,
    pub public_values: Seq<Seq<char>>,
    pub proof_hex: Seq<char>,
}

impl View for ProofResponse {
    type V = ProofResponseView;

    open spec fn view(&self) -> ProofResponseView {
        ProofResponseView {
            agent: self.agent@,
            wbtc_bal: self.wbtc_bal@,
            eth_bal: self.eth_bal@,
            doge_bal: self.doge_bal@,
            is_valid: self.is_valid,
            vkey: self.vkey@,
            public_values: Seq::new(
                self.public_values@.len(),
                |i: int| self.public_values@[i]@,
            ),
            proof_hex: self.proof_hex@,
        }
    }
}

/// The proof field: the proof's bytes in hexadecimal for a backend whose
/// proofs a chain can verify, the bare marker for one whose proofs it
/// cannot.
pub open spec fn proof_chars(variant: Variant, proof_bytes: Seq<u8>) -> Seq<char> {
    if variant.is_chain_verifiable_spec() {
        prefixed_hex_chars(proof_bytes)
    } else {
        hex_prefix()
    }
}

/// The validity flag as the last of the committed values.
pub open spec fn flag_chars(is_valid: bool) -> Seq<char> {
    hex_prefix().push(
        if is_valid {
            '1'
        } else {
            '0'
        },
    )
}

/// The fixture for a decoded commitment.
pub open spec fn fixture_of(
    c: PublicCommitment,
    vkey: Seq<char>,
    variant: Variant,
    proof_bytes: Seq<u8>,
) -> FixtureView {
    FixtureView {
        agent: display_chars(c.agent_id),
        wbtc_bal: display_chars(c.wbtc),
        eth_bal: display_chars(c.eth),
        doge_bal: display_chars(c.doge),
        is_valid: c.is_valid != 0,
        vkey,
        public_values: prefixed_hex_chars(encoding(c)),
        proof_hex: proof_chars(variant, proof_bytes),
    }
}

/// The response for a request's agent text, the raw balances that were
/// fetched for it, and the fixture that its proof gave.
pub open spec fn response_of(agent: Seq<char>, raw: RawBalances, fixture: FixtureView)
    -> ProofResponseView {
    ProofResponseView {
        agent,
        wbtc_bal: prefixed_hex_chars(raw.wbtc.be_bytes@),
        eth_bal: prefixed_hex_chars(raw.eth.be_bytes@),
        doge_bal: prefixed_hex_chars(raw.doge.be_bytes@),
        is_valid: fixture.is_valid,
        vkey: fixture.vkey,
        public_values: seq![
            fixture.agent,
            fixture.wbtc_bal,
            fixture.eth_bal,
            fixture.doge_bal,
            flag_chars(fixture.is_valid),
        ],
        proof_hex: fixture.proof_hex,
    }
}

/// Writes the proof field.
pub fn proof_text(variant: Variant, proof_bytes: &[u8]) -> (text: String)
    ensures
        text@ == proof_chars(variant, proof_bytes@),
{
    if variant.is_chain_verifiable() {
        prefixed_hex(proof_bytes)
    } else {
        proof {
            reveal_strlit("0x");
        }
        String::from_str("0x")
    }
}

/// Writes the validity flag as a committed value.
pub fn flag_text(is_valid: bool) -> (text: String)
    ensures
        text@ == flag_chars(is_valid),
{
    proof {
        reveal_strlit("0x1");
        reveal_strlit("0x0");
    }
    if is_valid {
        String::from_str("0x1")
    } else {
        String::from_str("0x0")
    }
}

/// Builds the fixture for a decoded commitment, the fingerprint of the
/// verifying key, and the proof's bytes. For a backend whose proofs no chain
/// can verify the bytes are not looked at.
pub fn assemble_fixture(c: &PublicCommitment, vkey: &str, variant: Variant, proof_bytes: &[u8])
    -> (fixture: Fixture)
    ensures
        fixture@ == fixture_of(*c, vkey@, variant, proof_bytes@),
{
    let canonical = encode(c);
    Fixture {
        agent: display_hex(c.agent_id),
        wbtc_bal: display_hex(c.wbtc),
        eth_bal: display_hex(c.eth),
        doge_bal: display_hex(c.doge),
        is_valid: c.is_valid != 0,
        vkey: String::from_str(vkey),
        public_values: prefixed_hex(canonical.as_slice()),
        proof_hex: proof_text(variant, proof_bytes),
    }
}

/// Builds the response that mirrors a fixture.
pub fn assemble_response(agent: &str, raw: &RawBalances, fixture: &Fixture) -> (response:
    ProofResponse)
    ensures
        response@ == response_of(agent@, *raw, fixture@),
{
    let mut public_values: Vec<String> = Vec::new();
    public_values.push(fixture.agent.clone());
    public_values.push(fixture.wbtc_bal.clone());
    public_values.push(fixture.eth_bal.clone());
    public_values.push(fixture.doge_bal.clone());
    public_values.push(flag_text(fixture.is_valid));
    let response = ProofResponse {
        agent: String::from_str(agent),
        wbtc_bal: raw.wbtc.hex(),
        eth_bal: raw.eth.hex(),
        doge_bal: raw.doge.hex(),
        is_valid: fixture.is_valid,
        vkey: fixture.vkey.clone(),
        public_values,
        proof_hex: fixture.proof_hex.clone(),
    };
    assert(response@.public_values =~= response_of(agent@, *raw, fixture@).public_values);
    response
}

/// A backend whose proofs no chain can verify always gets the bare marker;
/// the others get the marker followed by two digits for each byte of the
/// proof, so more than the marker whenever the proof has a byte.
pub proof fn proof_field_by_variant(variant: Variant, proof_bytes: Seq<u8>)
    ensures
        variant == Variant::Core ==> proof_chars(variant, proof_bytes) == hex_prefix(),
        variant != Variant::Core ==> proof_chars(variant, proof_bytes) == prefixed_hex_chars(
            proof_bytes,
        ),
        variant != Variant::Core ==> proof_chars(variant, proof_bytes).len() == 2 + 2
            * proof_bytes.len(),
        variant != Variant::Core && proof_bytes.len() > 0 ==> proof_chars(variant, proof_bytes)
            != hex_prefix(),
{
    lemma_prefixed_hex_len(proof_bytes);
}

} // verus!
