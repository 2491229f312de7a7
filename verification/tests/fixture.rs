use bucket_proof::balance::{RawBalance, RawBalances};
use bucket_proof::commitment::PublicCommitment;
use bucket_proof::fixture::{
    assemble_fixture, assemble_response, flag_text, proof_text, Fixture, ProofResponse,
};
use bucket_proof::variant::Variant;

fn commitment() -> PublicCommitment {
    PublicCommitment { agent_id: 258, wbtc: 10, eth: 30, doge: 60, is_valid: 1 }
}

#[test]
fn the_fixture_pairs_commitment_fingerprint_and_proof() {
    assert_eq!(
        assemble_fixture(&commitment(), "0x00ff", Variant::Groth16, &[0xca, 0xfe]),
        Fixture {
            agent: "0x0201000000000000".to_string(),
            wbtc_bal: "0x0a00000000000000".to_string(),
            eth_bal: "0x1e00000000000000".to_string(),
            doge_bal: "0x3c00000000000000".to_string(),
            is_valid: true,
            vkey: "0x00ff".to_string(),
            public_values:
                "0x0000000000000102000000000000000a000000000000001e000000000000003c0000000000000001"
                    .to_string(),
            proof_hex: "0xcafe".to_string(),
        }
    );
}

#[test]
fn a_zero_flag_is_shown_as_false() {
    let c = PublicCommitment { is_valid: 0, ..commitment() };
    let fixture = assemble_fixture(&c, "k", Variant::Plonk, &[1]);
    assert!(!fixture.is_valid);
    assert!(fixture.public_values.ends_with("0000000000000000"));
}

#[test]
fn the_proof_field_depends_on_the_variant() {
    assert_eq!(proof_text(Variant::Core, &[]), "0x");
    assert_eq!(proof_text(Variant::Core, &[1, 2, 3]), "0x");
    assert_eq!(proof_text(Variant::Plonk, &[1, 2, 3]), "0x010203");
    assert_eq!(proof_text(Variant::Groth16, &[1, 2, 3]), "0x010203");
    assert_eq!(proof_text(Variant::Groth16, &[]), "0x");
}

#[test]
fn the_flag_is_shown_as_a_short_hex_number() {
    assert_eq!(flag_text(true), "0x1");
    assert_eq!(flag_text(false), "0x0");
}

#[test]
fn the_response_mirrors_the_fixture() {
    let raw = RawBalances {
        wbtc: RawBalance::from_u128(1),
        eth: RawBalance::from_u128(0x1234),
        doge: RawBalance::from_u128(u128::MAX),
    };
    let fixture = assemble_fixture(&commitment(), "vk", Variant::Plonk, &[7]);
    assert_eq!(
        assemble_response("0xAgent", &raw, &fixture),
        ProofResponse {
            agent: "0xAgent".to_string(),
            wbtc_bal: "0x0000000000000000000000000000000000000000000000000000000000000001"
                .to_string(),
            eth_bal: "0x0000000000000000000000000000000000000000000000000000000000001234"
                .to_string(),
            doge_bal: "0x00000000000000000000000000000000ffffffffffffffffffffffffffffffff"
                .to_string(),
            is_valid: true,
            vkey: "vk".to_string(),
            public_values: vec![
                "0x0201000000000000".to_string(),
                "0x0a00000000000000".to_string(),
                "0x1e00000000000000".to_string(),
                "0x3c00000000000000".to_string(),
                "0x1".to_string(),
            ],
            proof_hex: "0x07".to_string(),
        }
    );
}
