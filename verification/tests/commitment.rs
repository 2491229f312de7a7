use bucket_proof::commitment::{
    decode, display_hex, encode, DecodeError, PublicCommitment, COMMITMENT_LEN, FIELD_WIDTH,
};

fn sample() -> PublicCommitment {
    PublicCommitment { agent_id: 1, wbtc: 2, eth: 3, doge: 4, is_valid: 1 }
}

#[test]
fn canonical_form_has_five_fields_of_eight_bytes() {
    assert_eq!(FIELD_WIDTH, 8);
    assert_eq!(COMMITMENT_LEN, 5 * FIELD_WIDTH);
    assert_eq!(encode(&sample()).len(), COMMITMENT_LEN);
}

#[test]
fn canonical_form_is_big_endian_in_field_order() {
    assert_eq!(
        encode(&sample()),
        vec![
            0, 0, 0, 0, 0, 0, 0, 1, 0, 0, 0, 0, 0, 0, 0, 2, 0, 0, 0, 0, 0, 0, 0, 3, 0, 0, 0, 0, 0,
            0, 0, 4, 0, 0, 0, 0, 0, 0, 0, 1
        ]
    );
    let c = PublicCommitment {
        agent_id: 0x0102030405060708,
        wbtc: u64::MAX,
        eth: 0,
        doge: 256,
        is_valid: 0,
    };
    let mut expected = Vec::new();
    expected.extend_from_slice(&[1, 2, 3, 4, 5, 6, 7, 8]);
    expected.extend_from_slice(&[0xff; 8]);
    expected.extend_from_slice(&[0; 8]);
    expected.extend_from_slice(&[0, 0, 0, 0, 0, 0, 1, 0]);
    expected.extend_from_slice(&[0; 8]);
    assert_eq!(encode(&c), expected);
}

#[test]
fn fields_sit_at_fixed_offsets() {
    let c = PublicCommitment { agent_id: 11, wbtc: 22, eth: 33, doge: 44, is_valid: 1 };
    let bytes = encode(&c);
    for (index, value) in [11u64, 22, 33, 44, 1].into_iter().enumerate() {
        let at = index * FIELD_WIDTH;
        assert_eq!(bytes[at..at + FIELD_WIDTH], value.to_be_bytes());
    }
}

#[test]
fn decode_inverts_encode_on_samples() {
    let values = [0u64, 1, 10, 30, 60, 255, 256, 0xdead_beef_cafe_f00d, u64::MAX];
    for &agent_id in &values {
        for &balance in &values {
            for is_valid in [0u64, 1] {
                let c = PublicCommitment {
                    agent_id,
                    wbtc: balance,
                    eth: balance.wrapping_add(1),
                    doge: balance.wrapping_mul(3),
                    is_valid,
                };
                assert_eq!(decode(&encode(&c)), Ok(c));
            }
        }
    }
}

#[test]
fn encode_inverts_decode_on_samples() {
    let mut bytes = [0u8; 40];
    for (i, byte) in bytes.iter_mut().enumerate() {
        *byte = (i as u8).wrapping_mul(37).wrapping_add(11);
    }
    bytes[32..40].copy_from_slice(&[0, 0, 0, 0, 0, 0, 0, 1]);
    let c = decode(&bytes).unwrap();
    assert_eq!(encode(&c), bytes.to_vec());
    bytes[39] = 0;
    let c = decode(&bytes).unwrap();
    assert_eq!(encode(&c), bytes.to_vec());
}

#[test]
fn decode_refuses_other_lengths() {
    let bytes = encode(&sample());
    assert_eq!(decode(&[]), Err(DecodeError::InvalidLength));
    assert_eq!(decode(&bytes[..39]), Err(DecodeError::InvalidLength));
    assert_eq!(decode(&bytes[..8]), Err(DecodeError::InvalidLength));
    let mut longer = bytes.clone();
    longer.push(0);
    assert_eq!(decode(&longer), Err(DecodeError::InvalidLength));
    assert_eq!(decode(&[0u8; 160]), Err(DecodeError::InvalidLength));
}

#[test]
fn decode_refuses_flags_other_than_zero_and_one() {
    for flag in [2u64, 3, 255, 256, 1 << 8, 1 << 56, u64::MAX] {
        let c = PublicCommitment { agent_id: 1, wbtc: 10, eth: 30, doge: 60, is_valid: flag };
        assert_eq!(decode(&encode(&c)), Err(DecodeError::InvalidFlag));
    }
    let mut bytes = encode(&sample());
    bytes[32] = 1;
    assert_eq!(decode(&bytes), Err(DecodeError::InvalidFlag));
}

#[test]
fn a_wrong_length_is_reported_before_a_bad_flag() {
    let c = PublicCommitment { agent_id: 1, wbtc: 10, eth: 30, doge: 60, is_valid: 7 };
    let mut bytes = encode(&c);
    bytes.push(0);
    assert_eq!(decode(&bytes), Err(DecodeError::InvalidLength));
}

#[test]
fn decode_reads_each_field() {
    let mut bytes = Vec::new();
    bytes.extend_from_slice(&0xd8da6bf26964af9d_u64.to_be_bytes());
    bytes.extend_from_slice(&10u64.to_be_bytes());
    bytes.extend_from_slice(&30u64.to_be_bytes());
    bytes.extend_from_slice(&60u64.to_be_bytes());
    bytes.extend_from_slice(&1u64.to_be_bytes());
    assert_eq!(
        decode(&bytes),
        Ok(PublicCommitment {
            agent_id: 0xd8da6bf26964af9d,
            wbtc: 10,
            eth: 30,
            doge: 60,
            is_valid: 1
        })
    );
}

#[test]
fn display_form_is_little_endian_hex() {
    assert_eq!(display_hex(10), "0x0a00000000000000");
    assert_eq!(display_hex(0), "0x0000000000000000");
    assert_eq!(display_hex(0xd8da6bf26964af9d), "0x9daf6469f26bdad8");
    assert_eq!(display_hex(u64::MAX), "0xffffffffffffffff");
}

#[test]
fn display_form_differs_from_the_canonical_bytes() {
    let c = PublicCommitment { agent_id: 10, wbtc: 10, eth: 30, doge: 60, is_valid: 1 };
    let canonical = encode(&c);
    assert_eq!(canonical[..8], [0, 0, 0, 0, 0, 0, 0, 10]);
    assert_eq!(display_hex(c.agent_id), "0x0a00000000000000");
}
