use alloy::primitives::U256;
use bucket_proof::balance::{normalize, NormalizationError, RawBalance};

const E18: u128 = 1_000_000_000_000_000_000;

fn raw_of(value: U256) -> RawBalance {
    RawBalance::from_be_bytes(value.to_be_bytes::<32>())
}

#[test]
fn ten_whole_units_normalize_to_ten() {
    assert_eq!(normalize(&RawBalance::from_u128(10 * E18), 18), Ok(10));
}

#[test]
fn two_to_the_64_whole_units_overflow() {
    let raw = RawBalance::from_u128((1u128 << 64) * E18);
    assert_eq!(normalize(&raw, 18), Err(NormalizationError::Overflow));
}

#[test]
fn the_largest_whole_unit_value_still_fits() {
    let raw = RawBalance::from_u128((u64::MAX as u128) * E18 + (E18 - 1));
    assert_eq!(normalize(&raw, 18), Ok(u64::MAX));
}

#[test]
fn normalization_rounds_down() {
    assert_eq!(normalize(&RawBalance::from_u128(E18 - 1), 18), Ok(0));
    assert_eq!(normalize(&RawBalance::from_u128(E18), 18), Ok(1));
    assert_eq!(normalize(&RawBalance::from_u128(11 * E18 - 1), 18), Ok(10));
    assert_eq!(normalize(&RawBalance::from_u128(1999), 3), Ok(1));
}

#[test]
fn zero_decimals_divide_by_one() {
    assert_eq!(normalize(&RawBalance::from_u128(0), 0), Ok(0));
    assert_eq!(normalize(&RawBalance::from_u128(12345), 0), Ok(12345));
    assert_eq!(normalize(&RawBalance::from_u128(u64::MAX as u128), 0), Ok(u64::MAX));
    assert_eq!(
        normalize(&RawBalance::from_u128(u64::MAX as u128 + 1), 0),
        Err(NormalizationError::Overflow)
    );
}

#[test]
fn zero_normalizes_to_zero_for_every_number_of_decimals() {
    for decimals in 0..=255u8 {
        assert_eq!(normalize(&RawBalance::from_u128(0), decimals), Ok(0));
    }
}

#[test]
fn the_largest_raw_balance_by_decimals() {
    let max = raw_of(U256::MAX);
    assert_eq!(normalize(&max, 0), Err(NormalizationError::Overflow));
    assert_eq!(normalize(&max, 18), Err(NormalizationError::Overflow));
    assert_eq!(normalize(&max, 57), Err(NormalizationError::Overflow));
    assert_eq!(normalize(&max, 58), Ok(11579208923731619542));
    assert_eq!(normalize(&max, 76), Ok(11));
    assert_eq!(normalize(&max, 77), Ok(1));
    assert_eq!(normalize(&max, 78), Ok(0));
    assert_eq!(normalize(&max, 200), Ok(0));
    assert_eq!(normalize(&max, 255), Ok(0));
}

#[test]
fn normalization_agrees_with_division_of_256_bit_integers() {
    let samples = [
        U256::from(0u64),
        U256::from(1u64),
        U256::from(10u64).pow(U256::from(18u64)),
        U256::from(123456789u64) * U256::from(10u64).pow(U256::from(30u64)),
        U256::from(u64::MAX) * U256::from(10u64).pow(U256::from(40u64)),
        U256::MAX >> 3,
        U256::MAX,
    ];
    for value in samples {
        for decimals in [0u8, 1, 6, 18, 19, 40, 58, 77] {
            let quotient = value / U256::from(10u64).pow(U256::from(decimals));
            let expected = if quotient > U256::from(u64::MAX) {
                Err(NormalizationError::Overflow)
            } else {
                Ok(quotient.as_limbs()[0])
            };
            assert_eq!(normalize(&raw_of(value), decimals), expected);
        }
    }
}

#[test]
fn normalization_gives_the_same_answer_every_time() {
    let raw = RawBalance::from_u128(30 * E18 + 5);
    assert_eq!(normalize(&raw, 18), normalize(&raw, 18));
    assert_eq!(normalize(&raw, 18), Ok(30));
}

#[test]
fn from_u128_writes_the_value_into_the_low_bytes() {
    let raw = RawBalance::from_u128(0x0102);
    let mut expected = [0u8; 32];
    expected[30] = 1;
    expected[31] = 2;
    assert_eq!(raw.be_bytes, expected);
    assert_eq!(RawBalance::from_u128(u128::MAX).be_bytes[..16], [0u8; 16]);
    assert_eq!(RawBalance::from_u128(u128::MAX).be_bytes[16..], [0xffu8; 16]);
    assert_eq!(raw_of(U256::from(10 * E18)), RawBalance::from_u128(10 * E18));
}

#[test]
fn to_u64_accepts_exactly_the_64_bit_values() {
    assert_eq!(RawBalance::from_u128(0).to_u64(), Some(0));
    assert_eq!(RawBalance::from_u128(42).to_u64(), Some(42));
    assert_eq!(RawBalance::from_u128(u64::MAX as u128).to_u64(), Some(u64::MAX));
    assert_eq!(RawBalance::from_u128(u64::MAX as u128 + 1).to_u64(), None);
    assert_eq!(RawBalance::from_u128(u128::MAX).to_u64(), None);
    let mut high = [0u8; 32];
    high[0] = 1;
    assert_eq!(RawBalance::from_be_bytes(high).to_u64(), None);
    let mut edge = [0u8; 32];
    edge[23] = 1;
    assert_eq!(RawBalance::from_be_bytes(edge).to_u64(), None);
}

#[test]
fn raw_balances_show_at_their_full_width() {
    assert_eq!(
        RawBalance::from_u128(10 * E18).hex(),
        "0x0000000000000000000000000000000000000000000000008ac7230489e80000"
    );
    assert_eq!(
        RawBalance::from_u128(0).hex(),
        "0x0000000000000000000000000000000000000000000000000000000000000000"
    );
    assert_eq!(
        raw_of(U256::MAX).hex(),
        "0xffffffffffffffffffffffffffffffffffffffffffffffffffffffffffffffff"
    );
}
