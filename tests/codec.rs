use pwasm_ethereum::{decode_u256, encode_u256, Address, H256, U256};

fn round_trip(v: U256) -> U256 {
    decode_u256(&encode_u256(&v))
}

#[test]
fn round_trip_zero() {
    let v = U256([0, 0, 0, 0]);
    assert_eq!(encode_u256(&v), [0u8; 32]);
    assert_eq!(round_trip(v), v);
}

#[test]
fn round_trip_one() {
    let v = U256([1, 0, 0, 0]);
    let mut expected = [0u8; 32];
    expected[31] = 1;
    assert_eq!(encode_u256(&v), expected);
    assert_eq!(round_trip(v), v);
}

#[test]
fn round_trip_top_bit() {
    let v = U256([0, 0, 0, 1u64 << 63]);
    let mut expected = [0u8; 32];
    expected[0] = 0x80;
    assert_eq!(encode_u256(&v), expected);
    assert_eq!(round_trip(v), v);
}

#[test]
fn round_trip_max() {
    let v = U256([u64::MAX, u64::MAX, u64::MAX, u64::MAX]);
    assert_eq!(encode_u256(&v), [0xffu8; 32]);
    assert_eq!(round_trip(v), v);
}

#[test]
fn encode_orders_limbs_most_significant_first() {
    let v = U256([0x0102030405060708, 0x1112131415161718, 0x2122232425262728, 0x3132333435363738]);
    let bytes = encode_u256(&v);
    let expected: [u8; 32] = [
        0x31, 0x32, 0x33, 0x34, 0x35, 0x36, 0x37, 0x38, 0x21, 0x22, 0x23, 0x24, 0x25, 0x26, 0x27,
        0x28, 0x11, 0x12, 0x13, 0x14, 0x15, 0x16, 0x17, 0x18, 0x01, 0x02, 0x03, 0x04, 0x05, 0x06,
        0x07, 0x08,
    ];
    assert_eq!(bytes, expected);
    assert_eq!(decode_u256(&expected), v);
}

#[test]
fn decode_small_number() {
    let mut bytes = [0u8; 32];
    bytes[30] = 0x01;
    bytes[31] = 0x02;
    assert_eq!(decode_u256(&bytes), U256([0x0102, 0, 0, 0]));
}

#[test]
fn zero_constructors() {
    assert_eq!(Address::zero(), Address([0u8; 20]));
    assert_eq!(H256::zero(), H256([0u8; 32]));
}
