use kuwo_crypto::errors::KuwoCryptoError;
use kuwo_crypto::header::{encode_header, Header};
use kuwo_crypto::keys::{dec_digit_bytes, derive_v1, derive_v2, expand_key};

const SCHEDULE_KEY: &[u8; 32] = b"MoOtOiTvINGwd2E6n0E1i7L5t2IoOoNk";

#[test]
fn decimal_digits_are_ascii() {
    assert_eq!(dec_digit_bytes(0), b"0".to_vec());
    assert_eq!(dec_digit_bytes(7), b"7".to_vec());
    assert_eq!(dec_digit_bytes(10), b"10".to_vec());
    assert_eq!(dec_digit_bytes(1234567890), b"1234567890".to_vec());
    assert_eq!(dec_digit_bytes(u32::MAX), b"4294967295".to_vec());
}

#[test]
fn expansion_cycles_material_against_schedule_key() {
    let material = b"abc".to_vec();
    let state = expand_key(&material);
    assert_eq!(state.len(), 32);
    for i in 0..32 {
        assert_eq!(state.byte_at(i), SCHEDULE_KEY[i] ^ material[i % 3]);
    }
}

#[test]
fn v1_schedule_matches_digit_expansion() {
    let bytes = encode_header(1, 204060, 0);
    let header = Header::from_bytes(&bytes).unwrap();
    let state = derive_v1(&header).unwrap();
    let digits = b"204060";
    for i in 0..32 {
        assert_eq!(state.byte_at(i), SCHEDULE_KEY[i] ^ digits[i % 6]);
    }
}

#[test]
fn v1_schedule_rejects_zero_resource_id() {
    let bytes = encode_header(1, 0, 9);
    let header = Header::from_bytes(&bytes).unwrap();
    assert!(matches!(derive_v1(&header), Err(KuwoCryptoError::InvalidHeaderField)));
}

#[test]
fn v2_schedule_rejects_empty_token() {
    assert!(matches!(derive_v2(""), Err(KuwoCryptoError::InvalidKeyToken)));
}
