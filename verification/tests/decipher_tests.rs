use base64::Engine;

use kuwo_crypto::decipher::{CipherV1, CipherV2, Decipher};
use kuwo_crypto::errors::KuwoCryptoError;
use kuwo_crypto::header::{encode_header, Header, HEADER_LEN};

const SCHEDULE_KEY: &[u8; 32] = b"MoOtOiTvINGwd2E6n0E1i7L5t2IoOoNk";
const TOKEN_TEA_KEY: &[u8; 16] = b"kuwo-ekey-tea-16";

fn v1_header(resource_id: u32) -> Header {
    let bytes = encode_header(1, resource_id, 0);
    Header::from_bytes(&bytes).unwrap()
}

fn v2_header() -> Header {
    let bytes = encode_header(2, 3245863, 2000);
    Header::from_bytes(&bytes).unwrap()
}

/// A syntactically valid encrypted key token for the given key material.
fn make_ekey(material: &[u8]) -> String {
    let enc = tc_tea::encrypt(material, TOKEN_TEA_KEY).unwrap();
    base64::engine::general_purpose::STANDARD.encode(enc)
}

/// The expected mask, computed independently of the library.
fn expected_mask(material: &[u8]) -> Vec<u8> {
    (0..32).map(|i| SCHEDULE_KEY[i] ^ material[i % material.len()]).collect()
}

#[test]
fn v1_known_vector() {
    // resource id 12345: digits "12345" cycled against the schedule key
    let expected_mask: [u8; 32] = [
        0x7c, 0x5d, 0x7c, 0x40, 0x7a, 0x58, 0x66, 0x45, 0x7d, 0x7b, 0x76, 0x45,
        0x57, 0x06, 0x70, 0x07, 0x5c, 0x03, 0x71, 0x04, 0x58, 0x05, 0x7f, 0x01,
        0x41, 0x03, 0x7b, 0x5c, 0x7b, 0x5a, 0x7f, 0x59,
    ];
    let cipher_bytes: [u8; 28] = [
        0x17, 0x28, 0x0b, 0x2f, 0x5a, 0x2e, 0x57, 0x65, 0x0f, 0x1e, 0x10, 0x20,
        0x25, 0x63, 0x1e, 0x64, 0x39, 0x23, 0x01, 0x68, 0x39, 0x6c, 0x11, 0x75,
        0x24, 0x7b, 0x0f, 0x72,
    ];
    let decipher = Decipher::new(&v1_header(12345), None).unwrap();
    let plain = decipher.decrypt_copy(&cipher_bytes.to_vec(), 0);
    assert_eq!(plain, b"kuwo v1 reference plaintext.");

    // the mask itself, recovered by decrypting zeros
    let zeros = vec![0u8; 32];
    let mask = decipher.decrypt_copy(&zeros, 0);
    assert_eq!(mask, expected_mask.to_vec());
}

#[test]
fn v1_zero_resource_id_rejected() {
    assert!(matches!(
        Decipher::new(&v1_header(0), None),
        Err(KuwoCryptoError::InvalidHeaderField)
    ));
    assert!(matches!(
        CipherV1::new(&v1_header(0)),
        Err(KuwoCryptoError::InvalidHeaderField)
    ));
}

#[test]
fn v2_missing_token_rejected() {
    assert!(matches!(
        Decipher::new(&v2_header(), None),
        Err(KuwoCryptoError::MissingKeyToken)
    ));
}

#[test]
fn v2_token_not_base64_rejected() {
    let r = Decipher::new(&v2_header(), Some("!!!not base64!!!".to_string()));
    assert!(matches!(r, Err(KuwoCryptoError::InvalidKeyToken)));
}

#[test]
fn v2_token_too_short_for_tea_rejected() {
    // valid base64, but only 8 bytes of payload: TEA refuses it
    let short = base64::engine::general_purpose::STANDARD.encode([1u8; 8]);
    let r = Decipher::new(&v2_header(), Some(short));
    assert!(matches!(r, Err(KuwoCryptoError::InvalidKeyToken)));
}

#[test]
fn v2_token_minimum_tea_frame_rejected() {
    // a decoded payload of exactly 16 bytes — the smallest TEA frame — is
    // refused outright rather than handed to the TEA layer
    let token16 = base64::engine::general_purpose::STANDARD.encode([1u8; 16]);
    assert!(matches!(
        Decipher::from_ekey(&token16),
        Err(KuwoCryptoError::InvalidKeyToken)
    ));
    // in particular the frame whose deciphered padding byte reads as 7,
    // which the TEA layer itself would mishandle, never reaches it
    let zeros16 = base64::engine::general_purpose::STANDARD.encode([0u8; 16]);
    assert!(matches!(
        Decipher::new(&v2_header(), Some(zeros16)),
        Err(KuwoCryptoError::InvalidKeyToken)
    ));
}

#[test]
fn v2_token_bad_padding_rejected() {
    // valid base64 of 24 bytes that do not decipher to a padded plaintext
    let r = Decipher::from_ekey("AQIDBAUGBwgJCgsMDQ4PEBESExQVFhcY");
    assert!(matches!(r, Err(KuwoCryptoError::InvalidKeyToken)));
}

#[test]
fn v2_token_round_trip() {
    let material = b"roundtrip-material";
    let ekey = make_ekey(material);
    let mask = expected_mask(material);

    let data: Vec<u8> = (0u8..200).collect();
    let decipher = Decipher::new(&v2_header(), Some(ekey.clone())).unwrap();
    let plain = decipher.decrypt_copy(&data, 0);
    for (i, p) in plain.iter().enumerate() {
        assert_eq!(*p, data[i] ^ mask[i % 32]);
    }

    // the standalone token-only factory derives the same cipher
    let direct = Decipher::from_ekey(&ekey).unwrap();
    assert_eq!(direct.decrypt_copy(&data, 0), plain);
    let v2 = CipherV2::new_from_ekey(&ekey).unwrap();
    assert_eq!(Decipher::V2(v2).decrypt_copy(&data, 0), plain);
}

#[test]
fn offset_independence_v1() {
    let decipher = Decipher::new(&v1_header(998877), None).unwrap();
    let data: Vec<u8> = (0u8..=255).cycle().take(300).collect();
    let whole = decipher.decrypt_copy(&data, 0);
    for (k, m) in [(0usize, 300usize), (1, 31), (7, 64), (31, 33), (33, 1), (299, 1), (100, 0)] {
        let sub = data[k..k + m].to_vec();
        let part = decipher.decrypt_copy(&sub, k);
        assert_eq!(part, whole[k..k + m].to_vec(), "range {k}..{}", k + m);
    }
}

#[test]
fn offset_independence_v2() {
    let decipher = Decipher::from_ekey(&make_ekey(b"offsets")).unwrap();
    let data: Vec<u8> = (0u8..=255).cycle().take(129).collect();
    let whole = decipher.decrypt_copy(&data, 0);
    for (k, m) in [(0usize, 129usize), (5, 13), (32, 32), (63, 66), (128, 1)] {
        let sub = data[k..k + m].to_vec();
        let part = decipher.decrypt_copy(&sub, k);
        assert_eq!(part, whole[k..k + m].to_vec(), "range {k}..{}", k + m);
    }
}

#[test]
fn decrypt_is_deterministic() {
    let decipher = Decipher::new(&v1_header(555), None).unwrap();
    let data: Vec<u8> = (0u8..100).collect();
    let first = decipher.decrypt_copy(&data, 17);
    for _ in 0..5 {
        assert_eq!(decipher.decrypt_copy(&data, 17), first);
    }
    // the in-place form agrees with the copying form
    let mut buf = data.clone();
    decipher.decrypt(&mut buf, 17);
    assert_eq!(buf, first);
}

#[test]
fn decrypt_twice_restores_input() {
    // the transform is an XOR stream: applying it twice at the same offset
    // gives back the ciphertext, at any offset
    let decipher = Decipher::new(&v1_header(31337), None).unwrap();
    let data: Vec<u8> = (10u8..90).collect();
    for offset in [0usize, 1, 31, 32, 1_000_003] {
        let mut buf = data.clone();
        decipher.decrypt(&mut buf, offset);
        decipher.decrypt(&mut buf, offset);
        assert_eq!(buf, data, "offset {offset}");
    }
}

#[test]
fn empty_buffer_is_a_noop() {
    let decipher = Decipher::new(&v1_header(1), None).unwrap();
    let mut buf: Vec<u8> = Vec::new();
    decipher.decrypt(&mut buf, 12345);
    assert!(buf.is_empty());
    assert!(decipher.decrypt_copy(&Vec::new(), 0).is_empty());
}

#[test]
fn known_vector_regression() {
    // fixed reference fixtures: header prefix, key token, ciphertext
    let header_prefix: [u8; 0x24] = [
        0x79, 0x65, 0x65, 0x6c, 0x69, 0x6f, 0x6e, 0x2d, 0x6b, 0x75, 0x77, 0x6f,
        0x2d, 0x74, 0x6d, 0x65, 0x02, 0x00, 0x00, 0x00, 0x00, 0x00, 0x00, 0x00,
        0x27, 0x87, 0x31, 0x00, 0x00, 0x00, 0x00, 0x00, 0xd0, 0x07, 0x00, 0x00,
    ];
    let ekey = "27QanoaDlriDRBxPpmKXBAO77KAFdrN8dHxibqTuIRk=";
    let ciphertext: [u8; 56] = [
        0x55, 0x7b, 0x55, 0x6b, 0x03, 0x7a, 0x4b, 0x3d, 0x5e, 0x52, 0x0c, 0x7f,
        0x77, 0x23, 0x4e, 0x27, 0x62, 0x71, 0x59, 0x2e, 0x69, 0x33, 0x52, 0x2d,
        0x74, 0x67, 0x56, 0x2a, 0x54, 0x3b, 0x57, 0x6f, 0x4d, 0x22, 0x02, 0x6b,
        0x55, 0x69, 0x0b, 0x3d, 0x43, 0x59, 0x0f, 0x3a, 0x68, 0x27, 0x53, 0x2f,
        0x27, 0x3d, 0x4c, 0x2c, 0x6f, 0x2e, 0x54, 0x77,
    ];

    let mut header_bytes = header_prefix.to_vec();
    header_bytes.resize(HEADER_LEN, 0);
    let header = Header::from_bytes(&header_bytes).unwrap();
    assert_eq!(header.version(), 2);
    assert_eq!(header.resource_id(), 3245863);
    assert_eq!(header.get_quality_id(), 2000);

    let decipher = Decipher::new(&header, Some(ekey.to_string())).unwrap();
    let mut buf = ciphertext.to_vec();
    decipher.decrypt(&mut buf, 0);
    assert_eq!(buf, b"kuwo v2 reference plaintext bytes, over one mask length.");
}
