//! Key schedules: derivation of key-stream state for both cipher generations.
//!
//! The version-1 schedule derives a 32-byte mask purely from header fields:
//! the fixed schedule key XORed with the cycled decimal digits of the
//! resource identifier.  The version-2 schedule instead consumes a
//! server-issued encrypted key token: the token is base64-decoded, the
//! result deciphered with Tencent-TEA under a fixed transport key, and the
//! recovered key material cycled into the same 32-byte mask shape.

use vstd::prelude::*;

use base64::Engine;

use crate::errors::KuwoCryptoError;
use crate::header::Header;

verus! {

/// Number of bytes of derived key-stream state, both generations.
pub const MASK_LEN: usize = 32;

/// The fixed 32-byte schedule key (`MoOtOiTvINGwd2E6n0E1i7L5t2IoOoNk`).
pub open spec fn schedule_key() -> Seq<u8> {
    seq![
        0x4du8, 0x6f, 0x4f, 0x74, 0x4f, 0x69, 0x54, 0x76,
        0x49, 0x4e, 0x47, 0x77, 0x64, 0x32, 0x45, 0x36,
        0x6e, 0x30, 0x45, 0x31, 0x69, 0x37, 0x4c, 0x35,
        0x74, 0x32, 0x49, 0x6f, 0x4f, 0x6f, 0x4e, 0x6b,
    ]
}

/// The schedule key's byte at index `i`.
fn schedule_key_byte(i: usize) -> (r: u8)
    requires
        i < MASK_LEN,
    ensures
        r == schedule_key()[i as int],
{
    match i {
        0 => 0x4d,
        1 => 0x6f,
        2 => 0x4f,
        3 => 0x74,
        4 => 0x4f,
        5 => 0x69,
        6 => 0x54,
        7 => 0x76,
        8 => 0x49,
        9 => 0x4e,
        10 => 0x47,
        11 => 0x77,
        12 => 0x64,
        13 => 0x32,
        14 => 0x45,
        15 => 0x36,
        16 => 0x6e,
        17 => 0x30,
        18 => 0x45,
        19 => 0x31,
        20 => 0x69,
        21 => 0x37,
        22 => 0x4c,
        23 => 0x35,
        24 => 0x74,
        25 => 0x32,
        26 => 0x49,
        27 => 0x6f,
        28 => 0x4f,
        29 => 0x6f,
        30 => 0x4e,
        _ => 0x6b,
    }
}

/// The ASCII decimal digits of `n`, most significant first.
pub open spec fn dec_digits(n: u32) -> Seq<u8>
    decreases n,
{
    if n < 10 {
        seq![(0x30 + n) as u8]
    } else {
        dec_digits(n / 10).push((0x30 + n % 10) as u8)
    }
}

/// The ASCII decimal digits of `n`, as executable bytes.
pub fn dec_digit_bytes(n: u32) -> (r: Vec<u8>)
    ensures
        r@ == dec_digits(n),
    decreases n,
{
    if n < 10 {
        let mut v: Vec<u8> = Vec::new();
        v.push(0x30 + n as u8);
        assert(v@ =~= dec_digits(n));
        v
    } else {
        let mut v = dec_digit_bytes(n / 10);
        v.push(0x30 + (n % 10) as u8);
        v
    }
}

/// Derived key-stream state, the shape shared by both generations: an
/// expanded table indexed by absolute byte position modulo its length.
pub struct KeyState {
    table: Vec<u8>,
}

impl View for KeyState {
    type V = Seq<u8>;

    closed spec fn view(&self) -> Seq<u8> {
        self.table@
    }
}

impl KeyState {
    /// Every derived state holds exactly `MASK_LEN` mask bytes.
    pub open spec fn wf(self) -> bool {
        self@.len() == MASK_LEN
    }

    /// The mask byte at index `i`.
    pub fn byte_at(&self, i: usize) -> (r: u8)
        requires
            i < self@.len(),
        ensures
            r == self@[i as int],
    {
        self.table[i]
    }

    /// Number of mask bytes.
    pub fn len(&self) -> (r: usize)
        ensures
            r == self@.len(),
    {
        self.table.len()
    }
}

/// The expanded mask shared by both generations: the schedule key XORed
/// with the cycled bytes of the given key material.
pub open spec fn expanded_mask(material: Seq<u8>) -> Seq<u8>
    recommends
        material.len() > 0,
{
    Seq::new(MASK_LEN as nat, |i: int| schedule_key()[i] ^ material[i % material.len() as int])
}

/// Key expansion: cycles non-empty key material against the schedule key
/// into a full-length mask table.
pub fn expand_key(material: &Vec<u8>) -> (r: KeyState)
    requires
        material@.len() > 0,
    ensures
        r.wf(),
        r@ == expanded_mask(material@),
{
    let mut table: Vec<u8> = Vec::new();
    let mut i: usize = 0;
    while i < MASK_LEN
        invariant
            i <= MASK_LEN,
            material@.len() >= 1,
            table@.len() == i,
            table@ =~= expanded_mask(material@).subrange(0, i as int),
        decreases MASK_LEN - i,
    {
        table.push(schedule_key_byte(i) ^ material[i % material.len()]);
        i += 1;
    }
    assert(table@ =~= expanded_mask(material@));
    KeyState { table }
}

/// The version-1 mask: the schedule key XORed with the cycled decimal
/// digits of the resource identifier.
pub open spec fn mask_v1(resource_id: u32) -> Seq<u8> {
    expanded_mask(dec_digits(resource_id))
}

/// Version-1 schedule: builds key-stream state from header fields alone.
///
/// A zero resource identifier is outside the schedule's domain (no issued
/// container carries one) and is rejected as an invalid header field.
pub fn derive_v1(header: &Header) -> (r: Result<KeyState, KuwoCryptoError>)
    ensures
        header.resource_id == 0 ==> r == Err::<KeyState, KuwoCryptoError>(
            KuwoCryptoError::InvalidHeaderField,
        ),
        header.resource_id != 0 ==> (r matches Ok(ks) && ks.wf() && ks@ == mask_v1(
            header.resource_id,
        )),
{
    if header.resource_id == 0 {
        return Err(KuwoCryptoError::InvalidHeaderField);
    }
    let digits = dec_digit_bytes(header.resource_id);
    assert(digits@.len() >= 1);
    Ok(expand_key(&digits))
}

/// What base64 decoding yields on the given characters, if they are valid
/// standard-alphabet base64.
pub uninterp spec fn b64_decoded(s: Seq<char>) -> Option<Seq<u8>>;

/// Relies on base64's `Engine::decode` with the standard padded alphabet:
/// the result is a pure function of the input characters, and a string that
/// is not valid base64 is refused.
#[verifier::external_body]
fn b64_decode(s: &str) -> (r: Option<Vec<u8>>)
    ensures
        r matches Some(v) ==> b64_decoded(s@) == Some(v@),
        r is None ==> b64_decoded(s@) is None,
{
    base64::engine::general_purpose::STANDARD.decode(s).ok()
}

/// What Tencent-TEA deciphering yields for the given ciphertext and key,
/// if the ciphertext is well formed under that key.
pub uninterp spec fn tea_plain(cipher: Seq<u8>, key: Seq<u8>) -> Option<Seq<u8>>;

/// Relies on `tc_tea::decrypt` (Tencent's TEA variant in its tweaked CBC
/// mode): the result is a pure function of ciphertext and key; it refuses
/// any key that is not 16 bytes, and any ciphertext shorter than 16 bytes
/// or of length not a multiple of 8.
///
/// A ciphertext of exactly 16 bytes is kept out by `requires`: on that one
/// length, when the deciphered padding byte reads as 7, `tc_tea::decrypt`
/// slices past the end of its own frame and panics instead of returning.
#[verifier::external_body]
fn tea_decrypt(cipher: &Vec<u8>, key: &Vec<u8>) -> (r: Option<Vec<u8>>)
    requires
        cipher@.len() != 16,
    ensures
        r matches Some(v) ==> tea_plain(cipher@, key@) == Some(v@),
        r is None ==> tea_plain(cipher@, key@) is None,
        cipher@.len() < 16 || cipher@.len() % 8 != 0 || key@.len() != 16 ==> r is None,
{
    tc_tea::decrypt(cipher, key).ok()
}

/// The fixed 16-byte transport key under which issued key tokens are
/// TEA-enciphered (`kuwo-ekey-tea-16`).
pub open spec fn token_tea_key() -> Seq<u8> {
    seq![
        0x6bu8, 0x75, 0x77, 0x6f, 0x2d, 0x65, 0x6b, 0x65,
        0x79, 0x2d, 0x74, 0x65, 0x61, 0x2d, 0x31, 0x36,
    ]
}

/// The transport key as executable bytes.
fn token_tea_key_bytes() -> (r: Vec<u8>)
    ensures
        r@ == token_tea_key(),
{
    let mut v: Vec<u8> = Vec::new();
    v.push(0x6b);
    v.push(0x75);
    v.push(0x77);
    v.push(0x6f);
    v.push(0x2d);
    v.push(0x65);
    v.push(0x6b);
    v.push(0x65);
    v.push(0x79);
    v.push(0x2d);
    v.push(0x74);
    v.push(0x65);
    v.push(0x61);
    v.push(0x2d);
    v.push(0x31);
    v.push(0x36);
    assert(v@ =~= token_tea_key());
    v
}

/// The plain key material recovered from an encrypted key token: base64
/// decoding, then TEA deciphering under the fixed transport key.  `None`
/// when any step refuses the token or the recovered material is empty.
///
/// A token whose decoded payload is exactly 16 bytes — the smallest TEA
/// frame, carrying at most 6 bytes of material — is refused outright,
/// since `tc_tea::decrypt` mishandles that one length (see `tea_decrypt`).
pub open spec fn decoded_token(s: Seq<char>) -> Option<Seq<u8>> {
    match b64_decoded(s) {
        Option::None => Option::None,
        Option::Some(enc) => if enc.len() == 16 {
            Option::None
        } else {
            match tea_plain(enc, token_tea_key()) {
                Option::None => Option::None,
                Option::Some(p) => if p.len() == 0 {
                    Option::None
                } else {
                    Option::Some(p)
                },
            }
        },
    }
}

/// Version-2 schedule: builds key-stream state from an encrypted key token
/// alone.  Succeeds exactly when the token decodes to non-empty key
/// material; any malformed token is an invalid key token.
pub fn derive_v2(ekey: &str) -> (r: Result<KeyState, KuwoCryptoError>)
    ensures
        decoded_token(ekey@) matches Some(p) ==> (r matches Ok(ks) && ks.wf() && ks@
            == expanded_mask(p)),
        decoded_token(ekey@) is None ==> r == Err::<KeyState, KuwoCryptoError>(
            KuwoCryptoError::InvalidKeyToken,
        ),
{
    let enc = match b64_decode(ekey) {
        Some(v) => v,
        None => {
            return Err(KuwoCryptoError::InvalidKeyToken);
        },
    };
    if enc.len() == 16 {
        return Err(KuwoCryptoError::InvalidKeyToken);
    }
    let transport = token_tea_key_bytes();
    let plain = match tea_decrypt(&enc, &transport) {
        Some(v) => v,
        None => {
            return Err(KuwoCryptoError::InvalidKeyToken);
        },
    };
    if plain.len() == 0 {
        return Err(KuwoCryptoError::InvalidKeyToken);
    }
    Ok(expand_key(&plain))
}

} // verus!
