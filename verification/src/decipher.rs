//! The offset-addressable decipher over both cipher generations.
//!
//! A [`Decipher`] is built once, fallibly, from a parsed header (and, for
//! version 2, an encrypted key token), and is immutable afterwards.  The
//! transform of the byte at absolute position `p` depends only on the
//! derived key state and on `p` — never on neighbouring bytes or on the
//! history of prior calls — which is what makes decryption of arbitrary
//! byte ranges, in any order, possible.

use vstd::arithmetic::div_mod::lemma_add_mod_noop;
use vstd::prelude::*;

use crate::errors::KuwoCryptoError;
use crate::header::Header;
use crate::keys::{
    decoded_token, derive_v1, derive_v2, expanded_mask, mask_v1, KeyState, MASK_LEN,
};

verus! {

/// The key-stream byte a mask table yields at absolute position `pos`.
pub open spec fn keystream_byte(key: Seq<u8>, pos: int) -> u8
    recommends
        key.len() > 0,
        0 <= pos,
{
    key[pos % (key.len() as int)]
}

/// The decryption of `data`, whose first byte sits at absolute position
/// `offset` of the content stream, under mask table `key`: each byte is
/// XORed with the key-stream byte of its own absolute position.
pub open spec fn decrypted(key: Seq<u8>, data: Seq<u8>, offset: int) -> Seq<u8>
    recommends
        key.len() > 0,
        0 <= offset,
{
    Seq::new(data.len(), |i: int| data[i] ^ keystream_byte(key, offset + i))
}

/// Generation-1 cipher: key state derived from header fields alone.
pub struct CipherV1 {
    /// The derived mask table.
    pub key: KeyState,
}

/// Generation-2 cipher: key state derived from an encrypted key token.
pub struct CipherV2 {
    /// The derived mask table.
    pub key: KeyState,
}

impl CipherV1 {
    /// The mask table this cipher transforms with.
    pub open spec fn key_seq(self) -> Seq<u8> {
        self.key@
    }

    /// Well-formedness: a full-length mask table.
    pub open spec fn wf(self) -> bool {
        self.key.wf()
    }

    /// Builds the generation-1 cipher from a parsed header.
    pub fn new(header: &Header) -> (r: Result<CipherV1, KuwoCryptoError>)
        ensures
            header.resource_id == 0 ==> r == Err::<CipherV1, KuwoCryptoError>(
                KuwoCryptoError::InvalidHeaderField,
            ),
            header.resource_id != 0 ==> (r matches Ok(c) && c.wf() && c.key_seq() == mask_v1(
                header.resource_id,
            )),
    {
        match derive_v1(header) {
            Ok(key) => Ok(CipherV1 { key }),
            Err(e) => Err(e),
        }
    }
}

impl CipherV2 {
    /// The mask table this cipher transforms with.
    pub open spec fn key_seq(self) -> Seq<u8> {
        self.key@
    }

    /// Well-formedness: a full-length mask table.
    pub open spec fn wf(self) -> bool {
        self.key.wf()
    }

    /// Builds the generation-2 cipher directly from a raw encrypted key
    /// token, for call sites that already know the format is version 2.
    pub fn new_from_ekey(ekey: &str) -> (r: Result<CipherV2, KuwoCryptoError>)
        ensures
            decoded_token(ekey@) matches Some(p) ==> (r matches Ok(c) && c.wf() && c.key_seq()
                == expanded_mask(p)),
            decoded_token(ekey@) is None ==> r == Err::<CipherV2, KuwoCryptoError>(
                KuwoCryptoError::InvalidKeyToken,
            ),
    {
        match derive_v2(ekey) {
            Ok(key) => Ok(CipherV2 { key }),
            Err(e) => Err(e),
        }
    }
}

/// A constructed decipher: one case per supported cipher generation.
pub enum Decipher {
    /// Generation 1, key schedule over header fields.
    V1(CipherV1),
    /// Generation 2, key schedule over an encrypted key token.
    V2(CipherV2),
}

impl Decipher {
    /// The mask table of whichever generation this decipher carries.
    pub open spec fn key_seq(self) -> Seq<u8> {
        match self {
            Decipher::V1(c) => c.key_seq(),
            Decipher::V2(c) => c.key_seq(),
        }
    }

    /// Well-formedness: a full-length mask table.
    pub open spec fn wf(self) -> bool {
        match self {
            Decipher::V1(c) => c.wf(),
            Decipher::V2(c) => c.wf(),
        }
    }

    /// Builds a decipher from a parsed header, dispatching on its version;
    /// version 2 additionally requires the encrypted key token.
    pub fn new(header: &Header, ekey: Option<String>) -> (r: Result<Decipher, KuwoCryptoError>)
        ensures
            header.version != 1 && header.version != 2 ==> r == Err::<Decipher, KuwoCryptoError>(
                KuwoCryptoError::UnsupportedVersion,
            ),
            header.version == 1 && header.resource_id == 0 ==> r == Err::<Decipher, KuwoCryptoError>(
                KuwoCryptoError::InvalidHeaderField,
            ),
            header.version == 1 && header.resource_id != 0 ==> (r matches Ok(d)
                && d matches Decipher::V1(_) && d.wf() && d.key_seq() == mask_v1(
                header.resource_id,
            )),
            header.version == 2 && ekey is None ==> r == Err::<Decipher, KuwoCryptoError>(
                KuwoCryptoError::MissingKeyToken,
            ),
            header.version == 2 && ekey is Some && decoded_token(ekey.unwrap()@) is Some ==> (
            r matches Ok(d) && d matches Decipher::V2(_) && d.wf() && d.key_seq() == expanded_mask(
                decoded_token(ekey.unwrap()@).unwrap(),
            )),
            header.version == 2 && ekey is Some && decoded_token(ekey.unwrap()@) is None ==> r
                == Err::<Decipher, KuwoCryptoError>(KuwoCryptoError::InvalidKeyToken),
            r matches Ok(d) ==> d.wf(),
    {
        if header.version == 1 {
            match CipherV1::new(header) {
                Ok(c) => Ok(Decipher::V1(c)),
                Err(e) => Err(e),
            }
        } else if header.version == 2 {
            match ekey {
                Some(s) => match CipherV2::new_from_ekey(s.as_str()) {
                    Ok(c) => Ok(Decipher::V2(c)),
                    Err(e) => Err(e),
                },
                None => Err(KuwoCryptoError::MissingKeyToken),
            }
        } else {
            Err(KuwoCryptoError::UnsupportedVersion)
        }
    }

    /// Builds a version-2 decipher from a raw encrypted key token alone.
    pub fn from_ekey(ekey: &str) -> (r: Result<Decipher, KuwoCryptoError>)
        ensures
            decoded_token(ekey@) matches Some(p) ==> (r matches Ok(d) && d matches Decipher::V2(_)
                && d.wf() && d.key_seq() == expanded_mask(p)),
            decoded_token(ekey@) is None ==> r == Err::<Decipher, KuwoCryptoError>(
                KuwoCryptoError::InvalidKeyToken,
            ),
    {
        match CipherV2::new_from_ekey(ekey) {
            Ok(c) => Ok(Decipher::V2(c)),
            Err(e) => Err(e),
        }
    }

    /// Transforms `buffer` in place: the ciphertext bytes whose first byte
    /// sits at absolute position `offset` become plaintext.  Never fails;
    /// any length, any offset, any call order.
    pub fn decrypt(&self, buffer: &mut Vec<u8>, offset: usize)
        requires
            self.wf(),
        ensures
            final(buffer)@ == decrypted(self.key_seq(), old(buffer)@, offset as int),
    {
        let key = match self {
            Decipher::V1(c) => &c.key,
            Decipher::V2(c) => &c.key,
        };
        apply_keystream(key, buffer, offset);
    }

    /// Non-mutating form of [`Decipher::decrypt`]: returns the plaintext
    /// as a fresh buffer and leaves `data` untouched.
    pub fn decrypt_copy(&self, data: &Vec<u8>, offset: usize) -> (r: Vec<u8>)
        requires
            self.wf(),
        ensures
            r@ == decrypted(self.key_seq(), data@, offset as int),
    {
        let mut out: Vec<u8> = Vec::new();
        let n = data.len();
        let mut i: usize = 0;
        while i < n
            invariant
                i <= n,
                n == data@.len(),
                out@ =~= data@.subrange(0, i as int),
            decreases n - i,
        {
            out.push(data[i]);
            i += 1;
        }
        assert(out@ =~= data@);
        self.decrypt(&mut out, offset);
        out
    }
}

/// The shared per-byte transform: XOR each buffer byte with the key-stream
/// byte of its absolute position.
fn apply_keystream(key: &KeyState, buffer: &mut Vec<u8>, offset: usize)
    requires
        key.wf(),
    ensures
        final(buffer)@ == decrypted(key@, old(buffer)@, offset as int),
{
    let n = buffer.len();
    let mut i: usize = 0;
    while i < n
        invariant
            i <= n,
            key.wf(),
            n == buffer@.len(),
            buffer@.len() == old(buffer)@.len(),
            forall|j: int| i <= j < n ==> buffer@[j] == old(buffer)@[j],
            forall|j: int|
                0 <= j < i ==> buffer@[j] == decrypted(key@, old(buffer)@, offset as int)[j],
        decreases n - i,
    {
        let idx = ((offset % MASK_LEN) + (i % MASK_LEN)) % MASK_LEN;
        proof {
            lemma_add_mod_noop(offset as int, i as int, MASK_LEN as int);
        }
        let b = buffer[i] ^ key.byte_at(idx);
        buffer[i] = b;
        i += 1;
    }
    assert(buffer@ =~= decrypted(key@, old(buffer)@, offset as int));
}

/// Offset-independence: for a fixed mask table, decrypting any sub-range
/// `data[k..k+m]` at absolute offset `offset + k` yields exactly the
/// corresponding slice of decrypting all of `data` at offset `offset` —
/// the property that makes random access and seeking possible.
pub proof fn lemma_offset_independence(key: Seq<u8>, data: Seq<u8>, offset: int, k: int, m: int)
    requires
        key.len() > 0,
        0 <= offset,
        0 <= k,
        0 <= m,
        k + m <= data.len(),
    ensures
        decrypted(key, data.subrange(k, k + m), offset + k) == decrypted(key, data, offset)
            .subrange(k, k + m),
{
    let lhs = decrypted(key, data.subrange(k, k + m), offset + k);
    let rhs = decrypted(key, data, offset).subrange(k, k + m);
    assert forall|i: int| 0 <= i < m implies lhs[i] == rhs[i] by {
        assert(data.subrange(k, k + m)[i] == data[k + i]);
        assert(rhs[i] == data[k + i] ^ keystream_byte(key, offset + (k + i)));
    }
    assert(lhs =~= rhs);
}

/// Determinism: what a decipher returns is a function of its key state,
/// the buffer contents and the offset alone — equal inputs always give
/// equal plaintext, whatever the order or history of calls.
pub proof fn lemma_decrypt_deterministic(
    key1: Seq<u8>,
    key2: Seq<u8>,
    data1: Seq<u8>,
    data2: Seq<u8>,
    offset1: int,
    offset2: int,
)
    requires
        key1 == key2,
        data1 == data2,
        offset1 == offset2,
    ensures
        decrypted(key1, data1, offset1) == decrypted(key2, data2, offset2),
{
}

} // verus!
