//! Error taxonomy of the engine.
//!
//! Every fallible step (header parsing, key derivation) reports a specific
//! failure kind; decryption itself has no error path once a decipher has
//! been constructed.

use vstd::prelude::*;

verus! {

/// Why header parsing or decipher construction failed.
#[derive(Clone, Copy, Debug, PartialEq, Eq, Structural)]
pub enum KuwoCryptoError {
    /// The input is shorter than the fixed header size.
    TruncatedHeader,
    /// The input does not begin with the expected magic bytes.
    BadMagic,
    /// The version field selects no known header layout.
    UnsupportedVersion,
    /// The cipher generation requires a key token and none was supplied.
    MissingKeyToken,
    /// The supplied key token cannot be decoded into key material.
    InvalidKeyToken,
    /// A header field carries a value the key schedule declares invalid.
    InvalidHeaderField,
}

impl KuwoCryptoError {
    /// The text [`KuwoCryptoError::message`] returns for each failure kind.
    pub open spec fn message_spec(self) -> Seq<char> {
        match self {
            KuwoCryptoError::TruncatedHeader => "input shorter than the fixed header size"@,
            KuwoCryptoError::BadMagic => "magic bytes mismatch"@,
            KuwoCryptoError::UnsupportedVersion => "unrecognized format version"@,
            KuwoCryptoError::MissingKeyToken => "this cipher version requires a key token"@,
            KuwoCryptoError::InvalidKeyToken => "the key token cannot be decoded"@,
            KuwoCryptoError::InvalidHeaderField => "a header field is out of range for the key schedule"@,
        }
    }

    /// A short human-readable description of the failure.
    pub fn message(&self) -> (r: &'static str)
        ensures
            r@ == self.message_spec(),
    {
        match self {
            KuwoCryptoError::TruncatedHeader => "input shorter than the fixed header size",
            KuwoCryptoError::BadMagic => "magic bytes mismatch",
            KuwoCryptoError::UnsupportedVersion => "unrecognized format version",
            KuwoCryptoError::MissingKeyToken => "this cipher version requires a key token",
            KuwoCryptoError::InvalidKeyToken => "the key token cannot be decoded",
            KuwoCryptoError::InvalidHeaderField => "a header field is out of range for the key schedule",
        }
    }
}

} // verus!
