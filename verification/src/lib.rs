//! Decryption engine for the Kuwo obfuscated media-container format.
//!
//! A container file starts with a fixed-layout binary header; the content
//! that follows has been transformed by a reversible, offset-addressable
//! byte-stream cipher.  This crate parses and validates the header, derives
//! key-stream state for the two supported cipher generations, and recovers
//! plaintext bytes for arbitrary byte ranges of the content.

pub mod bytes;
pub mod decipher;
pub mod errors;
pub mod header;
pub mod keys;
