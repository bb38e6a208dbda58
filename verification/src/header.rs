//! Fixed-layout binary header: parsing, validation and a reference encoder.
//!
//! A container file begins with a `HEADER_LEN`-byte prefix.  The first
//! `MAGIC_LEN` bytes are a fixed magic sequence; `version`, `resource_id`
//! and `quality_id` are little-endian `u32` fields at fixed offsets.  Only
//! versions 1 and 2 are supported; a successfully parsed [`Header`] is
//! always self-consistent.

use vstd::prelude::*;

use crate::bytes::{le_u32_at, lemma_u32_le_round_trip, read_u32_le, u32_le_byte, u32_le_bytes};
use crate::errors::KuwoCryptoError;

verus! {

/// Total size of the fixed binary header, in bytes.
pub const HEADER_LEN: usize = 1024;

/// Length of the magic prefix, in bytes.
pub const MAGIC_LEN: usize = 16;

/// Byte offset of the `version` field.
pub const VERSION_OFFSET: usize = 0x10;

/// Byte offset of the `resource_id` field.
pub const RESOURCE_ID_OFFSET: usize = 0x18;

/// Byte offset of the `quality_id` field.
pub const QUALITY_ID_OFFSET: usize = 0x20;

/// The magic bytes every container file starts with: `yeelion-kuwo-tme`.
pub open spec fn magic() -> Seq<u8> {
    seq![
        0x79u8, 0x65, 0x65, 0x6c, 0x69, 0x6f, 0x6e, 0x2d,
        0x6b, 0x75, 0x77, 0x6f, 0x2d, 0x74, 0x6d, 0x65,
    ]
}

/// The magic byte at index `i`.
fn magic_byte(i: usize) -> (r: u8)
    requires
        i < MAGIC_LEN,
    ensures
        r == magic()[i as int],
{
    match i {
        0 => 0x79,
        1 => 0x65,
        2 => 0x65,
        3 => 0x6c,
        4 => 0x69,
        5 => 0x6f,
        6 => 0x6e,
        7 => 0x2d,
        8 => 0x6b,
        9 => 0x75,
        10 => 0x77,
        11 => 0x6f,
        12 => 0x2d,
        13 => 0x74,
        14 => 0x6d,
        _ => 0x65,
    }
}

/// Metadata carried by a successfully parsed container header.
#[derive(Clone, Copy, Debug, PartialEq, Eq, Structural)]
pub struct Header {
    /// Format generation; selects the cipher's key schedule.  Always 1 or 2.
    pub version: u32,
    /// Identifier of the backing content; consumed by the version-1 schedule.
    pub resource_id: u32,
    /// Bitrate/quality tier, exposed for caller use only.
    pub quality_id: u32,
}

impl Header {
    /// A parsed header always carries a supported version.
    pub open spec fn valid(self) -> bool {
        self.version == 1 || self.version == 2
    }

    /// What parsing yields on any byte sequence: the mathematical model of
    /// [`Header::from_bytes`].
    pub open spec fn parse_result(b: Seq<u8>) -> Result<Header, KuwoCryptoError> {
        if b.len() < HEADER_LEN {
            Err(KuwoCryptoError::TruncatedHeader)
        } else if b.subrange(0, MAGIC_LEN as int) != magic() {
            Err(KuwoCryptoError::BadMagic)
        } else if le_u32_at(b, VERSION_OFFSET as int) != 1 && le_u32_at(
            b,
            VERSION_OFFSET as int,
        ) != 2 {
            Err(KuwoCryptoError::UnsupportedVersion)
        } else {
            Ok(
                Header {
                    version: le_u32_at(b, VERSION_OFFSET as int),
                    resource_id: le_u32_at(b, RESOURCE_ID_OFFSET as int),
                    quality_id: le_u32_at(b, QUALITY_ID_OFFSET as int),
                },
            )
        }
    }

    /// Parses and validates the fixed-size header prefix of a container file.
    ///
    /// Pure function of the input bytes; the returned header owns copies of
    /// every field it needs.
    pub fn from_bytes(data: &[u8]) -> (r: Result<Header, KuwoCryptoError>)
        ensures
            r == Self::parse_result(data@),
            r matches Ok(h) ==> h.valid(),
    {
        if data.len() < HEADER_LEN {
            return Err(KuwoCryptoError::TruncatedHeader);
        }
        let mut i: usize = 0;
        while i < MAGIC_LEN
            invariant
                i <= MAGIC_LEN,
                HEADER_LEN <= data@.len(),
                forall|j: int| 0 <= j < i ==> data@[j] == magic()[j],
            decreases MAGIC_LEN - i,
        {
            if data[i] != magic_byte(i) {
                assert(data@.subrange(0, MAGIC_LEN as int)[i as int] != magic()[i as int]);
                return Err(KuwoCryptoError::BadMagic);
            }
            i += 1;
        }
        assert(data@.subrange(0, MAGIC_LEN as int) =~= magic());
        let version = read_u32_le(data, VERSION_OFFSET);
        if version != 1 && version != 2 {
            return Err(KuwoCryptoError::UnsupportedVersion);
        }
        let resource_id = read_u32_le(data, RESOURCE_ID_OFFSET);
        let quality_id = read_u32_le(data, QUALITY_ID_OFFSET);
        Ok(Header { version, resource_id, quality_id })
    }

    /// Format generation of the parsed file.
    pub fn version(&self) -> (r: u32)
        ensures
            r == self.version,
    {
        self.version
    }

    /// Identifier of the backing content.
    pub fn resource_id(&self) -> (r: u32)
        ensures
            r == self.resource_id,
    {
        self.resource_id
    }

    /// Bitrate/quality tier of the backing content.
    pub fn get_quality_id(&self) -> (r: u32)
        ensures
            r == self.quality_id,
    {
        self.quality_id
    }
}

/// The canonical header encoding for the given field values: magic prefix,
/// each field in little-endian order at its fixed offset, zero elsewhere.
pub open spec fn header_bytes(version: u32, resource_id: u32, quality_id: u32) -> Seq<u8> {
    Seq::new(
        HEADER_LEN as nat,
        |i: int|
            if i < MAGIC_LEN {
                magic()[i]
            } else if VERSION_OFFSET <= i < VERSION_OFFSET + 4 {
                u32_le_bytes(version)[i - VERSION_OFFSET]
            } else if RESOURCE_ID_OFFSET <= i < RESOURCE_ID_OFFSET + 4 {
                u32_le_bytes(resource_id)[i - RESOURCE_ID_OFFSET]
            } else if QUALITY_ID_OFFSET <= i < QUALITY_ID_OFFSET + 4 {
                u32_le_bytes(quality_id)[i - QUALITY_ID_OFFSET]
            } else {
                0
            },
    )
}

/// The canonical encoding's byte at index `i`.
fn header_byte_at(version: u32, resource_id: u32, quality_id: u32, i: usize) -> (r: u8)
    requires
        i < HEADER_LEN,
    ensures
        r == header_bytes(version, resource_id, quality_id)[i as int],
{
    if i < MAGIC_LEN {
        magic_byte(i)
    } else if VERSION_OFFSET <= i && i < VERSION_OFFSET + 4 {
        u32_le_byte(version, i - VERSION_OFFSET)
    } else if RESOURCE_ID_OFFSET <= i && i < RESOURCE_ID_OFFSET + 4 {
        u32_le_byte(resource_id, i - RESOURCE_ID_OFFSET)
    } else if QUALITY_ID_OFFSET <= i && i < QUALITY_ID_OFFSET + 4 {
        u32_le_byte(quality_id, i - QUALITY_ID_OFFSET)
    } else {
        0
    }
}

/// Reference encoder: produces the canonical header for the given fields.
pub fn encode_header(version: u32, resource_id: u32, quality_id: u32) -> (r: Vec<u8>)
    ensures
        r@ == header_bytes(version, resource_id, quality_id),
{
    let mut out: Vec<u8> = Vec::new();
    let mut i: usize = 0;
    while i < HEADER_LEN
        invariant
            i <= HEADER_LEN,
            out@.len() == i,
            out@ =~= header_bytes(version, resource_id, quality_id).subrange(0, i as int),
        decreases HEADER_LEN - i,
    {
        out.push(header_byte_at(version, resource_id, quality_id, i));
        i += 1;
    }
    assert(out@ =~= header_bytes(version, resource_id, quality_id));
    out
}

/// Header round trip: parsing a canonically encoded header with a supported
/// version recovers exactly the encoded field values.
pub proof fn lemma_header_round_trip(version: u32, resource_id: u32, quality_id: u32)
    requires
        version == 1 || version == 2,
    ensures
        Header::parse_result(header_bytes(version, resource_id, quality_id)) == Ok::<
            Header,
            KuwoCryptoError,
        >(Header { version, resource_id, quality_id }),
{
    let b = header_bytes(version, resource_id, quality_id);
    assert(b.subrange(0, MAGIC_LEN as int) =~= magic());
    lemma_field_at(b, u32_le_bytes(version), VERSION_OFFSET as int);
    lemma_field_at(b, u32_le_bytes(resource_id), RESOURCE_ID_OFFSET as int);
    lemma_field_at(b, u32_le_bytes(quality_id), QUALITY_ID_OFFSET as int);
    lemma_u32_le_round_trip(version);
    lemma_u32_le_round_trip(resource_id);
    lemma_u32_le_round_trip(quality_id);
}

/// Reading four bytes that agree with `field` at offset `off` decodes the
/// same value as decoding `field` itself.
proof fn lemma_field_at(b: Seq<u8>, field: Seq<u8>, off: int)
    requires
        field.len() == 4,
        0 <= off,
        off + 4 <= b.len(),
        forall|j: int| 0 <= j < 4 ==> b[off + j] == field[j],
    ensures
        le_u32_at(b, off) == le_u32_at(field, 0),
{
    assert(b[off] == field[0]);
    assert(b[off + 1] == field[1]);
    assert(b[off + 2] == field[2]);
    assert(b[off + 3] == field[3]);
}

/// Truncation rejection: any input shorter than the fixed header size
/// parses to `TruncatedHeader`.
pub proof fn lemma_truncation_rejected(b: Seq<u8>)
    requires
        b.len() < HEADER_LEN,
    ensures
        Header::parse_result(b) == Err::<Header, KuwoCryptoError>(KuwoCryptoError::TruncatedHeader),
{
}

/// Magic rejection: an input of full header length whose magic prefix is
/// wrong at any one position parses to `BadMagic`.
pub proof fn lemma_magic_rejected(b: Seq<u8>, k: int)
    requires
        b.len() >= HEADER_LEN,
        0 <= k < MAGIC_LEN,
        b[k] != magic()[k],
    ensures
        Header::parse_result(b) == Err::<Header, KuwoCryptoError>(KuwoCryptoError::BadMagic),
{
    assert(b.subrange(0, MAGIC_LEN as int)[k] == b[k]);
}

} // verus!
