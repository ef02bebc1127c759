//! Planning the reads that bring the whole header into memory.
//!
//! The length of the header is known only once its first bytes are: version
//! 2 headers have 72 bytes, version 3 headers declare their length at offset
//! 100. The caller performs the reads; the functions here decide what to
//! read next.

use vstd::prelude::*;
use crate::bytes::{be_u32, clamp_u64, read_u32_be};
use crate::decode::decode_model;
use crate::error::DecodeError;
use crate::header::{MetadataModel, COMMON_HEADER_LEN, QCOW2_MAGIC, V3_HEADER_LEN};

verus! {

/// What to read after the first eight bytes of an image.
#[derive(Debug, Clone, Copy, PartialEq, Eq, Structural)]
pub enum HeaderRead {
    /// Read this many bytes from the start of the image: they are the header.
    Header(u32),
    /// Read the four bytes at offset 100: they hold the header length.
    LengthField,
}

/// The read that follows a prefix `s` of an image, or the reason why the
/// image cannot be decoded.
pub open spec fn read_after_prefix(s: Seq<u8>) -> Result<HeaderRead, DecodeError> {
    if s.len() < 8 {
        Err(DecodeError::Truncated(8, clamp_u64(s.len() as int)))
    } else if be_u32(s, 0) != QCOW2_MAGIC {
        Err(DecodeError::BadMagic)
    } else if be_u32(s, 4) == 2 {
        Ok(HeaderRead::Header(COMMON_HEADER_LEN))
    } else if be_u32(s, 4) == 3 {
        Ok(HeaderRead::LengthField)
    } else {
        Err(DecodeError::UnsupportedVersion(be_u32(s, 4)))
    }
}

/// Decides from the leading bytes of an image, of which only the first
/// eight are looked at, what to read next.
pub fn next_read(prefix: &[u8]) -> (r: Result<HeaderRead, DecodeError>)
    ensures
        r == read_after_prefix(prefix@),
{
    let len: usize = prefix.len();
    if len < 8 {
        return Err(DecodeError::Truncated(8, len as u64));
    }
    if read_u32_be(prefix, 0) != QCOW2_MAGIC {
        return Err(DecodeError::BadMagic);
    }
    let version: u32 = read_u32_be(prefix, 4);
    if version == 2 {
        Ok(HeaderRead::Header(COMMON_HEADER_LEN))
    } else if version == 3 {
        Ok(HeaderRead::LengthField)
    } else {
        Err(DecodeError::UnsupportedVersion(version))
    }
}

/// The number of bytes to read for a version 3 header that declares
/// `header_length`: that length, unless it does not cover the fixed fields.
pub fn version_3_read(header_length: u32) -> (r: Result<u32, DecodeError>)
    ensures
        r == (if header_length < V3_HEADER_LEN {
            Err::<u32, DecodeError>(DecodeError::InvalidHeaderLength)
        } else {
            Ok::<u32, DecodeError>(header_length)
        }),
{
    if header_length < V3_HEADER_LEN {
        Err(DecodeError::InvalidHeaderLength)
    } else {
        Ok(header_length)
    }
}

/// Planning and decoding agree. Where the plan fails on a buffer of at least
/// eight bytes, decoding that buffer fails in the same way; where it asks for
/// a version 2 header, decoding fails only for want of bytes; and where a
/// version 3 header declares a length that the plan refuses, decoding a
/// buffer that holds the fixed fields refuses it too.
pub proof fn plan_agrees_with_decoding(s: Seq<u8>)
    requires
        8 <= s.len() <= u64::MAX,
    ensures
        read_after_prefix(s) matches Err(e) ==> decode_model(s) == Err::<
            MetadataModel,
            DecodeError,
        >(e),
        read_after_prefix(s) == Ok::<HeaderRead, DecodeError>(HeaderRead::Header(72)) ==> (
        decode_model(s) is Ok <==> s.len() >= 72),
        read_after_prefix(s) == Ok::<HeaderRead, DecodeError>(HeaderRead::LengthField) && s.len()
            >= 104 && be_u32(s, 100) < 104 ==> decode_model(s) == Err::<
            MetadataModel,
            DecodeError,
        >(DecodeError::InvalidHeaderLength),
{
}

} // verus!
