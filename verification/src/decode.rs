//! Decoding of the header from the leading bytes of an image.
//!
//! All integers of the format are big-endian. The fields sit at fixed
//! offsets:
//!
//! | offset | size | field |
//! |---|---|---|
//! | 0 | 4 | magic |
//! | 4 | 4 | version |
//! | 8 | 8 | backing file offset |
//! | 16 | 4 | backing file size |
//! | 20 | 4 | cluster bits |
//! | 24 | 8 | virtual disk size |
//! | 32 | 4 | crypt method |
//! | 36 | 4 | L1 size |
//! | 40 | 8 | L1 table offset |
//! | 48 | 8 | refcount table offset |
//! | 56 | 4 | refcount table clusters |
//! | 60 | 4 | number of snapshots |
//! | 64 | 8 | snapshots offset |
//! | 72 | 8 | incompatible features (version 3) |
//! | 80 | 8 | compatible features (version 3) |
//! | 88 | 8 | autoclear features (version 3) |
//! | 96 | 4 | refcount order (version 3) |
//! | 100 | 4 | header length (version 3) |
//! | 104 | 1 | compression type (version 3, header longer than 104) |
//!
//! In version 3 the header extension records follow at the first multiple of
//! eight that is not below the header length.

use vstd::prelude::*;
use crate::bytes::{be_u32, be_u64, clamp_u64, read_u32_be, read_u64_be};
use crate::error::DecodeError;
use crate::extension::{align8, extension_list, padded_length, parse_extensions};
use crate::header::{
    extension_models, ExtensionModel, MetadataModel, Qcow2Header, Qcow2HeaderExtension,
    Qcow2Metadata, Qcow2V3Header, COMMON_HEADER_LEN, QCOW2_MAGIC, V3_HEADER_LEN,
};

verus! {

/// The common header that the first 72 bytes of `s` encode.
pub open spec fn common_header_of(s: Seq<u8>) -> Qcow2Header {
    Qcow2Header {
        magic: be_u32(s, 0),
        version: be_u32(s, 4),
        backing_file_offset: be_u64(s, 8),
        backing_file_size: be_u32(s, 16),
        cluster_bits: be_u32(s, 20),
        size: be_u64(s, 24),
        crypt_method: be_u32(s, 32),
        l1_size: be_u32(s, 36),
        l1_table_offset: be_u64(s, 40),
        refcount_table_offset: be_u64(s, 48),
        refcount_table_clusters: be_u32(s, 56),
        nb_snapshots: be_u32(s, 60),
        snapshots_offset: be_u64(s, 64),
    }
}

/// The version 3 fields that bytes 72 and following of `s` encode. The
/// compression type is taken from byte 104 where the declared header length
/// is greater than 104, and is absent otherwise.
pub open spec fn v3_header_of(s: Seq<u8>) -> Qcow2V3Header {
    Qcow2V3Header {
        incompatible_features: be_u64(s, 72),
        compatible_features: be_u64(s, 80),
        autoclear_features: be_u64(s, 88),
        refcount_order: be_u32(s, 96),
        header_length: be_u32(s, 100),
        compression_type: if be_u32(s, 100) > V3_HEADER_LEN {
            Some(s[104])
        } else {
            None
        },
    }
}

/// The header extension records of a version 3 header in `s`: none where the
/// declared header length is 104, and otherwise the list that starts at the
/// header length rounded up to a multiple of eight.
pub open spec fn v3_extensions_of(s: Seq<u8>) -> Result<Seq<ExtensionModel>, DecodeError> {
    if be_u32(s, 100) > V3_HEADER_LEN {
        extension_list(s, align8(be_u32(s, 100) as int))
    } else {
        Ok(Seq::empty())
    }
}

/// What decoding makes of the bytes `s`.
///
/// The checks come in this order, and the first that fails decides the error:
/// eight bytes for magic and version; the magic; the version; the bytes of
/// the fixed fields of that version; in version 3 a header length of at least
/// 104, then as many bytes as the header length declares, then the extension
/// records.
pub open spec fn decode_model(s: Seq<u8>) -> Result<MetadataModel, DecodeError> {
    let available = clamp_u64(s.len() as int);
    if s.len() < 8 {
        Err(DecodeError::Truncated(8, available))
    } else if be_u32(s, 0) != QCOW2_MAGIC {
        Err(DecodeError::BadMagic)
    } else if be_u32(s, 4) == 2 {
        if s.len() < COMMON_HEADER_LEN {
            Err(DecodeError::Truncated(COMMON_HEADER_LEN as u64, available))
        } else {
            Ok(MetadataModel { header: common_header_of(s), v3_header: None, extensions: None })
        }
    } else if be_u32(s, 4) == 3 {
        if s.len() < V3_HEADER_LEN {
            Err(DecodeError::Truncated(V3_HEADER_LEN as u64, available))
        } else if be_u32(s, 100) < V3_HEADER_LEN {
            Err(DecodeError::InvalidHeaderLength)
        } else if s.len() < be_u32(s, 100) {
            Err(DecodeError::Truncated(be_u32(s, 100) as u64, available))
        } else {
            match v3_extensions_of(s) {
                Ok(records) => Ok(
                    MetadataModel {
                        header: common_header_of(s),
                        v3_header: Some(v3_header_of(s)),
                        extensions: Some(records),
                    },
                ),
                Err(e) => Err(e),
            }
        }
    } else {
        Err(DecodeError::UnsupportedVersion(be_u32(s, 4)))
    }
}

/// The outcome of decoding, with the metadata as its model.
pub open spec fn decode_result_model(r: Result<Qcow2Metadata, DecodeError>) -> Result<
    MetadataModel,
    DecodeError,
> {
    match r {
        Ok(metadata) => Ok(metadata@),
        Err(e) => Err(e),
    }
}

/// Decodes the thirteen fields of the common header.
pub fn decode_common_header(buf: &[u8]) -> (header: Qcow2Header)
    requires
        buf@.len() >= COMMON_HEADER_LEN,
    ensures
        header == common_header_of(buf@),
{
    Qcow2Header {
        magic: read_u32_be(buf, 0),
        version: read_u32_be(buf, 4),
        backing_file_offset: read_u64_be(buf, 8),
        backing_file_size: read_u32_be(buf, 16),
        cluster_bits: read_u32_be(buf, 20),
        size: read_u64_be(buf, 24),
        crypt_method: read_u32_be(buf, 32),
        l1_size: read_u32_be(buf, 36),
        l1_table_offset: read_u64_be(buf, 40),
        refcount_table_offset: read_u64_be(buf, 48),
        refcount_table_clusters: read_u32_be(buf, 56),
        nb_snapshots: read_u32_be(buf, 60),
        snapshots_offset: read_u64_be(buf, 64),
    }
}

/// Decodes the fields that version 3 adds, the compression type included
/// where the header length says that it is there.
pub fn decode_v3_header(buf: &[u8]) -> (v3: Qcow2V3Header)
    requires
        buf@.len() >= V3_HEADER_LEN,
        buf@.len() >= be_u32(buf@, 100),
    ensures
        v3 == v3_header_of(buf@),
{
    let header_length: u32 = read_u32_be(buf, 100);
    let compression_type: Option<u8> = if header_length > V3_HEADER_LEN {
        Some(buf[104])
    } else {
        None
    };
    Qcow2V3Header {
        incompatible_features: read_u64_be(buf, 72),
        compatible_features: read_u64_be(buf, 80),
        autoclear_features: read_u64_be(buf, 88),
        refcount_order: read_u32_be(buf, 96),
        header_length,
        compression_type,
    }
}

/// Decodes the header of a QCOW2 image from `buf`, the leading bytes of the
/// image.
///
/// The result is exactly [`decode_model`] of the bytes: the metadata where
/// the bytes hold a header of version 2 or 3, and otherwise the error of the
/// first check that fails. Metadata that comes out is well formed.
pub fn decode(buf: &[u8]) -> (r: Result<Qcow2Metadata, DecodeError>)
    ensures
        decode_result_model(r) == decode_model(buf@),
        r matches Ok(metadata) ==> metadata@.wf(),
{
    let len: usize = buf.len();
    let available: u64 = len as u64;
    if len < 8 {
        return Err(DecodeError::Truncated(8, available));
    }
    if read_u32_be(buf, 0) != QCOW2_MAGIC {
        return Err(DecodeError::BadMagic);
    }
    let version: u32 = read_u32_be(buf, 4);
    if version == 2 {
        if available < COMMON_HEADER_LEN as u64 {
            return Err(DecodeError::Truncated(COMMON_HEADER_LEN as u64, available));
        }
        let header: Qcow2Header = decode_common_header(buf);
        Ok(Qcow2Metadata { header, v3_header: None, extensions: None })
    } else if version == 3 {
        if available < V3_HEADER_LEN as u64 {
            return Err(DecodeError::Truncated(V3_HEADER_LEN as u64, available));
        }
        let header_length: u32 = read_u32_be(buf, 100);
        if header_length < V3_HEADER_LEN {
            return Err(DecodeError::InvalidHeaderLength);
        }
        if available < header_length as u64 {
            return Err(DecodeError::Truncated(header_length as u64, available));
        }
        let header: Qcow2Header = decode_common_header(buf);
        let v3: Qcow2V3Header = decode_v3_header(buf);
        let records: Vec<Qcow2HeaderExtension> = if header_length > V3_HEADER_LEN {
            match parse_extensions(buf, padded_length(header_length)) {
                Ok(records) => records,
                Err(e) => {
                    return Err(e);
                },
            }
        } else {
            let none: Vec<Qcow2HeaderExtension> = Vec::new();
            assert(extension_models(none@) =~= Seq::empty());
            none
        };
        Ok(Qcow2Metadata { header, v3_header: Some(v3), extensions: Some(records) })
    } else {
        Err(DecodeError::UnsupportedVersion(version))
    }
}

impl vstd::std_specs::convert::TryFromSpecImpl<Vec<u8>> for Qcow2Metadata {
    /// The conversion is specified through models, by the contract of
    /// `try_from` itself: metadata owns vectors, and two vectors with the
    /// same content need not be the same value.
    open spec fn obeys_try_from_spec() -> bool {
        false
    }

    /// The error of decoding, or some metadata with the decoded model.
    open spec fn try_from_spec(value: Vec<u8>) -> Result<Self, DecodeError> {
        match decode_model(value@) {
            Ok(m) => Ok(choose|metadata: Qcow2Metadata| metadata@ == m),
            Err(e) => Err(e),
        }
    }
}

impl TryFrom<Vec<u8>> for Qcow2Metadata {
    type Error = DecodeError;

    /// Decodes the header held in `value`, as [`decode`] does.
    fn try_from(value: Vec<u8>) -> (r: Result<Self, DecodeError>)
        ensures
            decode_result_model(r) == decode_model(value@),
            r matches Ok(metadata) ==> metadata@.wf(),
    {
        decode(value.as_slice())
    }
}

} // verus!
