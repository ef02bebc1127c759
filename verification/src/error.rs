//! Failures of decoding and findings of validation.

use vstd::prelude::*;

verus! {

/// Why a byte buffer could not be decoded as a QCOW2 header.
///
/// Every variant is fatal to decoding: no metadata is produced.
#[derive(Debug, Clone, Copy, PartialEq, Eq, Structural)]
pub enum DecodeError {
    /// The first four bytes are not the QCOW2 magic number.
    BadMagic,
    /// The version field, carried here, is neither 2 nor 3.
    UnsupportedVersion(u32),
    /// The buffer ends too early: it would have to hold `.0` bytes and
    /// holds only `.1`.
    Truncated(u64, u64),
    /// A version 3 header declares a length that does not cover its own
    /// fixed fields.
    InvalidHeaderLength,
}

/// A consistency rule that a decoded header breaks.
///
/// Violations are findings, not failures: the header was decoded, and the
/// caller decides whether to accept the image.
#[derive(Debug, Clone, Copy, PartialEq, Eq, Structural)]
pub enum Violation {
    /// Exactly one of backing file offset and backing file size is zero.
    BackingFileInconsistent,
    /// The cluster size exponent lies outside 9 to 21.
    ClusterBitsOutOfRange,
    /// The encryption method is none of 0, 1 and 2.
    CryptMethodInvalid,
    /// The virtual disk is empty and yet the L1 table has entries.
    L1SizeInconsistentWithZeroDisk,
    /// The header extension records reach beyond the declared header length.
    ExtensionOverrunsHeader,
    /// The backing file name could not be read from the image.
    BackingFileUnreadable,
}

} // verus!
