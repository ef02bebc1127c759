//! Validation of a decoded header against the consistency rules of the
//! format.
//!
//! Validation reads the decoded fields only. The one rule that needs the
//! image itself, that the backing file name can be read, is decided by the
//! caller: [`Qcow2Header::backing_region`] names the bytes to read, and the
//! outcome of that read is handed to [`validate`].

use vstd::prelude::*;
use crate::error::Violation;
use crate::extension::{align8, extensions_overrun, padded_length, records_overrun};
use crate::header::{MetadataModel, Qcow2Header, Qcow2Metadata, COMMON_HEADER_LEN};

verus! {

/// Smallest cluster size exponent that the format admits.
pub const MIN_CLUSTER_BITS: u32 = 9;

/// Largest cluster size exponent that the format admits.
pub const MAX_CLUSTER_BITS: u32 = 21;

/// Largest encryption method that the format defines: 0 is none, 1 is AES,
/// 2 is LUKS.
pub const MAX_CRYPT_METHOD: u32 = 2;

impl Qcow2Header {
    /// The header names a backing file: offset and size are both nonzero.
    pub open spec fn has_backing_file(&self) -> bool {
        self.backing_file_offset != 0 && self.backing_file_size != 0
    }

    /// Backing file offset and size are both zero or both nonzero.
    pub open spec fn backing_consistent(&self) -> bool {
        (self.backing_file_offset == 0) == (self.backing_file_size == 0)
    }

    /// No rule on the backing file is broken: the two fields are consistent,
    /// and where they name a backing file, its name could be read.
    pub open spec fn backing_valid(&self, backing_readable: bool) -> bool {
        self.backing_consistent() && (self.has_backing_file() ==> backing_readable)
    }

    /// The cluster size exponent lies in the admitted range.
    pub open spec fn cluster_bits_valid(&self) -> bool {
        MIN_CLUSTER_BITS <= self.cluster_bits <= MAX_CLUSTER_BITS
    }

    /// The encryption method is one that the format defines.
    pub open spec fn crypt_method_valid(&self) -> bool {
        self.crypt_method <= MAX_CRYPT_METHOD
    }

    /// An empty virtual disk has an empty L1 table.
    pub open spec fn l1_size_valid(&self) -> bool {
        self.size == 0 ==> self.l1_size == 0
    }

    /// All four rules on the common header hold.
    pub open spec fn valid(&self, backing_readable: bool) -> bool {
        &&& self.backing_valid(backing_readable)
        &&& self.cluster_bits_valid()
        &&& self.crypt_method_valid()
        &&& self.l1_size_valid()
    }

    /// The bytes of the image that hold the backing file name, as offset and
    /// length, where the header names a backing file.
    pub fn backing_region(&self) -> (region: Option<(u64, u32)>)
        ensures
            region == (if self.has_backing_file() {
                Some((self.backing_file_offset, self.backing_file_size))
            } else {
                None
            }),
    {
        if self.backing_file_offset != 0 && self.backing_file_size != 0 {
            Some((self.backing_file_offset, self.backing_file_size))
        } else {
            None
        }
    }

    /// Checks the rules on the backing file. `backing_readable` says whether
    /// the bytes named by [`Self::backing_region`] could be read; it is not
    /// looked at where the header names no backing file.
    pub fn validate_backing(&self, backing_readable: bool) -> (ok: bool)
        ensures
            ok == self.backing_valid(backing_readable),
    {
        if self.backing_file_offset == 0 && self.backing_file_size == 0 {
            true
        } else if self.backing_file_offset > 0 && self.backing_file_size > 0 {
            backing_readable
        } else {
            false
        }
    }

    /// Checks that the cluster size exponent lies in the admitted range.
    pub fn validate_cluster_bits(&self) -> (ok: bool)
        ensures
            ok == self.cluster_bits_valid(),
    {
        self.cluster_bits >= MIN_CLUSTER_BITS && self.cluster_bits <= MAX_CLUSTER_BITS
    }

    /// Checks that the encryption method is one that the format defines.
    pub fn validate_crypt_method(&self) -> (ok: bool)
        ensures
            ok == self.crypt_method_valid(),
    {
        self.crypt_method <= MAX_CRYPT_METHOD
    }

    /// Checks that an empty virtual disk has an empty L1 table.
    pub fn validate_l1_size(&self) -> (ok: bool)
        ensures
            ok == self.l1_size_valid(),
    {
        !(self.size == 0 && self.l1_size != 0)
    }
}

/// The offset at which the extension records of `m` start: the declared
/// header length rounded up to a multiple of eight.
pub open spec fn extensions_start(m: MetadataModel) -> int {
    align8(m.declared_header_length())
}

/// Whether `m`, with the given outcome of the backing file read, breaks the
/// rule that `v` names.
pub open spec fn violated(m: MetadataModel, backing_readable: bool, v: Violation) -> bool {
    match v {
        Violation::BackingFileInconsistent => !m.header.backing_consistent(),
        Violation::ClusterBitsOutOfRange => !m.header.cluster_bits_valid(),
        Violation::CryptMethodInvalid => !m.header.crypt_method_valid(),
        Violation::L1SizeInconsistentWithZeroDisk => !m.header.l1_size_valid(),
        Violation::ExtensionOverrunsHeader => m.extensions matches Some(records)
            && records_overrun(records, extensions_start(m), m.declared_header_length()),
        Violation::BackingFileUnreadable => m.header.has_backing_file() && !backing_readable,
    }
}

/// The one-element list of `v` where `m` breaks its rule, and the empty list
/// where it does not.
pub open spec fn finding(m: MetadataModel, backing_readable: bool, v: Violation) -> Seq<Violation> {
    if violated(m, backing_readable, v) {
        seq![v]
    } else {
        Seq::empty()
    }
}

/// The violations of `m`, each once, in the order in which [`Violation`]
/// lists them.
pub open spec fn violations_of(m: MetadataModel, backing_readable: bool) -> Seq<Violation> {
    finding(m, backing_readable, Violation::BackingFileInconsistent) + finding(
        m,
        backing_readable,
        Violation::ClusterBitsOutOfRange,
    ) + finding(m, backing_readable, Violation::CryptMethodInvalid) + finding(
        m,
        backing_readable,
        Violation::L1SizeInconsistentWithZeroDisk,
    ) + finding(m, backing_readable, Violation::ExtensionOverrunsHeader) + finding(
        m,
        backing_readable,
        Violation::BackingFileUnreadable,
    )
}

impl Qcow2Metadata {
    /// The header length that the image declares, which is 72 in version 2.
    pub fn declared_header_length(&self) -> (length: u32)
        ensures
            length == self@.declared_header_length(),
    {
        match &self.v3_header {
            Some(v3) => v3.header_length,
            None => COMMON_HEADER_LEN,
        }
    }

    /// Tells whether the extension records, laid out from the header length
    /// rounded up to a multiple of eight, reach beyond the header length.
    pub fn extensions_overrun_header(&self) -> (overrun: bool)
        ensures
            overrun == violated(self@, true, Violation::ExtensionOverrunsHeader),
    {
        let bound: u32 = self.declared_header_length();
        match &self.extensions {
            Some(records) => extensions_overrun(records, padded_length(bound), bound as u64),
            None => false,
        }
    }
}

/// Collects the rules that `metadata` breaks.
///
/// `backing_readable` is the outcome of reading the bytes that
/// [`Qcow2Header::backing_region`] names, and is not looked at where the
/// header names no backing file. An empty report means that the header is
/// valid.
pub fn validate(metadata: &Qcow2Metadata, backing_readable: bool) -> (report: Vec<Violation>)
    ensures
        report@ == violations_of(metadata@, backing_readable),
{
    let ghost m = metadata@;
    let header: &Qcow2Header = &metadata.header;
    let mut report: Vec<Violation> = Vec::new();
    if (header.backing_file_offset == 0) != (header.backing_file_size == 0) {
        report.push(Violation::BackingFileInconsistent);
    }
    assert(report@ =~= finding(m, backing_readable, Violation::BackingFileInconsistent));
    if !header.validate_cluster_bits() {
        report.push(Violation::ClusterBitsOutOfRange);
    }
    if !header.validate_crypt_method() {
        report.push(Violation::CryptMethodInvalid);
    }
    if !header.validate_l1_size() {
        report.push(Violation::L1SizeInconsistentWithZeroDisk);
    }
    if metadata.extensions_overrun_header() {
        report.push(Violation::ExtensionOverrunsHeader);
    }
    if header.backing_region().is_some() && !backing_readable {
        report.push(Violation::BackingFileUnreadable);
    }
    assert(report@ =~= violations_of(m, backing_readable));
    report
}

/// Validates `metadata` against `image`, the bytes of the whole image held in
/// memory: the backing file name counts as readable exactly when the bytes
/// that the header names for it lie within `image`.
pub fn validate_image(metadata: &Qcow2Metadata, image: &[u8]) -> (report: Vec<Violation>)
    ensures
        report@ == violations_of(
            metadata@,
            metadata.header.backing_file_offset + metadata.header.backing_file_size
                <= image@.len(),
        ),
{
    let len: u64 = image.len() as u64;
    let offset: u64 = metadata.header.backing_file_offset;
    let size: u64 = metadata.header.backing_file_size as u64;
    let readable: bool = offset <= len && size <= len - offset;
    validate(metadata, readable)
}

/// Types that can be judged valid or invalid as a whole.
pub trait ValidateQcow2Struct {
    /// No rule that applies to the value is broken, given the outcome of the
    /// backing file read.
    spec fn accepted(&self, backing_readable: bool) -> bool;

    /// Tells whether the value breaks no rule.
    fn is_valid(&self, backing_readable: bool) -> (ok: bool)
        ensures
            ok == self.accepted(backing_readable),
    ;
}

impl ValidateQcow2Struct for Qcow2Header {
    open spec fn accepted(&self, backing_readable: bool) -> bool {
        self.valid(backing_readable)
    }

    fn is_valid(&self, backing_readable: bool) -> (ok: bool) {
        let backing_valid: bool = self.validate_backing(backing_readable);
        let cluster_bits_valid: bool = self.validate_cluster_bits();
        let crypt_method_valid: bool = self.validate_crypt_method();
        let l1_size_valid: bool = self.validate_l1_size();
        backing_valid && cluster_bits_valid && crypt_method_valid && l1_size_valid
    }
}

impl ValidateQcow2Struct for Qcow2Metadata {
    open spec fn accepted(&self, backing_readable: bool) -> bool {
        violations_of(self@, backing_readable).len() == 0
    }

    fn is_valid(&self, backing_readable: bool) -> (ok: bool) {
        validate(self, backing_readable).len() == 0
    }
}

} // verus!
