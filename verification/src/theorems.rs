//! Facts about decoding and validation that hold for every input.

use vstd::prelude::*;
use crate::bytes::{be_u32, be_u64};
use crate::decode::{common_header_of, decode_model, decode_result_model};
use crate::error::{DecodeError, Violation};
use crate::extension::{align8, records_overrun};
use crate::header::{ExtensionModel, MetadataModel, Qcow2Metadata, QCOW2_MAGIC};
use crate::validate::{finding, violated, violations_of};

verus! {

/// The first four bytes of `s` are the magic number: `Q`, `F`, `I`, `0xfb`.
pub open spec fn starts_with_magic(s: Seq<u8>) -> bool {
    s.len() >= 4 && s[0] == 0x51 && s[1] == 0x46 && s[2] == 0x49 && s[3] == 0xfb
}

/// The big-endian integer at offset 0 is the magic constant exactly when
/// the first four bytes are those of the magic number.
pub proof fn magic_bytes(s: Seq<u8>)
    requires
        s.len() >= 4,
    ensures
        starts_with_magic(s) <==> be_u32(s, 0) == QCOW2_MAGIC,
{
}

/// A buffer of at least eight bytes that does not start with the magic
/// number is rejected as `BadMagic`, whatever else it holds.
pub proof fn wrong_magic_is_rejected(s: Seq<u8>)
    requires
        s.len() >= 8,
        !starts_with_magic(s),
    ensures
        decode_model(s) == Err::<MetadataModel, DecodeError>(DecodeError::BadMagic),
{
    magic_bytes(s);
}

/// A buffer that starts with the magic number and carries a version other
/// than 2 and 3 is rejected as `UnsupportedVersion` with that version.
pub proof fn unknown_version_is_rejected(s: Seq<u8>)
    requires
        s.len() >= 8,
        starts_with_magic(s),
        be_u32(s, 4) != 2,
        be_u32(s, 4) != 3,
    ensures
        decode_model(s) == Err::<MetadataModel, DecodeError>(
            DecodeError::UnsupportedVersion(be_u32(s, 4)),
        ),
{
    magic_bytes(s);
}

/// A version 2 buffer of at least 72 bytes decodes, every field of the
/// common header is the big-endian integer at its offset, and neither
/// version 3 fields nor extension records are present.
pub proof fn version_2_decodes(s: Seq<u8>)
    requires
        s.len() >= 72,
        starts_with_magic(s),
        be_u32(s, 4) == 2,
    ensures
        decode_model(s) matches Ok(m) && {
            &&& m.header.magic == be_u32(s, 0)
            &&& m.header.version == be_u32(s, 4)
            &&& m.header.backing_file_offset == be_u64(s, 8)
            &&& m.header.backing_file_size == be_u32(s, 16)
            &&& m.header.cluster_bits == be_u32(s, 20)
            &&& m.header.size == be_u64(s, 24)
            &&& m.header.crypt_method == be_u32(s, 32)
            &&& m.header.l1_size == be_u32(s, 36)
            &&& m.header.l1_table_offset == be_u64(s, 40)
            &&& m.header.refcount_table_offset == be_u64(s, 48)
            &&& m.header.refcount_table_clusters == be_u32(s, 56)
            &&& m.header.nb_snapshots == be_u32(s, 60)
            &&& m.header.snapshots_offset == be_u64(s, 64)
            &&& m.v3_header.is_none()
            &&& m.extensions.is_none()
        },
{
    magic_bytes(s);
}

/// A version 3 buffer that declares a header length of 104 decodes: the
/// version 3 fields are present, each the big-endian integer at its offset,
/// the compression type is absent and the extension list is empty.
pub proof fn version_3_minimal_decodes(s: Seq<u8>)
    requires
        s.len() >= 104,
        starts_with_magic(s),
        be_u32(s, 4) == 3,
        be_u32(s, 100) == 104,
    ensures
        decode_model(s) matches Ok(m) && m.v3_header matches Some(v3) && {
            &&& m.header == common_header_of(s)
            &&& m.extensions == Some(Seq::<ExtensionModel>::empty())
            &&& v3.incompatible_features == be_u64(s, 72)
            &&& v3.compatible_features == be_u64(s, 80)
            &&& v3.autoclear_features == be_u64(s, 88)
            &&& v3.refcount_order == be_u32(s, 96)
            &&& v3.header_length == 104
            &&& v3.compression_type.is_none()
        },
{
    magic_bytes(s);
}

/// Where a version 3 header is longer than 104 bytes and the buffer decodes,
/// the compression type is the byte at offset 104. A buffer that ends
/// before a first extension record could start, as one of exactly the
/// declared length does, decodes.
pub proof fn compression_type_is_byte_104(s: Seq<u8>)
    requires
        starts_with_magic(s),
        be_u32(s, 4) == 3,
        be_u32(s, 100) > 104,
        s.len() >= be_u32(s, 100),
    ensures
        decode_model(s) matches Ok(m) ==> (m.v3_header matches Some(v3) && v3.compression_type
            == Some(s[104])),
        s.len() < align8(be_u32(s, 100) as int) + 8 ==> decode_model(s) is Ok,
{
    magic_bytes(s);
}

/// A version 3 buffer that holds the fixed fields and is shorter than the
/// header length they declare is rejected as `Truncated`, with the declared
/// length and the length of the buffer.
pub proof fn short_of_declared_length_is_rejected(s: Seq<u8>)
    requires
        s.len() >= 104,
        starts_with_magic(s),
        be_u32(s, 4) == 3,
        s.len() < be_u32(s, 100),
    ensures
        decode_model(s) == Err::<MetadataModel, DecodeError>(
            DecodeError::Truncated(be_u32(s, 100) as u64, s.len() as u64),
        ),
{
    magic_bytes(s);
}

/// Decoding is a function of the bytes: two outcomes of decoding the same
/// buffer are the same error, or metadata with the same model.
pub proof fn decoding_is_deterministic(
    s: Seq<u8>,
    first: Result<Qcow2Metadata, DecodeError>,
    second: Result<Qcow2Metadata, DecodeError>,
)
    requires
        decode_result_model(first) == decode_model(s),
        decode_result_model(second) == decode_model(s),
    ensures
        decode_result_model(first) == decode_result_model(second),
        first is Ok <==> second is Ok,
{
}

/// A buffer of exactly the declared header length holds no extension
/// record: the records start at or after its end.
pub proof fn exact_header_has_no_records(s: Seq<u8>)
    requires
        starts_with_magic(s),
        be_u32(s, 4) == 3,
        be_u32(s, 100) >= 104,
        s.len() == be_u32(s, 100),
    ensures
        decode_model(s) matches Ok(m) && m.extensions == Some(Seq::<ExtensionModel>::empty()),
{
    magic_bytes(s);
}

/// Appending the finding of one more rule to a duplicate-free list that
/// does not hold that rule's violation keeps the list duplicate-free, and
/// adds that violation exactly when the rule is broken.
proof fn finding_appended(
    m: MetadataModel,
    backing_readable: bool,
    listed: Seq<Violation>,
    v: Violation,
)
    requires
        listed.no_duplicates(),
        !listed.contains(v),
    ensures
        (listed + finding(m, backing_readable, v)).no_duplicates(),
        forall|w: Violation| #[trigger]
            (listed + finding(m, backing_readable, v)).contains(w) <==> listed.contains(w) || (w
                == v && violated(m, backing_readable, v)),
{
    let longer = listed + finding(m, backing_readable, v);
    if violated(m, backing_readable, v) {
        assert(longer =~= listed.push(v));
        assert(longer[listed.len() as int] == v);
        assert forall|w: Violation| listed.contains(w) implies #[trigger] longer.contains(w) by {
            let i = choose|i: int| 0 <= i < listed.len() && listed[i] == w;
            assert(longer[i] == w);
        }
    } else {
        assert(longer =~= listed);
    }
}

/// The report holds a violation exactly when the metadata breaks its rule,
/// and holds none twice.
pub proof fn report_is_exact(m: MetadataModel, backing_readable: bool, v: Violation)
    ensures
        violations_of(m, backing_readable).contains(v) <==> violated(m, backing_readable, v),
        violations_of(m, backing_readable).no_duplicates(),
{
    let r0 = Seq::<Violation>::empty();
    let r1 = r0 + finding(m, backing_readable, Violation::BackingFileInconsistent);
    let r2 = r1 + finding(m, backing_readable, Violation::ClusterBitsOutOfRange);
    let r3 = r2 + finding(m, backing_readable, Violation::CryptMethodInvalid);
    let r4 = r3 + finding(m, backing_readable, Violation::L1SizeInconsistentWithZeroDisk);
    let r5 = r4 + finding(m, backing_readable, Violation::ExtensionOverrunsHeader);
    let r6 = r5 + finding(m, backing_readable, Violation::BackingFileUnreadable);
    finding_appended(m, backing_readable, r0, Violation::BackingFileInconsistent);
    finding_appended(m, backing_readable, r1, Violation::ClusterBitsOutOfRange);
    finding_appended(m, backing_readable, r2, Violation::CryptMethodInvalid);
    finding_appended(m, backing_readable, r3, Violation::L1SizeInconsistentWithZeroDisk);
    finding_appended(m, backing_readable, r4, Violation::ExtensionOverrunsHeader);
    finding_appended(m, backing_readable, r5, Violation::BackingFileUnreadable);
    assert(r1 =~= finding(m, backing_readable, Violation::BackingFileInconsistent));
    assert(r6 == violations_of(m, backing_readable));
}

/// The report is empty exactly when the four rules on the common header
/// hold and the extension records stay within the declared header length.
pub proof fn empty_report_means_valid(m: MetadataModel, backing_readable: bool)
    ensures
        violations_of(m, backing_readable).len() == 0 <==> m.header.valid(backing_readable)
            && !violated(m, backing_readable, Violation::ExtensionOverrunsHeader),
{
}

/// Records that start at or after `bound` overrun it as soon as there is one.
pub proof fn records_after_bound_overrun(records: Seq<ExtensionModel>, offset: int, bound: int)
    requires
        offset >= bound,
    ensures
        records_overrun(records, offset, bound) <==> records.len() > 0,
{
}

} // verus!
