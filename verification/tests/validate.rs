use qcow2_header::{
    decode, validate, validate_image, Qcow2Header, Qcow2HeaderExtension, Qcow2Metadata,
    Qcow2V3Header, ValidateQcow2Struct, Violation, QCOW2_MAGIC,
};

fn good_header() -> Qcow2Header {
    Qcow2Header {
        magic: QCOW2_MAGIC,
        version: 2,
        backing_file_offset: 0,
        backing_file_size: 0,
        cluster_bits: 16,
        size: 1 << 30,
        crypt_method: 0,
        l1_size: 2,
        l1_table_offset: 0x30000,
        refcount_table_offset: 0x10000,
        refcount_table_clusters: 1,
        nb_snapshots: 0,
        snapshots_offset: 0,
    }
}

fn v2(header: Qcow2Header) -> Qcow2Metadata {
    Qcow2Metadata { header, v3_header: None, extensions: None }
}

fn v3(header_length: u32, records: Vec<Qcow2HeaderExtension>) -> Qcow2Metadata {
    let mut header = good_header();
    header.version = 3;
    Qcow2Metadata {
        header,
        v3_header: Some(Qcow2V3Header {
            incompatible_features: 0,
            compatible_features: 0,
            autoclear_features: 0,
            refcount_order: 4,
            header_length,
            compression_type: None,
        }),
        extensions: Some(records),
    }
}

#[test]
fn sound_header_has_no_violations() {
    assert_eq!(validate(&v2(good_header()), true), vec![]);
    assert_eq!(validate(&v2(good_header()), false), vec![]);
    assert_eq!(validate(&v3(104, vec![]), true), vec![]);
    assert!(v2(good_header()).is_valid(true));
    assert!(good_header().is_valid(false));
}

#[test]
fn backing_size_without_offset_is_inconsistent() {
    let mut header = good_header();
    header.backing_file_offset = 0;
    header.backing_file_size = 100;
    assert_eq!(validate(&v2(header), true), vec![Violation::BackingFileInconsistent]);
    assert_eq!(validate(&v2(header), false), vec![Violation::BackingFileInconsistent]);
    assert!(!header.validate_backing(true));
    assert!(!header.is_valid(true));
    assert_eq!(header.backing_region(), None);
}

#[test]
fn backing_offset_without_size_is_inconsistent() {
    let mut header = good_header();
    header.backing_file_offset = 4096;
    header.backing_file_size = 0;
    assert_eq!(validate(&v2(header), true), vec![Violation::BackingFileInconsistent]);
    assert!(!header.validate_backing(true));
    assert_eq!(header.backing_region(), None);
}

#[test]
fn cluster_bits_8_is_out_of_range() {
    let mut header = good_header();
    header.cluster_bits = 8;
    assert_eq!(validate(&v2(header), true), vec![Violation::ClusterBitsOutOfRange]);
    assert!(!header.validate_cluster_bits());
    assert!(!header.is_valid(true));
}

#[test]
fn cluster_bits_range_is_9_to_21() {
    let mut header = good_header();
    header.cluster_bits = 9;
    assert!(header.validate_cluster_bits());
    header.cluster_bits = 21;
    assert!(header.validate_cluster_bits());
    assert_eq!(validate(&v2(header), true), vec![]);
    header.cluster_bits = 22;
    assert!(!header.validate_cluster_bits());
    assert_eq!(validate(&v2(header), true), vec![Violation::ClusterBitsOutOfRange]);
    header.cluster_bits = 0;
    assert!(!header.validate_cluster_bits());
    header.cluster_bits = u32::MAX;
    assert!(!header.validate_cluster_bits());
}

#[test]
fn crypt_method_is_0_1_or_2() {
    let mut header = good_header();
    header.crypt_method = 0;
    assert!(header.validate_crypt_method());
    header.crypt_method = 1;
    assert!(header.validate_crypt_method());
    assert_eq!(validate(&v2(header), true), vec![]);
    header.crypt_method = 2;
    assert!(header.validate_crypt_method());
    assert_eq!(validate(&v2(header), true), vec![]);
    header.crypt_method = 3;
    assert!(!header.validate_crypt_method());
    assert!(!header.is_valid(true));
    assert_eq!(validate(&v2(header), true), vec![Violation::CryptMethodInvalid]);
}

#[test]
fn empty_disk_with_l1_entries_is_inconsistent() {
    let mut header = good_header();
    header.size = 0;
    header.l1_size = 5;
    assert_eq!(validate(&v2(header), true), vec![Violation::L1SizeInconsistentWithZeroDisk]);
    assert!(!header.validate_l1_size());
    assert!(!header.is_valid(true));
    header.l1_size = 0;
    assert!(header.validate_l1_size());
    assert_eq!(validate(&v2(header), true), vec![]);
    header.size = 1;
    header.l1_size = 5;
    assert!(header.validate_l1_size());
}

#[test]
fn unreadable_backing_file_is_reported() {
    let mut header = good_header();
    header.backing_file_offset = 4096;
    header.backing_file_size = 12;
    assert_eq!(header.backing_region(), Some((4096, 12)));
    assert_eq!(validate(&v2(header), true), vec![]);
    assert_eq!(validate(&v2(header), false), vec![Violation::BackingFileUnreadable]);
    assert!(header.validate_backing(true));
    assert!(!header.validate_backing(false));
    assert!(header.is_valid(true));
    assert!(!header.is_valid(false));
    assert!(!v2(header).is_valid(false));
}

#[test]
fn record_after_the_header_overruns_it() {
    let records = vec![Qcow2HeaderExtension { extension_type: 1, length: 3, data: vec![1, 2, 3] }];
    let metadata = v3(112, records);
    assert!(metadata.extensions_overrun_header());
    assert_eq!(validate(&metadata, true), vec![Violation::ExtensionOverrunsHeader]);
    assert!(!metadata.is_valid(true));
    assert!(metadata.header.is_valid(true));
    assert!(!v3(112, vec![]).extensions_overrun_header());
}

#[test]
fn declared_header_length_is_72_without_version_3_fields() {
    assert_eq!(v2(good_header()).declared_header_length(), 72);
    assert_eq!(v3(104, vec![]).declared_header_length(), 104);
    assert_eq!(v3(4096, vec![]).declared_header_length(), 4096);
}

#[test]
fn all_violations_come_in_a_fixed_order() {
    let mut metadata = v3(
        104,
        vec![Qcow2HeaderExtension { extension_type: 2, length: 0, data: vec![] }],
    );
    metadata.header.backing_file_size = 1;
    metadata.header.cluster_bits = 30;
    metadata.header.crypt_method = 7;
    metadata.header.size = 0;
    assert_eq!(
        validate(&metadata, false),
        vec![
            Violation::BackingFileInconsistent,
            Violation::ClusterBitsOutOfRange,
            Violation::CryptMethodInvalid,
            Violation::L1SizeInconsistentWithZeroDisk,
            Violation::ExtensionOverrunsHeader,
        ]
    );
    metadata.header.backing_file_offset = 8;
    assert_eq!(
        validate(&metadata, false),
        vec![
            Violation::ClusterBitsOutOfRange,
            Violation::CryptMethodInvalid,
            Violation::L1SizeInconsistentWithZeroDisk,
            Violation::ExtensionOverrunsHeader,
            Violation::BackingFileUnreadable,
        ]
    );
}

#[test]
fn image_in_memory_decides_whether_the_backing_file_is_readable() {
    let mut header = good_header();
    header.backing_file_offset = 100;
    header.backing_file_size = 28;
    let image = vec![0u8; 128];
    assert_eq!(validate_image(&v2(header), &image), vec![]);
    assert_eq!(
        validate_image(&v2(header), &image[..127]),
        vec![Violation::BackingFileUnreadable]
    );
    header.backing_file_offset = u64::MAX;
    assert_eq!(validate_image(&v2(header), &image), vec![Violation::BackingFileUnreadable]);
    assert_eq!(validate_image(&v2(good_header()), &[]), vec![]);
}

#[test]
fn decoded_header_is_validated() {
    let mut buf = vec![0u8; 72];
    buf[0..4].copy_from_slice(&QCOW2_MAGIC.to_be_bytes());
    buf[4..8].copy_from_slice(&2u32.to_be_bytes());
    buf[16..20].copy_from_slice(&100u32.to_be_bytes());
    buf[20..24].copy_from_slice(&8u32.to_be_bytes());
    buf[36..40].copy_from_slice(&5u32.to_be_bytes());
    let metadata = decode(&buf).unwrap();
    assert_eq!(
        validate(&metadata, true),
        vec![
            Violation::BackingFileInconsistent,
            Violation::ClusterBitsOutOfRange,
            Violation::L1SizeInconsistentWithZeroDisk,
        ]
    );
}
