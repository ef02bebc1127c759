use qcow2_header::extension::{extensions_overrun, padded_length, parse_extensions};
use qcow2_header::{decode, DecodeError, Qcow2HeaderExtension, QCOW2_MAGIC};

fn v3_image(len: usize, header_length: u32) -> Vec<u8> {
    let mut buf = vec![0u8; len];
    buf[0..4].copy_from_slice(&QCOW2_MAGIC.to_be_bytes());
    buf[4..8].copy_from_slice(&3u32.to_be_bytes());
    buf[20..24].copy_from_slice(&16u32.to_be_bytes());
    buf[100..104].copy_from_slice(&header_length.to_be_bytes());
    buf
}

fn put_record(buf: &mut Vec<u8>, off: usize, extension_type: u32, data: &[u8]) {
    buf[off..off + 4].copy_from_slice(&extension_type.to_be_bytes());
    buf[off + 4..off + 8].copy_from_slice(&(data.len() as u32).to_be_bytes());
    buf[off + 8..off + 8 + data.len()].copy_from_slice(data);
}

fn record(extension_type: u32, data: &[u8]) -> Qcow2HeaderExtension {
    Qcow2HeaderExtension { extension_type, length: data.len() as u32, data: data.to_vec() }
}

#[test]
fn padded_length_rounds_up_to_eight() {
    assert_eq!(padded_length(0), 0);
    assert_eq!(padded_length(1), 8);
    assert_eq!(padded_length(7), 8);
    assert_eq!(padded_length(8), 8);
    assert_eq!(padded_length(9), 16);
    assert_eq!(padded_length(104), 104);
    assert_eq!(padded_length(105), 112);
    assert_eq!(padded_length(u32::MAX), 0x1_0000_0000);
}

#[test]
fn records_are_read_until_the_end_marker() {
    let mut buf = vec![0xccu8; 64];
    put_record(&mut buf, 0, 0xe279_2aca, b"raw");
    put_record(&mut buf, 16, 0x6803_f857, b"12345678");
    put_record(&mut buf, 32, 0, b"");
    put_record(&mut buf, 40, 0x4441_5441, b"after the end");
    assert_eq!(
        parse_extensions(&buf, 0),
        Ok(vec![record(0xe279_2aca, b"raw"), record(0x6803_f857, b"12345678")])
    );
}

#[test]
fn end_marker_length_is_not_looked_at() {
    let mut buf = vec![0u8; 16];
    buf[4..8].copy_from_slice(&1000u32.to_be_bytes());
    assert_eq!(parse_extensions(&buf, 0), Ok(vec![]));
}

#[test]
fn records_may_start_in_the_middle() {
    let mut buf = vec![0xffu8; 48];
    put_record(&mut buf, 8, 7, b"abcdefghi");
    put_record(&mut buf, 32, 0, b"");
    assert_eq!(parse_extensions(&buf, 8), Ok(vec![record(7, b"abcdefghi")]));
}

#[test]
fn list_without_end_marker_stops_at_the_end_of_the_buffer() {
    let mut buf = vec![0u8; 32];
    put_record(&mut buf, 0, 1, b"12345678");
    put_record(&mut buf, 16, 2, b"abcdefgh");
    assert_eq!(
        parse_extensions(&buf, 0),
        Ok(vec![record(1, b"12345678"), record(2, b"abcdefgh")])
    );
    let mut buf = vec![0x11u8; 23];
    put_record(&mut buf, 0, 1, b"12345678");
    assert_eq!(parse_extensions(&buf, 0), Ok(vec![record(1, b"12345678")]));
}

#[test]
fn last_record_may_lack_its_padding() {
    let mut buf = vec![0u8; 11];
    put_record(&mut buf, 0, 5, b"xyz");
    assert_eq!(parse_extensions(&buf, 0), Ok(vec![record(5, b"xyz")]));
}

#[test]
fn empty_payload_is_a_record() {
    let mut buf = vec![0u8; 16];
    put_record(&mut buf, 0, 9, b"");
    assert_eq!(parse_extensions(&buf, 0), Ok(vec![record(9, b"")]));
}

#[test]
fn start_at_or_after_the_end_gives_no_records() {
    let mut buf = vec![0u8; 16];
    put_record(&mut buf, 0, 9, b"12345678");
    assert_eq!(parse_extensions(&buf, 16), Ok(vec![]));
    assert_eq!(parse_extensions(&buf, 9), Ok(vec![]));
    assert_eq!(parse_extensions(&buf, 17), Ok(vec![]));
    assert_eq!(parse_extensions(&buf, u64::MAX), Ok(vec![]));
    assert_eq!(parse_extensions(&[], 0), Ok(vec![]));
}

#[test]
fn payload_beyond_the_buffer_is_truncated() {
    let mut buf = vec![0u8; 16];
    buf[0..4].copy_from_slice(&1u32.to_be_bytes());
    buf[4..8].copy_from_slice(&9u32.to_be_bytes());
    assert_eq!(parse_extensions(&buf, 0), Err(DecodeError::Truncated(17, 16)));
    let mut buf = vec![0u8; 40];
    put_record(&mut buf, 0, 1, b"0123456789");
    buf[24..28].copy_from_slice(&2u32.to_be_bytes());
    buf[28..32].copy_from_slice(&u32::MAX.to_be_bytes());
    assert_eq!(parse_extensions(&buf, 0), Err(DecodeError::Truncated(32 + 0xffff_ffff, 40)));
}

#[test]
fn decode_reads_records_after_the_aligned_header_length() {
    let mut buf = v3_image(144, 105);
    buf[104] = 1;
    put_record(&mut buf, 112, 0xe279_2aca, b"qcow2");
    put_record(&mut buf, 128, 0, b"");
    let metadata = decode(&buf).unwrap();
    assert_eq!(metadata.v3_header.unwrap().compression_type, Some(1));
    assert_eq!(metadata.extensions, Some(vec![record(0xe279_2aca, b"qcow2")]));
}

#[test]
fn decode_with_aligned_header_length_reads_records_right_after_it() {
    let mut buf = v3_image(136, 112);
    put_record(&mut buf, 112, 0x6803_f857, b"0123456789ab");
    let metadata = decode(&buf).unwrap();
    assert_eq!(metadata.extensions, Some(vec![record(0x6803_f857, b"0123456789ab")]));
}

#[test]
fn decode_fails_on_a_record_that_does_not_fit() {
    let mut buf = v3_image(128, 112);
    buf[112..116].copy_from_slice(&0x6803_f857u32.to_be_bytes());
    buf[116..120].copy_from_slice(&9u32.to_be_bytes());
    assert_eq!(decode(&buf), Err(DecodeError::Truncated(129, 128)));
}

#[test]
fn decode_of_exactly_the_header_has_no_records() {
    let buf = v3_image(112, 112);
    assert_eq!(decode(&buf).unwrap().extensions, Some(vec![]));
    let buf = v3_image(119, 112);
    assert_eq!(decode(&buf).unwrap().extensions, Some(vec![]));
}

#[test]
fn overrun_compares_the_end_of_each_record_with_the_bound() {
    let records = vec![record(1, b"abc"), record(2, b"0123456789")];
    assert!(!extensions_overrun(&records, 0, 40));
    assert!(extensions_overrun(&records, 0, 39));
    assert!(!extensions_overrun(&records, 100, 140));
    assert!(extensions_overrun(&records, 101, 140));
    assert!(extensions_overrun(&records, 0, 15));
    assert!(extensions_overrun(&records, 200, 100));
    assert!(extensions_overrun(&records, u64::MAX, u64::MAX));
    assert!(!extensions_overrun(&Vec::new(), 200, 100));
    assert!(!extensions_overrun(&Vec::new(), 0, 0));
}

#[test]
fn overrun_goes_by_the_declared_length_of_a_record() {
    let records =
        vec![Qcow2HeaderExtension { extension_type: 1, length: 17, data: vec![1, 2, 3] }];
    assert!(!extensions_overrun(&records, 0, 32));
    assert!(extensions_overrun(&records, 0, 31));
}
