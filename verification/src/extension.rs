//! Header extension records: the list of type/length/payload entries that
//! follows the fixed header fields.
//!
//! A record is a big-endian `u32` type, a big-endian `u32` payload length,
//! the payload, and padding up to the next multiple of eight bytes. A record
//! of type 0 ends the list.

use vstd::prelude::*;
use vstd::slice::{slice_subrange, slice_to_vec};
use crate::bytes::{be_u32, clamp_u64, read_u32_be};
use crate::error::DecodeError;
use crate::header::{extension_models, ExtensionModel, Qcow2HeaderExtension};

verus! {

/// Size in bytes of the type and length fields that open a record.
pub const RECORD_PREFIX_LEN: u64 = 8;

/// `n` rounded up to the next multiple of eight.
pub open spec fn align8(n: int) -> int {
    (n + 7) / 8 * 8
}

/// The bytes that a record with a payload of `length` bytes occupies:
/// prefix, payload and padding.
pub open spec fn record_span(length: u32) -> int {
    8 + align8(length as int)
}

/// The record that starts at `off` in `s`.
pub open spec fn record_at(s: Seq<u8>, off: int) -> ExtensionModel {
    ExtensionModel {
        extension_type: be_u32(s, off),
        length: be_u32(s, off + 4),
        data: s.subrange(off + 8, off + 8 + be_u32(s, off + 4)),
    }
}

/// Puts `prefix` in front of the records of `rest`, and keeps its error.
pub open spec fn prepend_records(
    prefix: Seq<ExtensionModel>,
    rest: Result<Seq<ExtensionModel>, DecodeError>,
) -> Result<Seq<ExtensionModel>, DecodeError> {
    match rest {
        Ok(records) => Ok(prefix + records),
        Err(e) => Err(e),
    }
}

/// The records stored in `s` from offset `off` on.
///
/// The list ends, without failure, at a record of type 0, or where fewer
/// than eight bytes are left for the prefix of a next record. A record whose
/// payload does not fit in `s` makes the whole list fail with
/// [`DecodeError::Truncated`], which carries the length `s` would need for
/// that payload and the length it has. The end-of-list record is not part of
/// the result.
pub open spec fn extension_list(s: Seq<u8>, off: int) -> Result<Seq<ExtensionModel>, DecodeError>
    decreases
        (if off <= s.len() {
            s.len() - off
        } else {
            0
        }),
{
    if off < 0 || off + 8 > s.len() {
        Ok(Seq::empty())
    } else if be_u32(s, off) == 0 {
        Ok(Seq::empty())
    } else if off + 8 + be_u32(s, off + 4) > s.len() {
        Err(
            DecodeError::Truncated(
                clamp_u64(off + 8 + be_u32(s, off + 4)),
                clamp_u64(s.len() as int),
            ),
        )
    } else {
        prepend_records(
            seq![record_at(s, off)],
            extension_list(s, off + record_span(be_u32(s, off + 4))),
        )
    }
}

/// The outcome of parsing a record list, with the records as models.
pub open spec fn extension_result_model(
    r: Result<Vec<Qcow2HeaderExtension>, DecodeError>,
) -> Result<Seq<ExtensionModel>, DecodeError> {
    match r {
        Ok(records) => Ok(extension_models(records@)),
        Err(e) => Err(e),
    }
}

/// Rounds a payload length up to the next multiple of eight.
pub fn padded_length(length: u32) -> (padded: u64)
    ensures
        padded == align8(length as int),
        length <= padded < length + 8,
        padded % 8 == 0,
{
    (length as u64 + 7) / 8 * 8
}

/// Parses the header extension records of `buf` that start at offset `start`.
///
/// Payloads are copied as they stand. A `start` beyond the end of `buf` gives
/// the empty list.
pub fn parse_extensions(buf: &[u8], start: u64) -> (r: Result<
    Vec<Qcow2HeaderExtension>,
    DecodeError,
>)
    ensures
        extension_result_model(r) == extension_list(buf@, start as int),
        r matches Ok(records) ==> forall|i: int|
            0 <= i < records@.len() ==> {
                &&& (#[trigger] records@[i]).data@.len() == records@[i].length
                &&& records@[i].extension_type != 0
            },
{
    let len: usize = buf.len();
    let mut records: Vec<Qcow2HeaderExtension> = Vec::new();
    let mut off: u64 = start;
    assert(extension_models(records@) + Seq::<ExtensionModel>::empty() =~= Seq::empty());
    loop
        invariant_except_break
            extension_list(buf@, start as int) == prepend_records(
                extension_models(records@),
                extension_list(buf@, off as int),
            ),
        invariant
            len == buf@.len(),
            forall|i: int|
                0 <= i < records@.len() ==> {
                    &&& (#[trigger] records@[i]).data@.len() == records@[i].length
                    &&& records@[i].extension_type != 0
                },
        ensures
            extension_list(buf@, start as int) == Ok::<Seq<ExtensionModel>, DecodeError>(
                extension_models(records@),
            ),
        decreases len - off,
    {
        assert(extension_models(records@) + Seq::<ExtensionModel>::empty() =~= extension_models(
            records@,
        ));
        if off > len as u64 || len as u64 - off < RECORD_PREFIX_LEN {
            break ;
        }
        let at: usize = off as usize;
        let extension_type: u32 = read_u32_be(buf, at);
        if extension_type == 0 {
            break ;
        }
        let length: u32 = read_u32_be(buf, at + 4);
        let room: u64 = len as u64 - off - RECORD_PREFIX_LEN;
        if length as u64 > room {
            let base: u64 = off + RECORD_PREFIX_LEN;
            let needed: u64 = if length as u64 > u64::MAX - base {
                u64::MAX
            } else {
                base + length as u64
            };
            return Err(DecodeError::Truncated(needed, len as u64));
        }
        let payload_start: usize = at + 8;
        let payload_end: usize = payload_start + length as usize;
        let data: Vec<u8> = slice_to_vec(slice_subrange(buf, payload_start, payload_end));
        let ghost before = extension_models(records@);
        let ghost rest = extension_list(buf@, off + record_span(length));
        records.push(Qcow2HeaderExtension { extension_type, length, data });
        assert(extension_models(records@) =~= before.push(record_at(buf@, off as int)));
        assert(prepend_records(before, prepend_records(seq![record_at(buf@, off as int)], rest))
            == prepend_records(extension_models(records@), rest)) by {
            if let Ok(tail) = rest {
                assert(before + (seq![record_at(buf@, off as int)] + tail) =~= before.push(
                    record_at(buf@, off as int),
                ) + tail);
            }
        }
        let padded: u64 = padded_length(length);
        if padded > room {
            break ;
        }
        off = off + RECORD_PREFIX_LEN + padded;
    }
    Ok(records)
}

/// Whether a run of records that starts at `offset` reaches beyond `bound`:
/// whether, for some record, the offset just after it and its padding is
/// greater than `bound`.
pub open spec fn records_overrun(records: Seq<ExtensionModel>, offset: int, bound: int) -> bool
    decreases records.len(),
{
    if records.len() == 0 {
        false
    } else {
        let next = offset + record_span(records[0].length);
        next > bound || records_overrun(records.drop_first(), next, bound)
    }
}

/// Tells whether `records`, laid out one after another from `offset` on,
/// reach beyond `bound`.
pub fn extensions_overrun(records: &Vec<Qcow2HeaderExtension>, offset: u64, bound: u64) -> (r: bool)
    ensures
        r == records_overrun(extension_models(records@), offset as int, bound as int),
{
    let ghost all = extension_models(records@);
    let mut i: usize = 0;
    let mut at: u64 = offset;
    assert(all.skip(0) =~= all);
    while i < records.len()
        invariant
            i <= records@.len(),
            all == extension_models(records@),
            at <= bound || i == 0,
            records_overrun(all, offset as int, bound as int) == records_overrun(
                all.skip(i as int),
                at as int,
                bound as int,
            ),
        decreases records@.len() - i,
    {
        let padded: u64 = padded_length(records[i].length);
        let ghost tail = all.skip(i as int);
        assert(tail[0] == records@[i as int]@);
        assert(tail.drop_first() =~= all.skip(i + 1));
        if at > bound || padded > bound - at || RECORD_PREFIX_LEN > bound - at - padded {
            return true;
        }
        at = at + RECORD_PREFIX_LEN + padded;
        i = i + 1;
    }
    assert(all.skip(i as int).len() == 0);
    false
}

} // verus!
