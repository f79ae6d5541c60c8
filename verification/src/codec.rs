//! Serialization of event records.
//!
//! A record crosses the kernel/user-space boundary as a flat byte string:
//! one discriminator byte, the device id and the outcome code in
//! little-endian order, then the four string fields at fixed offsets. The
//! decoder trusts the producer for nothing but that layout: a record of the
//! wrong size or with an unknown discriminator is rejected, never a panic.

use crate::schema::{DecodedEvent, EventType, FileEvent, RECORD_LEN};
use crate::strbuf::{cstr, lemma_first_null_at, NAME_BUF_LEN, PATH_BUF_LEN};
use crate::transport::Record;
use vstd::bytes::{
    lemma_auto_spec_u32_to_from_le_bytes, spec_u32_from_le_bytes, spec_u32_to_le_bytes,
    u32_from_le_bytes, u32_to_le_bytes,
};
use vstd::prelude::*;

verus! {

/// Why a raw record was rejected. The single bad record is discarded and
/// ingestion goes on.
#[derive(Clone, Copy, Debug, PartialEq, Eq, Structural)]
pub enum DecodeError {
    /// The byte string does not have the fixed record size.
    WrongLength,
    /// The discriminator byte names no known event type.
    BadEventType,
}

/// The discriminator byte of an event type.
pub open spec fn tag_of(et: EventType) -> u8 {
    match et {
        EventType::Unlink => 0,
        EventType::Create => 1,
        EventType::Rename => 2,
    }
}

/// Whether a discriminator byte names an event type.
pub open spec fn tag_valid(t: u8) -> bool {
    t == 0 || t == 1 || t == 2
}

/// The event type a valid discriminator byte names.
pub open spec fn event_type_of(t: u8) -> EventType
    recommends
        tag_valid(t),
{
    if t == 0 {
        EventType::Unlink
    } else if t == 1 {
        EventType::Create
    } else {
        EventType::Rename
    }
}

/// The outcome code as it crosses the boundary: its two's-complement
/// 32-bit value.
pub open spec fn spec_i32_to_wire(x: i32) -> u32 {
    if x >= 0 {
        x as u32
    } else {
        (x + 0x1_0000_0000) as u32
    }
}

/// The outcome code read back from its two's-complement 32-bit value.
pub open spec fn spec_wire_to_i32(u: u32) -> i32 {
    if u < 0x8000_0000 {
        u as i32
    } else {
        (u - 0x1_0000_0000) as i32
    }
}

/// The two's-complement round trip loses nothing.
pub proof fn lemma_wire_i32_roundtrip(x: i32)
    ensures
        spec_wire_to_i32(spec_i32_to_wire(x)) == x,
{
}

/// The serialized form of a record: the fixed layout, byte for byte.
pub open spec fn spec_encode(ev: FileEvent) -> Seq<u8> {
    seq![tag_of(ev.event_type)] + spec_u32_to_le_bytes(ev.target_dev) + spec_u32_to_le_bytes(
        spec_i32_to_wire(ev.ret_val),
    ) + ev.src_path@ + ev.src_file@ + ev.trgt_path@ + ev.trgt_file@
}

/// What it means for `ev` to be the decoding of the byte string `bytes`:
/// the layout read back field by field. Every field of `ev` is a function
/// of `bytes`, so the decoding of a byte string is unique.
pub open spec fn decodes_to(bytes: Seq<u8>, ev: FileEvent) -> bool {
    &&& bytes.len() == RECORD_LEN
    &&& tag_valid(bytes[0])
    &&& ev.event_type == event_type_of(bytes[0])
    &&& ev.target_dev == spec_u32_from_le_bytes(bytes.subrange(1, 5))
    &&& ev.ret_val == spec_wire_to_i32(spec_u32_from_le_bytes(bytes.subrange(5, 9)))
    &&& ev.src_path@ == bytes.subrange(9, 9 + PATH_BUF_LEN as int)
    &&& ev.src_file@ == bytes.subrange(
        9 + PATH_BUF_LEN as int,
        9 + PATH_BUF_LEN as int + NAME_BUF_LEN as int,
    )
    &&& ev.trgt_path@ == bytes.subrange(
        9 + PATH_BUF_LEN as int + NAME_BUF_LEN as int,
        9 + 2 * PATH_BUF_LEN as int + NAME_BUF_LEN as int,
    )
    &&& ev.trgt_file@ == bytes.subrange(
        9 + 2 * PATH_BUF_LEN as int + NAME_BUF_LEN as int,
        RECORD_LEN as int,
    )
}

/// Appends a copy of `src` to `dst`.
fn append_bytes(dst: &mut Vec<u8>, src: &Vec<u8>)
    ensures
        final(dst)@ == old(dst)@ + src@,
{
    let ghost d0 = dst@;
    let mut i: usize = 0;
    while i < src.len()
        invariant
            i <= src.len(),
            dst@ == d0 + src@.take(i as int),
        decreases src.len() - i,
    {
        let b = src[i];
        proof {
            assert(d0 + src@.take(i as int + 1) =~= (d0 + src@.take(i as int)).push(src@[i as int]));
        }
        dst.push(b);
        i = i + 1;
    }
    proof {
        assert(src@.take(src@.len() as int) =~= src@);
    }
}

/// A copy of `len` bytes of `src` starting at `start`.
fn copy_range(src: &Vec<u8>, start: usize, len: usize) -> (v: Vec<u8>)
    requires
        start + len <= src.len(),
    ensures
        v@ == src@.subrange(start as int, start as int + len as int),
{
    let mut v: Vec<u8> = Vec::new();
    let mut i: usize = 0;
    while i < len
        invariant
            i <= len,
            start + len <= src.len(),
            v@ == src@.subrange(start as int, start as int + i as int),
        decreases len - i,
    {
        let b = src[start + i];
        proof {
            assert(src@.subrange(start as int, start as int + i as int + 1) =~= src@.subrange(
                start as int,
                start as int + i as int,
            ).push(src@[start as int + i as int]));
        }
        v.push(b);
        i = i + 1;
    }
    v
}

/// The outcome code, as sent: its two's-complement 32-bit value.
fn i32_to_wire(x: i32) -> (u: u32)
    ensures
        u == spec_i32_to_wire(x),
{
    if x >= 0 {
        x as u32
    } else {
        ((x as i64) + 0x1_0000_0000i64) as u32
    }
}

/// The outcome code, as received.
fn wire_to_i32(u: u32) -> (x: i32)
    ensures
        x == spec_wire_to_i32(u),
{
    if u < 0x8000_0000 {
        u as i32
    } else {
        ((u as i64) - 0x1_0000_0000i64) as i32
    }
}

/// Serializes a record for the transport, in the fixed layout.
pub fn encode(ev: &FileEvent) -> (rec: Record)
    requires
        ev.wf(),
    ensures
        rec.wf(),
        rec@ == spec_encode(*ev),
{
    let mut bytes: Vec<u8> = Vec::new();
    let tag: u8 = match ev.event_type {
        EventType::Unlink => 0,
        EventType::Create => 1,
        EventType::Rename => 2,
    };
    bytes.push(tag);
    let mut dev = u32_to_le_bytes(ev.target_dev);
    bytes.append(&mut dev);
    let mut ret = u32_to_le_bytes(i32_to_wire(ev.ret_val));
    bytes.append(&mut ret);
    append_bytes(&mut bytes, &ev.src_path);
    append_bytes(&mut bytes, &ev.src_file);
    append_bytes(&mut bytes, &ev.trgt_path);
    append_bytes(&mut bytes, &ev.trgt_file);
    proof {
        assert(bytes@ =~= spec_encode(*ev));
    }
    Record { bytes }
}

/// Reads a raw byte string back into a record. Succeeds exactly on byte
/// strings of the fixed size whose discriminator names an event type; a
/// malformed record yields the error that says why.
pub fn decode(bytes: &Vec<u8>) -> (r: Result<FileEvent, DecodeError>)
    ensures
        r is Ok <==> (bytes@.len() == RECORD_LEN && tag_valid(bytes@[0])),
        r is Ok ==> decodes_to(bytes@, r->Ok_0) && r->Ok_0.wf(),
        bytes@.len() != RECORD_LEN ==> r == Err::<FileEvent, DecodeError>(DecodeError::WrongLength),
        bytes@.len() == RECORD_LEN && !tag_valid(bytes@[0]) ==> r == Err::<
            FileEvent,
            DecodeError,
        >(DecodeError::BadEventType),
{
    if bytes.len() != RECORD_LEN {
        return Err(DecodeError::WrongLength);
    }
    let tag = bytes[0];
    let event_type = if tag == 0 {
        EventType::Unlink
    } else if tag == 1 {
        EventType::Create
    } else if tag == 2 {
        EventType::Rename
    } else {
        return Err(DecodeError::BadEventType);
    };
    let dev_bytes = copy_range(bytes, 1, 4);
    let target_dev = u32_from_le_bytes(dev_bytes.as_slice());
    let ret_bytes = copy_range(bytes, 5, 4);
    let ret_val = wire_to_i32(u32_from_le_bytes(ret_bytes.as_slice()));
    let src_path = copy_range(bytes, 9, PATH_BUF_LEN);
    let src_file = copy_range(bytes, 9 + PATH_BUF_LEN, NAME_BUF_LEN);
    let trgt_path = copy_range(bytes, 9 + PATH_BUF_LEN + NAME_BUF_LEN, PATH_BUF_LEN);
    let trgt_file = copy_range(bytes, 9 + 2 * PATH_BUF_LEN + NAME_BUF_LEN, NAME_BUF_LEN);
    Ok(FileEvent { event_type, target_dev, ret_val, src_path, src_file, trgt_path, trgt_file })
}

/// Encoding then decoding gives the record back: the layout loses nothing.
pub proof fn lemma_encode_decodes(ev: FileEvent)
    requires
        ev.wf(),
    ensures
        decodes_to(spec_encode(ev), ev),
{
    let b = spec_encode(ev);
    lemma_auto_spec_u32_to_from_le_bytes();
    lemma_wire_i32_roundtrip(ev.ret_val);
    assert(b.subrange(1, 5) =~= spec_u32_to_le_bytes(ev.target_dev));
    assert(b.subrange(5, 9) =~= spec_u32_to_le_bytes(spec_i32_to_wire(ev.ret_val)));
    assert(b.subrange(9, 9 + PATH_BUF_LEN as int) =~= ev.src_path@);
    assert(b.subrange(9 + PATH_BUF_LEN as int, 9 + PATH_BUF_LEN as int + NAME_BUF_LEN as int)
        =~= ev.src_file@);
    assert(b.subrange(
        9 + PATH_BUF_LEN as int + NAME_BUF_LEN as int,
        9 + 2 * PATH_BUF_LEN as int + NAME_BUF_LEN as int,
    ) =~= ev.trgt_path@);
    assert(b.subrange(9 + 2 * PATH_BUF_LEN as int + NAME_BUF_LEN as int, RECORD_LEN as int)
        =~= ev.trgt_file@);
}

/// Decoding is a pure function of the bytes: two decodings of the same
/// byte string agree on every field, so decoding twice changes nothing.
pub proof fn lemma_decode_deterministic(bytes: Seq<u8>, e1: FileEvent, e2: FileEvent)
    requires
        decodes_to(bytes, e1),
        decodes_to(bytes, e2),
    ensures
        e1.event_type == e2.event_type,
        e1.target_dev == e2.target_dev,
        e1.ret_val == e2.ret_val,
        e1.src_path@ == e2.src_path@,
        e1.src_file@ == e2.src_file@,
        e1.trgt_path@ == e2.trgt_path@,
        e1.trgt_file@ == e2.trgt_file@,
{
}

/// End to end: whatever decodes from the serialized form of an emitted
/// record has that record's meaning — the same discriminator, device and
/// outcome, and the same stored strings. A record survives the transport
/// whole or not at all, so nothing partial or corrupt can reach the
/// consumer.
pub proof fn lemma_decoded_matches_emitted(ev: FileEvent, got: FileEvent)
    requires
        ev.wf(),
        decodes_to(spec_encode(ev), got),
    ensures
        got.event_type == ev.event_type,
        got.target_dev == ev.target_dev,
        got.ret_val == ev.ret_val,
        got.src_path_str() == ev.src_path_str(),
        got.src_file_str() == ev.src_file_str(),
        got.trgt_path_str() == ev.trgt_path_str(),
        got.trgt_file_str() == ev.trgt_file_str(),
{
    lemma_encode_decodes(ev);
    lemma_decode_deterministic(spec_encode(ev), ev, got);
}

/// The string stored in `buf`: the bytes before the first zero, or all of
/// `buf` when no terminator occurs within it (a truncated field).
pub fn extract_cstr(buf: &Vec<u8>) -> (s: Vec<u8>)
    ensures
        s@ == cstr(buf@),
{
    let mut n: usize = 0;
    while n < buf.len() && buf[n] != 0
        invariant
            n <= buf.len(),
            forall|j: int| 0 <= j < n ==> buf@[j] != 0,
        decreases buf.len() - n,
    {
        n = n + 1;
    }
    proof {
        lemma_first_null_at(buf@, n as int);
        assert(buf@.subrange(0, n as int) =~= cstr(buf@));
    }
    copy_range(buf, 0, n)
}

/// Extracts the record's strings, yielding the event as the consumer sees
/// it: each buffer replaced by its stored string.
pub fn decode_strings(ev: &FileEvent) -> (d: DecodedEvent)
    ensures
        d.event_type == ev.event_type,
        d.target_dev == ev.target_dev,
        d.ret_val == ev.ret_val,
        d.src_path@ == ev.src_path_str(),
        d.src_file@ == ev.src_file_str(),
        d.trgt_path@ == ev.trgt_path_str(),
        d.trgt_file@ == ev.trgt_file_str(),
{
    DecodedEvent {
        event_type: ev.event_type,
        target_dev: ev.target_dev,
        ret_val: ev.ret_val,
        src_path: extract_cstr(&ev.src_path),
        src_file: extract_cstr(&ev.src_file),
        trgt_path: extract_cstr(&ev.trgt_path),
        trgt_file: extract_cstr(&ev.trgt_file),
    }
}

/// One step of the ingestion loop: reinterprets a raw byte string from the
/// transport as a record and extracts its strings, yielding the event to
/// forward to the consumer. Succeeds exactly on well-shaped records; every
/// field of the result is a function of the bytes alone.
pub fn ingest(bytes: &Vec<u8>) -> (r: Result<DecodedEvent, DecodeError>)
    ensures
        r is Ok <==> (bytes@.len() == RECORD_LEN && tag_valid(bytes@[0])),
        r is Ok ==> ({
            let d = r->Ok_0;
            &&& d.event_type == event_type_of(bytes@[0])
            &&& d.target_dev == spec_u32_from_le_bytes(bytes@.subrange(1, 5))
            &&& d.ret_val == spec_wire_to_i32(spec_u32_from_le_bytes(bytes@.subrange(5, 9)))
            &&& d.src_path@ == cstr(bytes@.subrange(9, 9 + PATH_BUF_LEN as int))
            &&& d.src_file@ == cstr(
                bytes@.subrange(9 + PATH_BUF_LEN as int, 9 + PATH_BUF_LEN as int
                    + NAME_BUF_LEN as int),
            )
            &&& d.trgt_path@ == cstr(
                bytes@.subrange(9 + PATH_BUF_LEN as int + NAME_BUF_LEN as int, 9 + 2
                    * PATH_BUF_LEN as int + NAME_BUF_LEN as int),
            )
            &&& d.trgt_file@ == cstr(
                bytes@.subrange(9 + 2 * PATH_BUF_LEN as int + NAME_BUF_LEN as int,
                    RECORD_LEN as int),
            )
        }),
        bytes@.len() != RECORD_LEN ==> r == Err::<DecodedEvent, DecodeError>(
            DecodeError::WrongLength,
        ),
        bytes@.len() == RECORD_LEN && !tag_valid(bytes@[0]) ==> r == Err::<
            DecodedEvent,
            DecodeError,
        >(DecodeError::BadEventType),
{
    match decode(bytes) {
        Ok(ev) => Ok(decode_strings(&ev)),
        Err(e) => Err(e),
    }
}

} // verus!
