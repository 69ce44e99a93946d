//! The persisted layout of the two record types.
//!
//! Records are serialized into fixed-shape byte strings: every byte-string
//! field is length-prefixed (four bytes, little endian) and bounded by its
//! reserved capacity; a status is a one-byte tag, with a length-prefixed
//! label for custom statuses; a timestamp is a sign byte and an eight-byte
//! little-endian magnitude; booleans and counters are single bytes.
//!
//! Encoding fails with `CapacityExceeded` — never truncates — when a field
//! exceeds its reserved size.  Decoding a record's encoding reproduces every
//! field value: the round-trip laws `lemma_product_roundtrip` and
//! `lemma_entry_roundtrip` state that, and the decoders are proved to follow
//! `spec_dec_product` and `spec_dec_entry` exactly.

use vstd::bytes::lemma_auto_spec_u32_to_from_le_bytes;
use vstd::bytes::lemma_auto_spec_u64_to_from_le_bytes;
use vstd::bytes::spec_u32_from_le_bytes;
use vstd::bytes::spec_u32_to_le_bytes;
use vstd::bytes::spec_u64_from_le_bytes;
use vstd::bytes::spec_u64_to_le_bytes;
use vstd::bytes::u32_from_le_bytes;
use vstd::bytes::u32_to_le_bytes;
use vstd::bytes::u64_from_le_bytes;
use vstd::bytes::u64_to_le_bytes;
use vstd::prelude::*;
use vstd::slice::slice_subrange;

use crate::records::entry_caps_ok;
use crate::records::product_caps_ok;
use crate::records::status_fits;
use crate::records::JournalEntryState;
use crate::records::JournalEntryView;
use crate::records::Principal;
use crate::records::ProductState;
use crate::records::ProductView;
use crate::records::Status;
use crate::records::StatusV;
use crate::records::MAX_DESCRIPTION_BYTES;
use crate::records::MAX_ENTRY_LOCATION_BYTES;
use crate::records::MAX_ENTRY_STATUS_BYTES;
use crate::records::MAX_MESSAGE_BYTES;
use crate::records::MAX_NAME_BYTES;
use crate::records::MAX_PRINCIPAL_BYTES;
use crate::records::MAX_PRODUCT_ID_BYTES;
use crate::records::MAX_PRODUCT_LOCATION_BYTES;
use crate::records::MAX_PRODUCT_STATUS_BYTES;
use crate::records::MAX_TITLE_BYTES;
use crate::SupplyChainError;

verus! {

/// A byte-string field: four little-endian length bytes, then the bytes.
pub open spec fn enc_bytes(s: Seq<u8>) -> Seq<u8> {
    spec_u32_to_le_bytes(s.len() as u32) + s
}

/// A status: a one-byte tag; tag 4 carries a custom label as a field.
pub open spec fn enc_status(s: StatusV) -> Seq<u8> {
    match s {
        StatusV::Created => seq![0u8],
        StatusV::Transferred => seq![1u8],
        StatusV::Delivered => seq![2u8],
        StatusV::Deactivated => seq![3u8],
        StatusV::Custom(label) => seq![4u8] + enc_bytes(label),
    }
}

/// A timestamp: a sign byte (0 for non-negative, 1 for negative), then the
/// magnitude as eight little-endian bytes.
pub open spec fn enc_timestamp(t: int) -> Seq<u8> {
    if t >= 0 {
        seq![0u8] + spec_u64_to_le_bytes(t as u64)
    } else {
        seq![1u8] + spec_u64_to_le_bytes((-t) as u64)
    }
}

/// A boolean: one byte, 1 for true and 0 for false.
pub open spec fn enc_bool(b: bool) -> Seq<u8> {
    if b {
        seq![1u8]
    } else {
        seq![0u8]
    }
}

/// The persisted form of a product record.
pub open spec fn spec_enc_product(p: ProductView) -> Seq<u8> {
    enc_bytes(p.product_id) + enc_bytes(p.name) + enc_bytes(p.description) + enc_bytes(
        p.current_owner,
    ) + enc_bytes(p.current_location) + enc_status(p.current_status) + enc_timestamp(p.created_at)
        + enc_bool(p.is_active) + seq![p.journal_entries_count as u8]
}

/// The persisted form of a journal entry record.
pub open spec fn spec_enc_entry(e: JournalEntryView) -> Seq<u8> {
    enc_bytes(e.product_id) + enc_bytes(e.owner) + enc_timestamp(e.timestamp) + enc_bytes(e.title)
        + enc_bytes(e.message) + enc_status(e.status) + enc_bytes(e.location) + seq![
        e.entry_number as u8,
    ]
}

/// Appends every byte of `v`.
fn push_all(out: &mut Vec<u8>, v: &Vec<u8>)
    ensures
        final(out)@ == old(out)@ + v@,
{
    let mut i: usize = 0;
    while i < v.len()
        invariant
            i <= v@.len(),
            out@ == old(out)@ + v@.subrange(0, i as int),
        decreases v@.len() - i,
    {
        out.push(v[i]);
        proof {
            assert(out@ =~= old(out)@ + v@.subrange(0, i as int + 1));
        }
        i = i + 1;
    }
    proof {
        assert(old(out)@ + v@.subrange(0, v@.len() as int) =~= old(out)@ + v@);
    }
}

/// Appends a length-prefixed byte-string field.
fn push_field(out: &mut Vec<u8>, v: &Vec<u8>)
    requires
        v@.len() < 0x1_0000_0000,
    ensures
        final(out)@ == old(out)@ + enc_bytes(v@),
{
    let len_bytes = u32_to_le_bytes(v.len() as u32);
    push_all(out, &len_bytes);
    push_all(out, v);
    proof {
        assert((old(out)@ + spec_u32_to_le_bytes(v@.len() as u32)) + v@ =~= old(out)@ + enc_bytes(
            v@,
        ));
    }
}

/// Appends a status.
fn push_status(out: &mut Vec<u8>, s: &Status)
    requires
        status_fits(s@, 0xffff_ffff),
    ensures
        final(out)@ == old(out)@ + enc_status(s@),
{
    match s {
        Status::Created => {
            out.push(0);
            proof {
                assert(out@ =~= old(out)@ + enc_status(s@));
            }
        },
        Status::Transferred => {
            out.push(1);
            proof {
                assert(out@ =~= old(out)@ + enc_status(s@));
            }
        },
        Status::Delivered => {
            out.push(2);
            proof {
                assert(out@ =~= old(out)@ + enc_status(s@));
            }
        },
        Status::Deactivated => {
            out.push(3);
            proof {
                assert(out@ =~= old(out)@ + enc_status(s@));
            }
        },
        Status::Custom(label) => {
            out.push(4);
            push_field(out, label);
            proof {
                assert((old(out)@.push(4u8)) + enc_bytes(label@) =~= old(out)@ + enc_status(s@));
            }
        },
    }
}

/// Appends a timestamp.
fn push_timestamp(out: &mut Vec<u8>, t: i64)
    ensures
        final(out)@ == old(out)@ + enc_timestamp(t as int),
{
    if t >= 0 {
        out.push(0);
        let magnitude_bytes = u64_to_le_bytes(t as u64);
        push_all(out, &magnitude_bytes);
        proof {
            assert((old(out)@.push(0u8)) + spec_u64_to_le_bytes(t as u64) =~= old(out)@
                + enc_timestamp(t as int));
        }
    } else {
        let step: i64 = -(t + 1);
        let magnitude: u64 = (step as u64) + 1;
        proof {
            assert(magnitude == -(t as int));
        }
        out.push(1);
        let magnitude_bytes = u64_to_le_bytes(magnitude);
        push_all(out, &magnitude_bytes);
        proof {
            assert((old(out)@.push(1u8)) + spec_u64_to_le_bytes(magnitude) =~= old(out)@
                + enc_timestamp(t as int));
        }
    }
}

/// Serializes a product record, or fails with `CapacityExceeded` — without
/// truncating — if any field exceeds its reserved size.
pub fn encode_product(p: &ProductState) -> (r: Result<Vec<u8>, SupplyChainError>)
    ensures
        (match r {
            Ok(bytes) => product_caps_ok(p@) && bytes@ == spec_enc_product(p@),
            Err(code) => code == SupplyChainError::CapacityExceeded && !product_caps_ok(p@),
        }),
{
    if p.product_id.len() > MAX_PRODUCT_ID_BYTES || p.name.len() > MAX_NAME_BYTES
        || p.description.len() > MAX_DESCRIPTION_BYTES || p.current_owner.bytes.len()
        > MAX_PRINCIPAL_BYTES || p.current_location.len() > MAX_PRODUCT_LOCATION_BYTES
        || !p.current_status.fits(MAX_PRODUCT_STATUS_BYTES) {
        return Err(SupplyChainError::CapacityExceeded);
    }
    let mut out: Vec<u8> = Vec::new();
    push_field(&mut out, &p.product_id);
    push_field(&mut out, &p.name);
    push_field(&mut out, &p.description);
    push_field(&mut out, &p.current_owner.bytes);
    push_field(&mut out, &p.current_location);
    push_status(&mut out, &p.current_status);
    push_timestamp(&mut out, p.created_at);
    out.push(if p.is_active { 1 } else { 0 });
    out.push(p.journal_entries_count);
    proof {
        assert(out@ =~= spec_enc_product(p@));
    }
    Ok(out)
}

/// Serializes a journal entry record, or fails with `CapacityExceeded` —
/// without truncating — if any field exceeds its reserved size.
pub fn encode_entry(e: &JournalEntryState) -> (r: Result<Vec<u8>, SupplyChainError>)
    ensures
        (match r {
            Ok(bytes) => entry_caps_ok(e@) && bytes@ == spec_enc_entry(e@),
            Err(code) => code == SupplyChainError::CapacityExceeded && !entry_caps_ok(e@),
        }),
{
    if e.product_id.len() > MAX_PRODUCT_ID_BYTES || e.owner.bytes.len() > MAX_PRINCIPAL_BYTES
        || e.title.len() > MAX_TITLE_BYTES || e.message.len() > MAX_MESSAGE_BYTES
        || !e.status.fits(MAX_ENTRY_STATUS_BYTES) || e.location.len() > MAX_ENTRY_LOCATION_BYTES {
        return Err(SupplyChainError::CapacityExceeded);
    }
    let mut out: Vec<u8> = Vec::new();
    push_field(&mut out, &e.product_id);
    push_field(&mut out, &e.owner.bytes);
    push_timestamp(&mut out, e.timestamp);
    push_field(&mut out, &e.title);
    push_field(&mut out, &e.message);
    push_status(&mut out, &e.status);
    push_field(&mut out, &e.location);
    out.push(e.entry_number);
    proof {
        assert(out@ =~= spec_enc_entry(e@));
    }
    Ok(out)
}

/// What reading a length-prefixed field at `pos` yields: the field's bytes
/// (at most `cap` of them) and the position after it, or nothing if the
/// buffer holds no such field there.
pub open spec fn spec_dec_field(buf: Seq<u8>, pos: int, cap: int) -> Option<(Seq<u8>, int)> {
    if pos + 4 > buf.len() {
        None
    } else {
        let n = spec_u32_from_le_bytes(buf.subrange(pos, pos + 4)) as int;
        if n > cap || pos + 4 + n > buf.len() {
            None
        } else {
            Some((buf.subrange(pos + 4, pos + 4 + n), pos + 4 + n))
        }
    }
}

/// What reading a status at `pos` yields.
pub open spec fn spec_dec_status(buf: Seq<u8>, pos: int, cap: int) -> Option<(StatusV, int)> {
    if pos + 1 > buf.len() {
        None
    } else {
        let tag = buf[pos];
        if tag == 0 {
            Some((StatusV::Created, pos + 1))
        } else if tag == 1 {
            Some((StatusV::Transferred, pos + 1))
        } else if tag == 2 {
            Some((StatusV::Delivered, pos + 1))
        } else if tag == 3 {
            Some((StatusV::Deactivated, pos + 1))
        } else if tag == 4 {
            match spec_dec_field(buf, pos + 1, cap) {
                Some(pair) => Some((StatusV::Custom(pair.0), pair.1)),
                None => None,
            }
        } else {
            None
        }
    }
}

/// What reading a timestamp at `pos` yields.  Only canonical forms are
/// accepted: a magnitude within the signed range, and never a negative zero.
pub open spec fn spec_dec_timestamp(buf: Seq<u8>, pos: int) -> Option<(int, int)> {
    if pos + 9 > buf.len() {
        None
    } else {
        let sign = buf[pos];
        let n = spec_u64_from_le_bytes(buf.subrange(pos + 1, pos + 9));
        if sign == 0 {
            if n <= i64::MAX {
                Some((n as int, pos + 9))
            } else {
                None
            }
        } else if sign == 1 {
            if 1 <= n && n <= 0x8000_0000_0000_0000u64 {
                Some((-(n as int), pos + 9))
            } else {
                None
            }
        } else {
            None
        }
    }
}

/// What decoding a whole product record yields: exactly the encodings of
/// within-capacity products are accepted, and every field is reproduced.
pub open spec fn spec_dec_product(buf: Seq<u8>) -> Option<ProductView> {
    match spec_dec_field(buf, 0, MAX_PRODUCT_ID_BYTES as int) {
        None => None,
        Some((product_id, p1)) => match spec_dec_field(buf, p1, MAX_NAME_BYTES as int) {
            None => None,
            Some((name, p2)) => match spec_dec_field(buf, p2, MAX_DESCRIPTION_BYTES as int) {
                None => None,
                Some((description, p3)) => match spec_dec_field(
                    buf,
                    p3,
                    MAX_PRINCIPAL_BYTES as int,
                ) {
                    None => None,
                    Some((owner, p4)) => match spec_dec_field(
                        buf,
                        p4,
                        MAX_PRODUCT_LOCATION_BYTES as int,
                    ) {
                        None => None,
                        Some((location, p5)) => match spec_dec_status(
                            buf,
                            p5,
                            MAX_PRODUCT_STATUS_BYTES as int,
                        ) {
                            None => None,
                            Some((status, p6)) => match spec_dec_timestamp(buf, p6) {
                                None => None,
                                Some((created_at, p7)) => {
                                    if p7 + 2 == buf.len() && (buf[p7] == 0 || buf[p7] == 1) && buf[
                                        p7 + 1
                                    ] >= 1 {
                                        Some(
                                            ProductView {
                                                product_id,
                                                name,
                                                description,
                                                current_owner: owner,
                                                current_location: location,
                                                current_status: status,
                                                created_at,
                                                is_active: buf[p7] == 1,
                                                journal_entries_count: buf[p7 + 1] as int,
                                            },
                                        )
                                    } else {
                                        None
                                    }
                                },
                            },
                        },
                    },
                },
            },
        },
    }
}

/// What decoding a whole journal entry record yields.
pub open spec fn spec_dec_entry(buf: Seq<u8>) -> Option<JournalEntryView> {
    match spec_dec_field(buf, 0, MAX_PRODUCT_ID_BYTES as int) {
        None => None,
        Some((product_id, p1)) => match spec_dec_field(buf, p1, MAX_PRINCIPAL_BYTES as int) {
            None => None,
            Some((owner, p2)) => match spec_dec_timestamp(buf, p2) {
                None => None,
                Some((timestamp, p3)) => match spec_dec_field(buf, p3, MAX_TITLE_BYTES as int) {
                    None => None,
                    Some((title, p4)) => match spec_dec_field(buf, p4, MAX_MESSAGE_BYTES as int) {
                        None => None,
                        Some((message, p5)) => match spec_dec_status(
                            buf,
                            p5,
                            MAX_ENTRY_STATUS_BYTES as int,
                        ) {
                            None => None,
                            Some((status, p6)) => match spec_dec_field(
                                buf,
                                p6,
                                MAX_ENTRY_LOCATION_BYTES as int,
                            ) {
                                None => None,
                                Some((location, p7)) => {
                                    if p7 + 1 == buf.len() {
                                        Some(
                                            JournalEntryView {
                                                product_id,
                                                owner,
                                                timestamp,
                                                title,
                                                message,
                                                status,
                                                location,
                                                entry_number: buf[p7] as int,
                                            },
                                        )
                                    } else {
                                        None
                                    }
                                },
                            },
                        },
                    },
                },
            },
        },
    }
}

/// Reads the four length bytes at `pos`.
fn read_u32_at(buf: &Vec<u8>, pos: usize) -> (n: u32)
    requires
        pos + 4 <= buf@.len(),
    ensures
        n == spec_u32_from_le_bytes(buf@.subrange(pos as int, pos as int + 4)),
{
    let total = buf.len();
    proof {
        assert(pos + 4 <= total <= usize::MAX);
    }
    let s = slice_subrange(buf.as_slice(), pos, pos + 4);
    u32_from_le_bytes(s)
}

/// Reads a length-prefixed field at `pos`, bounded by `cap`.
fn read_field(buf: &Vec<u8>, pos: usize, cap: usize) -> (r: Option<(Vec<u8>, usize)>)
    requires
        pos <= buf@.len(),
    ensures
        (match r {
            Some(pair) => spec_dec_field(buf@, pos as int, cap as int) == Some(
                (pair.0@, pair.1 as int),
            ) && pos < pair.1 <= buf@.len(),
            None => spec_dec_field(buf@, pos as int, cap as int) is None,
        }),
{
    if buf.len() - pos < 4 {
        return None;
    }
    let n32 = read_u32_at(buf, pos);
    let n = n32 as usize;
    if n > cap {
        return None;
    }
    if n > buf.len() - (pos + 4) {
        return None;
    }
    let mut v: Vec<u8> = Vec::new();
    let mut i: usize = 0;
    while i < n
        invariant
            i <= n,
            pos + 4 + n <= buf@.len(),
            buf@.len() == buf.len(),
            v@ == buf@.subrange(pos as int + 4, pos as int + 4 + i as int),
        decreases n - i,
    {
        v.push(buf[pos + 4 + i]);
        proof {
            assert(v@ =~= buf@.subrange(pos as int + 4, pos as int + 4 + i as int + 1));
        }
        i = i + 1;
    }
    Some((v, pos + 4 + n))
}

/// Reads a status at `pos`, its custom label bounded by `cap`.
fn read_status(buf: &Vec<u8>, pos: usize, cap: usize) -> (r: Option<(Status, usize)>)
    requires
        pos <= buf@.len(),
    ensures
        (match r {
            Some(pair) => spec_dec_status(buf@, pos as int, cap as int) == Some(
                (pair.0@, pair.1 as int),
            ) && pos < pair.1 <= buf@.len(),
            None => spec_dec_status(buf@, pos as int, cap as int) is None,
        }),
{
    if buf.len() - pos < 1 {
        return None;
    }
    let tag = buf[pos];
    if tag == 0 {
        Some((Status::Created, pos + 1))
    } else if tag == 1 {
        Some((Status::Transferred, pos + 1))
    } else if tag == 2 {
        Some((Status::Delivered, pos + 1))
    } else if tag == 3 {
        Some((Status::Deactivated, pos + 1))
    } else if tag == 4 {
        match read_field(buf, pos + 1, cap) {
            Some(pair) => Some((Status::Custom(pair.0), pair.1)),
            None => None,
        }
    } else {
        None
    }
}

/// Reads a timestamp at `pos`.
fn read_timestamp(buf: &Vec<u8>, pos: usize) -> (r: Option<(i64, usize)>)
    requires
        pos <= buf@.len(),
    ensures
        (match r {
            Some(pair) => spec_dec_timestamp(buf@, pos as int) == Some(
                (pair.0 as int, pair.1 as int),
            ) && pos < pair.1 <= buf@.len(),
            None => spec_dec_timestamp(buf@, pos as int) is None,
        }),
{
    if buf.len() - pos < 9 {
        return None;
    }
    let sign = buf[pos];
    let s = slice_subrange(buf.as_slice(), pos + 1, pos + 9);
    let n = u64_from_le_bytes(s);
    if sign == 0 {
        if n <= 0x7fff_ffff_ffff_ffffu64 {
            Some((n as i64, pos + 9))
        } else {
            None
        }
    } else if sign == 1 {
        if n == 0 {
            None
        } else if n <= 0x7fff_ffff_ffff_ffffu64 {
            Some((-(n as i64), pos + 9))
        } else if n == 0x8000_0000_0000_0000u64 {
            Some((i64::MIN, pos + 9))
        } else {
            None
        }
    } else {
        None
    }
}

/// Deserializes a product record; yields exactly what `spec_dec_product`
/// says the bytes hold.
pub fn decode_product(buf: &Vec<u8>) -> (r: Option<ProductState>)
    ensures
        (match r {
            Some(p) => spec_dec_product(buf@) == Some(p@),
            None => spec_dec_product(buf@) is None,
        }),
{
    let r1 = read_field(buf, 0, MAX_PRODUCT_ID_BYTES);
    if r1.is_none() {
        return None;
    }
    let (product_id, p1) = r1.unwrap();
    let r2 = read_field(buf, p1, MAX_NAME_BYTES);
    if r2.is_none() {
        return None;
    }
    let (name, p2) = r2.unwrap();
    let r3 = read_field(buf, p2, MAX_DESCRIPTION_BYTES);
    if r3.is_none() {
        return None;
    }
    let (description, p3) = r3.unwrap();
    let r4 = read_field(buf, p3, MAX_PRINCIPAL_BYTES);
    if r4.is_none() {
        return None;
    }
    let (owner, p4) = r4.unwrap();
    let r5 = read_field(buf, p4, MAX_PRODUCT_LOCATION_BYTES);
    if r5.is_none() {
        return None;
    }
    let (location, p5) = r5.unwrap();
    let r6 = read_status(buf, p5, MAX_PRODUCT_STATUS_BYTES);
    if r6.is_none() {
        return None;
    }
    let (status, p6) = r6.unwrap();
    let r7 = read_timestamp(buf, p6);
    if r7.is_none() {
        return None;
    }
    let (created_at, p7) = r7.unwrap();
    if buf.len() - p7 != 2 {
        return None;
    }
    let active_byte = buf[p7];
    let count = buf[p7 + 1];
    if active_byte > 1 {
        return None;
    }
    if count < 1 {
        return None;
    }
    Some(
        ProductState {
            product_id,
            name,
            description,
            current_owner: Principal { bytes: owner },
            current_location: location,
            current_status: status,
            created_at,
            is_active: active_byte == 1,
            journal_entries_count: count,
        },
    )
}

/// Deserializes a journal entry record; yields exactly what
/// `spec_dec_entry` says the bytes hold.
pub fn decode_entry(buf: &Vec<u8>) -> (r: Option<JournalEntryState>)
    ensures
        (match r {
            Some(e) => spec_dec_entry(buf@) == Some(e@),
            None => spec_dec_entry(buf@) is None,
        }),
{
    let r1 = read_field(buf, 0, MAX_PRODUCT_ID_BYTES);
    if r1.is_none() {
        return None;
    }
    let (product_id, p1) = r1.unwrap();
    let r2 = read_field(buf, p1, MAX_PRINCIPAL_BYTES);
    if r2.is_none() {
        return None;
    }
    let (owner, p2) = r2.unwrap();
    let r3 = read_timestamp(buf, p2);
    if r3.is_none() {
        return None;
    }
    let (timestamp, p3) = r3.unwrap();
    let r4 = read_field(buf, p3, MAX_TITLE_BYTES);
    if r4.is_none() {
        return None;
    }
    let (title, p4) = r4.unwrap();
    let r5 = read_field(buf, p4, MAX_MESSAGE_BYTES);
    if r5.is_none() {
        return None;
    }
    let (message, p5) = r5.unwrap();
    let r6 = read_status(buf, p5, MAX_ENTRY_STATUS_BYTES);
    if r6.is_none() {
        return None;
    }
    let (status, p6) = r6.unwrap();
    let r7 = read_field(buf, p6, MAX_ENTRY_LOCATION_BYTES);
    if r7.is_none() {
        return None;
    }
    let (location, p7) = r7.unwrap();
    if buf.len() - p7 != 1 {
        return None;
    }
    let entry_number = buf[p7];
    Some(
        JournalEntryState {
            product_id,
            owner: Principal { bytes: owner },
            timestamp,
            title,
            message,
            status,
            location,
            entry_number,
        },
    )
}

/// Reading a field finds exactly an encoded field placed at `pos`.
proof fn lemma_dec_field_complete(buf: Seq<u8>, pos: int, s: Seq<u8>, cap: int)
    requires
        0 <= pos,
        s.len() <= cap,
        s.len() < 0x1_0000_0000,
        pos + 4 + s.len() <= buf.len(),
        buf.subrange(pos, pos + 4 + s.len()) == enc_bytes(s),
    ensures
        spec_dec_field(buf, pos, cap) == Some((s, pos + 4 + s.len())),
{
    lemma_auto_spec_u32_to_from_le_bytes();
    let piece = buf.subrange(pos, pos + 4 + s.len());
    assert(spec_u32_to_le_bytes(s.len() as u32).len() == 4);
    assert forall|j: int| 0 <= j < 4 implies #[trigger] buf.subrange(pos, pos + 4)[j] == spec_u32_to_le_bytes(
        s.len() as u32,
    )[j] by {
        assert(piece[j] == buf[pos + j]);
        assert(enc_bytes(s)[j] == spec_u32_to_le_bytes(s.len() as u32)[j]);
    }
    assert(buf.subrange(pos, pos + 4) =~= spec_u32_to_le_bytes(s.len() as u32));
    assert(spec_u32_from_le_bytes(buf.subrange(pos, pos + 4)) == s.len() as u32);
    assert forall|j: int| 0 <= j < s.len() implies #[trigger] buf.subrange(pos + 4, pos + 4 + s.len())[j]
        == s[j] by {
        assert(piece[4 + j] == buf[pos + 4 + j]);
        assert(enc_bytes(s)[4 + j] == s[j]);
    }
    assert(buf.subrange(pos + 4, pos + 4 + s.len()) =~= s);
}

/// Reading a status finds exactly an encoded status placed at `pos`.
proof fn lemma_dec_status_complete(buf: Seq<u8>, pos: int, s: StatusV, cap: int)
    requires
        0 <= pos,
        cap < 0x1_0000_0000,
        status_fits(s, cap),
        pos + enc_status(s).len() <= buf.len(),
        buf.subrange(pos, pos + enc_status(s).len()) == enc_status(s),
    ensures
        spec_dec_status(buf, pos, cap) == Some((s, pos + enc_status(s).len())),
{
    lemma_auto_spec_u32_to_from_le_bytes();
    let piece = buf.subrange(pos, pos + enc_status(s).len());
    assert(buf[pos] == piece[0]);
    match s {
        StatusV::Custom(label) => {
            assert(spec_u32_to_le_bytes(label.len() as u32).len() == 4);
            assert(enc_bytes(label).len() == 4 + label.len());
            assert forall|j: int| 0 <= j < enc_bytes(label).len() implies #[trigger] buf.subrange(
                pos + 1,
                pos + 1 + 4 + label.len(),
            )[j] == enc_bytes(label)[j] by {
                assert(piece[1 + j] == buf[pos + 1 + j]);
                assert(enc_status(s)[1 + j] == enc_bytes(label)[j]);
            }
            assert(buf.subrange(pos + 1, pos + 1 + 4 + label.len()) =~= enc_bytes(label));
            lemma_dec_field_complete(buf, pos + 1, label, cap);
        },
        _ => {},
    }
}

/// Reading a timestamp finds exactly an encoded timestamp placed at `pos`.
proof fn lemma_dec_timestamp_complete(buf: Seq<u8>, pos: int, t: int)
    requires
        0 <= pos,
        i64::MIN <= t <= i64::MAX,
        pos + 9 <= buf.len(),
        buf.subrange(pos, pos + 9) == enc_timestamp(t),
    ensures
        spec_dec_timestamp(buf, pos) == Some((t, pos + 9)),
{
    lemma_auto_spec_u64_to_from_le_bytes();
    let piece = buf.subrange(pos, pos + 9);
    assert(buf[pos] == piece[0]);
    if t >= 0 {
        assert(spec_u64_to_le_bytes(t as u64).len() == 8);
        assert forall|j: int| 0 <= j < 8 implies #[trigger] buf.subrange(pos + 1, pos + 9)[j]
            == spec_u64_to_le_bytes(t as u64)[j] by {
            assert(piece[1 + j] == buf[pos + 1 + j]);
            assert(enc_timestamp(t)[1 + j] == spec_u64_to_le_bytes(t as u64)[j]);
        }
        assert(buf.subrange(pos + 1, pos + 9) =~= spec_u64_to_le_bytes(t as u64));
        assert(spec_u64_from_le_bytes(buf.subrange(pos + 1, pos + 9)) == t as u64);
    } else {
        assert(spec_u64_to_le_bytes((-t) as u64).len() == 8);
        assert forall|j: int| 0 <= j < 8 implies #[trigger] buf.subrange(pos + 1, pos + 9)[j]
            == spec_u64_to_le_bytes((-t) as u64)[j] by {
            assert(piece[1 + j] == buf[pos + 1 + j]);
            assert(enc_timestamp(t)[1 + j] == spec_u64_to_le_bytes((-t) as u64)[j]);
        }
        assert(buf.subrange(pos + 1, pos + 9) =~= spec_u64_to_le_bytes((-t) as u64));
        assert(spec_u64_from_le_bytes(buf.subrange(pos + 1, pos + 9)) == (-t) as u64);
    }
}

/// Law: serializing a within-capacity product and deserializing the bytes
/// reproduces every field value.
pub proof fn lemma_product_roundtrip(p: ProductView)
    requires
        product_caps_ok(p),
        1 <= p.journal_entries_count <= 255,
        i64::MIN <= p.created_at <= i64::MAX,
    ensures
        spec_dec_product(spec_enc_product(p)) == Some(p),
{
    lemma_auto_spec_u32_to_from_le_bytes();
    lemma_auto_spec_u64_to_from_le_bytes();
    let buf = spec_enc_product(p);
    let e1 = enc_bytes(p.product_id);
    let e2 = enc_bytes(p.name);
    let e3 = enc_bytes(p.description);
    let e4 = enc_bytes(p.current_owner);
    let e5 = enc_bytes(p.current_location);
    let e6 = enc_status(p.current_status);
    let e7 = enc_timestamp(p.created_at);
    let e8 = enc_bool(p.is_active);
    let o1 = e1.len() as int;
    let o2 = o1 + e2.len();
    let o3 = o2 + e3.len();
    let o4 = o3 + e4.len();
    let o5 = o4 + e5.len();
    let o6 = o5 + e6.len();
    let o7 = o6 + 9;
    assert(e7.len() == 9);
    assert(buf.len() == o7 + 2);
    assert(buf.subrange(0, o1) =~= e1);
    lemma_dec_field_complete(buf, 0, p.product_id, MAX_PRODUCT_ID_BYTES as int);
    assert(buf.subrange(o1, o2) =~= e2);
    lemma_dec_field_complete(buf, o1, p.name, MAX_NAME_BYTES as int);
    assert(buf.subrange(o2, o3) =~= e3);
    lemma_dec_field_complete(buf, o2, p.description, MAX_DESCRIPTION_BYTES as int);
    assert(buf.subrange(o3, o4) =~= e4);
    lemma_dec_field_complete(buf, o3, p.current_owner, MAX_PRINCIPAL_BYTES as int);
    assert(buf.subrange(o4, o5) =~= e5);
    lemma_dec_field_complete(buf, o4, p.current_location, MAX_PRODUCT_LOCATION_BYTES as int);
    assert(buf.subrange(o5, o6) =~= e6);
    lemma_dec_status_complete(buf, o5, p.current_status, MAX_PRODUCT_STATUS_BYTES as int);
    assert(buf.subrange(o6, o7) =~= e7);
    lemma_dec_timestamp_complete(buf, o6, p.created_at);
    assert(buf[o7] == e8[0]);
    assert(buf[o7 + 1] == p.journal_entries_count as u8);
    assert(spec_dec_product(buf) == Some(
        ProductView {
            product_id: p.product_id,
            name: p.name,
            description: p.description,
            current_owner: p.current_owner,
            current_location: p.current_location,
            current_status: p.current_status,
            created_at: p.created_at,
            is_active: p.is_active,
            journal_entries_count: p.journal_entries_count,
        },
    ));
    assert(p =~= ProductView {
        product_id: p.product_id,
        name: p.name,
        description: p.description,
        current_owner: p.current_owner,
        current_location: p.current_location,
        current_status: p.current_status,
        created_at: p.created_at,
        is_active: p.is_active,
        journal_entries_count: p.journal_entries_count,
    });
}

/// Law: serializing a within-capacity journal entry and deserializing the
/// bytes reproduces every field value.
pub proof fn lemma_entry_roundtrip(e: JournalEntryView)
    requires
        entry_caps_ok(e),
        0 <= e.entry_number <= 255,
        i64::MIN <= e.timestamp <= i64::MAX,
    ensures
        spec_dec_entry(spec_enc_entry(e)) == Some(e),
{
    lemma_auto_spec_u32_to_from_le_bytes();
    lemma_auto_spec_u64_to_from_le_bytes();
    let buf = spec_enc_entry(e);
    let e1 = enc_bytes(e.product_id);
    let e2 = enc_bytes(e.owner);
    let e3 = enc_timestamp(e.timestamp);
    let e4 = enc_bytes(e.title);
    let e5 = enc_bytes(e.message);
    let e6 = enc_status(e.status);
    let e7 = enc_bytes(e.location);
    let o1 = e1.len() as int;
    let o2 = o1 + e2.len();
    let o3 = o2 + 9;
    let o4 = o3 + e4.len();
    let o5 = o4 + e5.len();
    let o6 = o5 + e6.len();
    let o7 = o6 + e7.len();
    assert(e3.len() == 9);
    assert(buf.len() == o7 + 1);
    assert(buf.subrange(0, o1) =~= e1);
    lemma_dec_field_complete(buf, 0, e.product_id, MAX_PRODUCT_ID_BYTES as int);
    assert(buf.subrange(o1, o2) =~= e2);
    lemma_dec_field_complete(buf, o1, e.owner, MAX_PRINCIPAL_BYTES as int);
    assert(buf.subrange(o2, o3) =~= e3);
    lemma_dec_timestamp_complete(buf, o2, e.timestamp);
    assert(buf.subrange(o3, o4) =~= e4);
    lemma_dec_field_complete(buf, o3, e.title, MAX_TITLE_BYTES as int);
    assert(buf.subrange(o4, o5) =~= e5);
    lemma_dec_field_complete(buf, o4, e.message, MAX_MESSAGE_BYTES as int);
    assert(buf.subrange(o5, o6) =~= e6);
    lemma_dec_status_complete(buf, o5, e.status, MAX_ENTRY_STATUS_BYTES as int);
    assert(buf.subrange(o6, o7) =~= e7);
    lemma_dec_field_complete(buf, o6, e.location, MAX_ENTRY_LOCATION_BYTES as int);
    assert(buf[o7] == e.entry_number as u8);
    assert(spec_dec_entry(buf) == Some(
        JournalEntryView {
            product_id: e.product_id,
            owner: e.owner,
            timestamp: e.timestamp,
            title: e.title,
            message: e.message,
            status: e.status,
            location: e.location,
            entry_number: e.entry_number,
        },
    ));
    assert(e =~= JournalEntryView {
        product_id: e.product_id,
        owner: e.owner,
        timestamp: e.timestamp,
        title: e.title,
        message: e.message,
        status: e.status,
        location: e.location,
        entry_number: e.entry_number,
    });
}

} // verus!
