//! Multi-format decoding: interprets the bytes at the pointer's offset in the
//! frame buffer as unsigned and signed integers of several widths, and as the
//! bit pattern of a 32-bit float, all little-endian. A unit is `Option<u8>`;
//! a missing byte makes every interpretation that needs it unavailable
//! (`None`), never a substituted zero.

use vstd::prelude::*;

verus! {

/// The byte at offset `i` of the buffer; offsets outside the buffer are
/// unreadable.
pub open spec fn spec_byte_at(buf: Seq<Option<u8>>, i: int) -> Option<u8> {
    if 0 <= i < buf.len() {
        buf[i]
    } else {
        None
    }
}

/// Two bytes read little-endian.
pub open spec fn spec_le16(b0: u8, b1: u8) -> u16 {
    (b0 + b1 * 0x100) as u16
}

/// Four bytes read little-endian.
pub open spec fn spec_le32(b0: u8, b1: u8, b2: u8, b3: u8) -> u32 {
    (b0 + b1 * 0x100 + b2 * 0x10000 + b3 * 0x1000000) as u32
}

/// The signed value with the same 8-bit pattern.
pub open spec fn spec_as_i8(v: u8) -> i8 {
    if v < 0x80 {
        v as i8
    } else {
        (v - 0x100) as i8
    }
}

/// The signed value with the same 16-bit pattern.
pub open spec fn spec_as_i16(v: u16) -> i16 {
    if v < 0x8000 {
        v as i16
    } else {
        (v - 0x10000) as i16
    }
}

/// The signed value with the same 32-bit pattern.
pub open spec fn spec_as_i32(v: u32) -> i32 {
    if v < 0x80000000 {
        v as i32
    } else {
        (v - 0x100000000) as i32
    }
}

/// The single byte at the offset, if readable.
pub open spec fn spec_decode_u8(buf: Seq<Option<u8>>, idx: int) -> Option<u8> {
    spec_byte_at(buf, idx)
}

/// The two bytes starting at the offset, little-endian, if both readable.
pub open spec fn spec_decode_u16(buf: Seq<Option<u8>>, idx: int) -> Option<u16> {
    match (spec_byte_at(buf, idx), spec_byte_at(buf, idx + 1)) {
        (Some(b0), Some(b1)) => Some(spec_le16(b0, b1)),
        _ => None,
    }
}

/// The four bytes starting at the offset, little-endian, if all readable.
pub open spec fn spec_decode_u32(buf: Seq<Option<u8>>, idx: int) -> Option<u32> {
    match (
        spec_byte_at(buf, idx),
        spec_byte_at(buf, idx + 1),
        spec_byte_at(buf, idx + 2),
        spec_byte_at(buf, idx + 3),
    ) {
        (Some(b0), Some(b1), Some(b2), Some(b3)) => Some(spec_le32(b0, b1, b2, b3)),
        _ => None,
    }
}

/// Every interpretation of the bytes at one offset. `f32_bits` carries the
/// bit pattern of the 32-bit float reading; turning it into a float value is
/// the caller's step.
#[derive(Clone, Copy, Debug, PartialEq, Eq, Structural)]
pub struct Decoded {
    pub as_u8: Option<u8>,
    pub as_i8: Option<i8>,
    pub as_u16: Option<u16>,
    pub as_i16: Option<i16>,
    pub as_u32: Option<u32>,
    pub as_i32: Option<i32>,
    pub f32_bits: Option<u32>,
}

/// The decoding that a buffer and an offset determine: each width is `Some`
/// exactly when all of its bytes are readable.
pub open spec fn spec_decoded(buf: Seq<Option<u8>>, idx: int) -> Decoded {
    Decoded {
        as_u8: spec_decode_u8(buf, idx),
        as_i8: match spec_decode_u8(buf, idx) {
            Some(v) => Some(spec_as_i8(v)),
            None => None,
        },
        as_u16: spec_decode_u16(buf, idx),
        as_i16: match spec_decode_u16(buf, idx) {
            Some(v) => Some(spec_as_i16(v)),
            None => None,
        },
        as_u32: spec_decode_u32(buf, idx),
        as_i32: match spec_decode_u32(buf, idx) {
            Some(v) => Some(spec_as_i32(v)),
            None => None,
        },
        f32_bits: spec_decode_u32(buf, idx),
    }
}

/// The byte at offset `i`, or `None` when the offset lies outside the buffer.
pub(crate) fn byte_at(buf: &Vec<Option<u8>>, i: usize) -> (r: Option<u8>)
    ensures
        r == spec_byte_at(buf@, i as int),
{
    if i < buf.len() {
        buf[i]
    } else {
        None
    }
}

/// The byte at `idx + delta`, guarding the offset arithmetic itself: an
/// offset past `usize::MAX` is as unreadable as one past the buffer.
fn byte_at_offset(buf: &Vec<Option<u8>>, idx: usize, delta: usize) -> (r: Option<u8>)
    ensures
        r == spec_byte_at(buf@, idx + delta),
{
    let n = buf.len();
    if idx < n && delta < n - idx {
        buf[idx + delta]
    } else {
        None
    }
}

/// Reinterprets 8 bits as signed.
pub fn as_i8(v: u8) -> (r: i8)
    ensures
        r == spec_as_i8(v),
{
    if v < 0x80 {
        v as i8
    } else {
        ((v as i16) - 0x100) as i8
    }
}

/// Reinterprets 16 bits as signed.
pub fn as_i16(v: u16) -> (r: i16)
    ensures
        r == spec_as_i16(v),
{
    if v < 0x8000 {
        v as i16
    } else {
        ((v as i32) - 0x10000) as i16
    }
}

/// Reinterprets 32 bits as signed.
pub fn as_i32(v: u32) -> (r: i32)
    ensures
        r == spec_as_i32(v),
{
    if v < 0x80000000 {
        v as i32
    } else {
        ((v as i64) - 0x100000000) as i32
    }
}

/// Decodes the unit at the offset: the byte itself, if readable.
pub fn decode_u8(buf: &Vec<Option<u8>>, idx: usize) -> (r: Option<u8>)
    ensures
        r == spec_decode_u8(buf@, idx as int),
{
    byte_at(buf, idx)
}

/// Decodes the two bytes at the offset little-endian; unavailable unless
/// both are readable.
pub fn decode_u16(buf: &Vec<Option<u8>>, idx: usize) -> (r: Option<u16>)
    ensures
        r == spec_decode_u16(buf@, idx as int),
{
    match (byte_at(buf, idx), byte_at_offset(buf, idx, 1)) {
        (Some(b0), Some(b1)) => Some((b0 as u16) + (b1 as u16) * 0x100),
        _ => None,
    }
}

/// Decodes the four bytes at the offset little-endian; unavailable unless
/// all four are readable.
pub fn decode_u32(buf: &Vec<Option<u8>>, idx: usize) -> (r: Option<u32>)
    ensures
        r == spec_decode_u32(buf@, idx as int),
{
    match (
        byte_at(buf, idx),
        byte_at_offset(buf, idx, 1),
        byte_at_offset(buf, idx, 2),
        byte_at_offset(buf, idx, 3),
    ) {
        (Some(b0), Some(b1), Some(b2), Some(b3)) => Some(
            (b0 as u32) + (b1 as u32) * 0x100 + (b2 as u32) * 0x10000 + (b3 as u32) * 0x1000000,
        ),
        _ => None,
    }
}

/// Produces every interpretation of the bytes at the offset in one pass, as
/// the information bar shows them.
pub fn decode_at(buf: &Vec<Option<u8>>, idx: usize) -> (r: Decoded)
    ensures
        r == spec_decoded(buf@, idx as int),
{
    let as_u8 = decode_u8(buf, idx);
    let as_u16 = decode_u16(buf, idx);
    let as_u32 = decode_u32(buf, idx);
    Decoded {
        as_u8,
        as_i8: match as_u8 {
            Some(v) => Some(as_i8(v)),
            None => None,
        },
        as_u16,
        as_i16: match as_u16 {
            Some(v) => Some(as_i16(v)),
            None => None,
        },
        as_u32,
        as_i32: match as_u32 {
            Some(v) => Some(as_i32(v)),
            None => None,
        },
        f32_bits: as_u32,
    }
}

/// A missing byte never decodes to a substituted value: any unreadable byte
/// in a window makes that window's interpretations unavailable, while the
/// single-byte interpretations stand or fall with the pointer byte alone.
pub proof fn lemma_missing_byte_is_unavailable(buf: Seq<Option<u8>>, idx: int)
    ensures
        (exists|k: int| idx <= k < idx + 2 && spec_byte_at(buf, k) is None) ==> spec_decoded(
            buf,
            idx,
        ).as_u16 is None && spec_decoded(buf, idx).as_i16 is None,
        (exists|k: int| idx <= k < idx + 4 && spec_byte_at(buf, k) is None) ==> spec_decoded(
            buf,
            idx,
        ).as_u32 is None && spec_decoded(buf, idx).as_i32 is None && spec_decoded(
            buf,
            idx,
        ).f32_bits is None,
        spec_byte_at(buf, idx) is Some ==> spec_decoded(buf, idx).as_u8 is Some && spec_decoded(
            buf,
            idx,
        ).as_i8 is Some,
{
    if exists|k: int| idx <= k < idx + 2 && spec_byte_at(buf, k) is None {
        let k = choose|k: int| idx <= k < idx + 2 && spec_byte_at(buf, k) is None;
        assert(k == idx || k == idx + 1);
    }
    if exists|k: int| idx <= k < idx + 4 && spec_byte_at(buf, k) is None {
        let k = choose|k: int| idx <= k < idx + 4 && spec_byte_at(buf, k) is None;
        assert(k == idx || k == idx + 1 || k == idx + 2 || k == idx + 3);
    }
}

} // verus!
