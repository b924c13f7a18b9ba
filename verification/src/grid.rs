//! Grid construction: partitions the filled frame buffer into buckets and
//! produces, per bucket, an address label, a row of annotated hex cells, and
//! a parallel row of printable characters. Unreadable bytes render as
//! placeholder glyphs; an address computation that would overflow renders as
//! a dash label, never a wrapped address.

use vstd::prelude::*;

use crate::annotate::Annotation;
use crate::annotate::annotate;
use crate::annotate::spec_annotation;
use crate::decode::byte_at;
use crate::decode::spec_byte_at;
use crate::viewport::Viewport;

verus! {

/// The sixteen digits of uppercase hexadecimal.
pub open spec fn spec_hex_digits() -> Seq<char> {
    seq![
        '0',
        '1',
        '2',
        '3',
        '4',
        '5',
        '6',
        '7',
        '8',
        '9',
        'A',
        'B',
        'C',
        'D',
        'E',
        'F',
    ]
}

/// The hexadecimal digit of a value below sixteen.
pub open spec fn spec_hex_digit(v: int) -> char
    recommends
        0 <= v < 16,
{
    spec_hex_digits()[v]
}

/// The two hexadecimal digits of a byte, high digit first.
pub open spec fn spec_hex_pair(b: u8) -> (char, char) {
    (spec_hex_digit((b as int) / 16), spec_hex_digit((b as int) % 16))
}

/// The hexadecimal digit of `v`, uppercase.
pub fn hex_digit(v: u8) -> (c: char)
    requires
        v < 16,
    ensures
        c == spec_hex_digit(v as int),
{
    if v == 0 {
        '0'
    } else if v == 1 {
        '1'
    } else if v == 2 {
        '2'
    } else if v == 3 {
        '3'
    } else if v == 4 {
        '4'
    } else if v == 5 {
        '5'
    } else if v == 6 {
        '6'
    } else if v == 7 {
        '7'
    } else if v == 8 {
        '8'
    } else if v == 9 {
        '9'
    } else if v == 10 {
        'A'
    } else if v == 11 {
        'B'
    } else if v == 12 {
        'C'
    } else if v == 13 {
        'D'
    } else if v == 14 {
        'E'
    } else {
        'F'
    }
}

/// Both hexadecimal digits of a byte, high digit first.
pub fn hex_pair(b: u8) -> (r: (char, char))
    ensures
        r == spec_hex_pair(b),
{
    (hex_digit(b / 16), hex_digit(b % 16))
}

/// The printable character standing for a byte in the textual row: an
/// unreadable byte reads as a space, a byte outside the character set as one
/// placeholder glyph, a control character as another, every other byte as
/// its own character.
pub open spec fn spec_ascii_glyph(byte: Option<u8>) -> char {
    let b = match byte {
        Some(b) => b,
        None => 0x20u8,
    };
    if b >= 0x80 {
        '∘'
    } else if b < 0x20 || b == 0x7F {
        '∙'
    } else {
        b as char
    }
}

/// Maps one byte of the frame to its character in the textual row.
pub fn ascii_glyph(byte: Option<u8>) -> (c: char)
    ensures
        c == spec_ascii_glyph(byte),
{
    let b: u8 = match byte {
        Some(b) => b,
        None => 0x20,
    };
    if b >= 0x80 {
        '∘'
    } else if b < 0x20 || b == 0x7F {
        '∙'
    } else {
        b as char
    }
}

/// The address of a bucket row: the viewport's beginning moved down by one
/// bucket per row, unavailable where it would pass the top of the address
/// space.
pub open spec fn spec_row_address(beginning: u32, bucket_size: u16, row: int) -> Option<u32> {
    if beginning + bucket_size * row <= u32::MAX {
        Some((beginning + bucket_size * row) as u32)
    } else {
        None
    }
}

/// The address of a bucket row, checked instead of wrapped.
pub fn row_address(beginning: u32, bucket_size: u16, row: u16) -> (r: Option<u32>)
    ensures
        r == spec_row_address(beginning, bucket_size, row as int),
{
    proof {
        assert((bucket_size as u64) * (row as u64) <= 0xFFFF * 0xFFFF) by (nonlinear_arith)
            requires
                bucket_size <= 0xFFFF,
                row <= 0xFFFF,
        ;
    }
    let sum: u64 = (beginning as u64) + (bucket_size as u64) * (row as u64);
    if sum <= 0xFFFF_FFFF {
        Some(sum as u32)
    } else {
        None
    }
}

/// The eight uppercase hexadecimal digits of an address, highest first.
pub open spec fn spec_hex8(addr: u32) -> Seq<char> {
    seq![
        spec_hex_digit(((addr as int) / 0x10000000) % 16),
        spec_hex_digit(((addr as int) / 0x1000000) % 16),
        spec_hex_digit(((addr as int) / 0x100000) % 16),
        spec_hex_digit(((addr as int) / 0x10000) % 16),
        spec_hex_digit(((addr as int) / 0x1000) % 16),
        spec_hex_digit(((addr as int) / 0x100) % 16),
        spec_hex_digit(((addr as int) / 0x10) % 16),
        spec_hex_digit((addr as int) % 16),
    ]
}

/// The fixed-width label of a row: eight hexadecimal digits for a
/// representable address, eight dashes where the address overflowed.
pub open spec fn spec_address_label(beginning: u32, bucket_size: u16, row: int) -> Seq<char> {
    match spec_row_address(beginning, bucket_size, row) {
        Some(addr) => spec_hex8(addr),
        None => seq!['-', '-', '-', '-', '-', '-', '-', '-'],
    }
}

/// Formats an address as its eight uppercase hexadecimal digits.
pub fn hex8(addr: u32) -> (r: Vec<char>)
    ensures
        r@ == spec_hex8(addr),
{
    let mut r: Vec<char> = Vec::new();
    r.push(hex_digit(((addr / 0x10000000) % 16) as u8));
    r.push(hex_digit(((addr / 0x1000000) % 16) as u8));
    r.push(hex_digit(((addr / 0x100000) % 16) as u8));
    r.push(hex_digit(((addr / 0x10000) % 16) as u8));
    r.push(hex_digit(((addr / 0x1000) % 16) as u8));
    r.push(hex_digit(((addr / 0x100) % 16) as u8));
    r.push(hex_digit(((addr / 0x10) % 16) as u8));
    r.push(hex_digit((addr % 16) as u8));
    proof {
        assert(r@ =~= spec_hex8(addr));
    }
    r
}

/// The placeholder label of a row whose address overflowed: eight dashes.
pub(crate) fn dash_label() -> (r: Vec<char>)
    ensures
        r@ == seq!['-', '-', '-', '-', '-', '-', '-', '-'],
{
    let mut r: Vec<char> = Vec::new();
    r.push('-');
    r.push('-');
    r.push('-');
    r.push('-');
    r.push('-');
    r.push('-');
    r.push('-');
    r.push('-');
    proof {
        assert(r@ =~= seq!['-', '-', '-', '-', '-', '-', '-', '-']);
    }
    r
}

/// Formats the label of a bucket row: the address in fixed-width
/// hexadecimal, or dashes where the address computation overflowed.
pub fn address_label(beginning: u32, bucket_size: u16, row: u16) -> (r: Vec<char>)
    ensures
        r@ == spec_address_label(beginning, bucket_size, row as int),
{
    match row_address(beginning, bucket_size, row) {
        Some(addr) => hex8(addr),
        None => dash_label(),
    }
}

/// One cell of the hex table: two characters of text and the cell's visual
/// attributes.
#[derive(Clone, Copy, Debug)]
pub struct HexCell {
    pub text: (char, char),
    pub annotation: Annotation,
}

/// One bucket of the grid: its address label, its annotated hex cells, and
/// its parallel textual row.
#[derive(Clone, Debug)]
pub struct GridRow {
    pub address_label: Vec<char>,
    pub cells: Vec<HexCell>,
    pub ascii: Vec<char>,
}

/// The cell that one byte of the frame determines: its two hex digits, or
/// the placeholder pair for an unreadable byte, with its annotation.
pub open spec fn spec_hex_cell(
    byte: Option<u8>,
    beginning: u32,
    offset: int,
    pointer_index: int,
) -> HexCell {
    HexCell {
        text: match byte {
            Some(b) => spec_hex_pair(b),
            None => ('◦', '◦'),
        },
        annotation: spec_annotation(byte, beginning, offset, pointer_index),
    }
}

/// Builds the cell of one byte of the frame.
pub fn hex_cell(byte: Option<u8>, beginning: u32, offset: usize, pointer_index: usize) -> (r:
    HexCell)
    ensures
        r == spec_hex_cell(byte, beginning, offset as int, pointer_index as int),
{
    HexCell {
        text: match byte {
            Some(b) => hex_pair(b),
            None => ('◦', '◦'),
        },
        annotation: annotate(byte, beginning, offset, pointer_index),
    }
}

/// What the grid says of one of its rows: the label of the row's bucket, and
/// one cell and one textual character per unit of the bucket, each read at
/// the unit's offset from the viewport's beginning.
pub open spec fn spec_row_ok(
    row: GridRow,
    buf: Seq<Option<u8>>,
    v: Viewport,
    pointer_index: int,
    ri: int,
) -> bool {
    &&& row.address_label@ == spec_address_label(v.beginning_address, v.bucket_size, ri)
    &&& row.cells@.len() == v.bucket_size
    &&& (forall|j: int|
        0 <= j < v.bucket_size ==> #[trigger] row.cells@[j] == spec_hex_cell(
            spec_byte_at(buf, ri * v.bucket_size + j),
            v.beginning_address,
            ri * v.bucket_size + j,
            pointer_index,
        ))
    &&& row.ascii@.len() == v.bucket_size
    &&& (forall|j: int|
        0 <= j < v.bucket_size ==> #[trigger] row.ascii@[j] == spec_ascii_glyph(
            spec_byte_at(buf, ri * v.bucket_size + j),
        ))
}

/// Builds one bucket row of the grid.
fn build_row(buf: &Vec<Option<u8>>, v: &Viewport, pointer_index: usize, ri: u16) -> (row: GridRow)
    requires
        ri < v.row_count,
    ensures
        spec_row_ok(row, buf@, *v, pointer_index as int, ri as int),
{
    proof {
        assert((ri as usize) * (v.bucket_size as usize) <= 0xFFFF * 0xFFFF) by (nonlinear_arith)
            requires
                ri <= 0xFFFF,
                v.bucket_size <= 0xFFFF,
        ;
    }
    let base: usize = (ri as usize) * (v.bucket_size as usize);
    let mut cells: Vec<HexCell> = Vec::new();
    let mut ascii: Vec<char> = Vec::new();
    let mut j: usize = 0;
    while j < v.bucket_size as usize
        invariant
            base == ri as int * v.bucket_size as int,
            base <= 0xFFFF * 0xFFFF,
            j <= v.bucket_size,
            cells@.len() == j,
            ascii@.len() == j,
            forall|k: int|
                0 <= k < j ==> #[trigger] cells@[k] == spec_hex_cell(
                    spec_byte_at(buf@, base + k),
                    v.beginning_address,
                    base + k,
                    pointer_index as int,
                ),
            forall|k: int|
                0 <= k < j ==> #[trigger] ascii@[k] == spec_ascii_glyph(
                    spec_byte_at(buf@, base + k),
                ),
        decreases v.bucket_size - j,
    {
        let offset: usize = base + j;
        let byte = byte_at(buf, offset);
        cells.push(hex_cell(byte, v.beginning_address, offset, pointer_index));
        ascii.push(ascii_glyph(byte));
        j = j + 1;
    }
    GridRow { address_label: address_label(v.beginning_address, v.bucket_size, ri), cells, ascii }
}

/// Partitions the frame buffer into buckets and builds the whole grid: one
/// row per visible bucket, each row made of its address label, its annotated
/// hex cells, and its textual row. Offsets past the buffer's end read as
/// unreadable units.
pub fn build_grid(buf: &Vec<Option<u8>>, v: &Viewport, pointer_index: usize) -> (r: Vec<GridRow>)
    ensures
        r@.len() == v.row_count as int,
        forall|ri: int|
            0 <= ri < r@.len() ==> spec_row_ok(
                #[trigger] r@[ri],
                buf@,
                *v,
                pointer_index as int,
                ri,
            ),
{
    let mut rows: Vec<GridRow> = Vec::new();
    let mut ri: u16 = 0;
    while ri < v.row_count
        invariant
            ri <= v.row_count,
            rows@.len() == ri as int,
            forall|k: int|
                0 <= k < ri as int ==> spec_row_ok(
                    #[trigger] rows@[k],
                    buf@,
                    *v,
                    pointer_index as int,
                    k,
                ),
        decreases v.row_count - ri,
    {
        rows.push(build_row(buf, v, pointer_index, ri));
        ri = ri + 1;
    }
    rows
}

} // verus!
