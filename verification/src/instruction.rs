//! Instruction view windowing: the same centering as the byte view with one
//! unit per row and a caller-supplied unit width. The engine computes each
//! row's address, its label, and whether it is the pointer's row; what an
//! instruction looks like is the unit type's own affair, outside the engine.

use vstd::prelude::*;

use crate::grid::dash_label;
use crate::grid::hex8;
use crate::grid::spec_hex8;

verus! {

/// The external source of instruction units: fills a buffer with one unit
/// per element, ascending addresses starting at `pointer`, `None` for each
/// unreadable address. Total: unreadable regions are data, not a failure.
pub trait InstructionProvider<I> {
    /// Reads units starting from `pointer` into the buffer, leaving its
    /// length as it was.
    fn read_to_buf(&self, pointer: u32, buf: &mut Vec<Option<I>>)
        ensures
            final(buf)@.len() == old(buf)@.len(),
    ;
}

/// State of the instruction view that outlives a frame.
pub struct InstructionViewState {
    /// The memory address being pointed at.
    pub pointer: u32,
    /// Where the most recently prepared frame began.
    pub beginning_address: u32,
}

impl InstructionViewState {
    /// A fresh state pointing at `pointer`, before any frame.
    pub fn new(pointer: u32) -> (s: InstructionViewState)
        ensures
            s.pointer == pointer,
            s.beginning_address == 0,
    {
        InstructionViewState { pointer, beginning_address: 0 }
    }
}

/// The first visible address of the instruction view: the pointer moved up
/// by half the visible rows of `unit_size` bytes each, saturated at zero.
pub open spec fn spec_instruction_beginning(pointer: u32, unit_size: u32, visible_rows: u16) -> int {
    let centered = pointer - unit_size * (visible_rows / 2);
    if centered < 0 {
        0
    } else {
        centered
    }
}

/// Computes the first visible address of the instruction view, saturating at
/// zero instead of underflowing.
pub fn instruction_beginning(pointer: u32, unit_size: u32, visible_rows: u16) -> (r: u32)
    ensures
        r == spec_instruction_beginning(pointer, unit_size, visible_rows),
{
    proof {
        assert((unit_size as u64) * ((visible_rows / 2) as u64) <= 0xFFFF_FFFF
            * 0xFFFF) by (nonlinear_arith)
            requires
                unit_size <= 0xFFFF_FFFF,
                ((visible_rows / 2) as u64) <= 0xFFFF,
        ;
    }
    let half_window: u64 = (unit_size as u64) * ((visible_rows / 2) as u64);
    if (pointer as u64) >= half_window {
        pointer - (half_window as u32)
    } else {
        0
    }
}

/// The address of an instruction row: the beginning moved down by one unit
/// per row, unavailable where it would pass the top of the address space.
pub open spec fn spec_instruction_row_address(beginning: u32, unit_size: u32, row: int) -> Option<
    u32,
> {
    if beginning + unit_size * row <= u32::MAX {
        Some((beginning + unit_size * row) as u32)
    } else {
        None
    }
}

/// The address of an instruction row, checked instead of wrapped.
pub fn instruction_row_address(beginning: u32, unit_size: u32, row: usize) -> (r: Option<u32>)
    ensures
        r == spec_instruction_row_address(beginning, unit_size, row as int),
{
    proof {
        assert((unit_size as u128) * (row as u128) < 0x1_0000_0000_0000_0000_0000_0000)
            by (nonlinear_arith)
            requires
                unit_size <= 0xFFFF_FFFF,
                (row as u128) < 0x1_0000_0000_0000_0000,
        ;
    }
    let sum: u128 = (beginning as u128) + (unit_size as u128) * (row as u128);
    if sum <= 0xFFFF_FFFF {
        Some(sum as u32)
    } else {
        None
    }
}

/// Whether a row is the pointer's row: its address is representable and
/// equals the pointer.
pub open spec fn spec_is_pointer_row(
    beginning: u32,
    unit_size: u32,
    row: int,
    pointer: u32,
) -> bool {
    spec_instruction_row_address(beginning, unit_size, row) == Some(pointer)
}

/// What the engine says of one instruction row: its fixed-width address
/// label (or dashes where the address overflowed), whether the pointer
/// marker belongs on it, and whether its unit was readable.
pub struct InstructionRow {
    pub address_label: Vec<char>,
    pub marker: bool,
    pub present: bool,
}

/// What an instruction row must show for its position in the frame.
pub open spec fn spec_instruction_row_ok(
    row: InstructionRow,
    beginning: u32,
    unit_size: u32,
    pointer: u32,
    present: bool,
    ri: int,
) -> bool {
    &&& row.address_label@ == match spec_instruction_row_address(beginning, unit_size, ri) {
        Some(addr) => spec_hex8(addr),
        None => seq!['-', '-', '-', '-', '-', '-', '-', '-'],
    }
    &&& row.marker == spec_is_pointer_row(beginning, unit_size, ri, pointer)
    &&& row.present == present
}

/// Builds the metadata of one instruction row.
fn build_instruction_row(
    beginning: u32,
    unit_size: u32,
    pointer: u32,
    present: bool,
    ri: usize,
) -> (row: InstructionRow)
    ensures
        spec_instruction_row_ok(row, beginning, unit_size, pointer, present, ri as int),
{
    let address = instruction_row_address(beginning, unit_size, ri);
    let marker = match address {
        Some(addr) => addr == pointer,
        None => false,
    };
    let address_label = match address {
        Some(addr) => hex8(addr),
        None => dash_label(),
    };
    InstructionRow { address_label, marker, present }
}

/// Builds the metadata of every row of one instruction frame: one row per
/// unit of the buffer, in buffer order. The pointer marker stands on at most
/// the one row whose address equals the pointer; an unreadable unit keeps
/// its address label and renders as a placeholder.
pub fn build_instruction_rows<I>(
    buf: &Vec<Option<I>>,
    beginning: u32,
    unit_size: u32,
    pointer: u32,
) -> (r: Vec<InstructionRow>)
    ensures
        r@.len() == buf@.len(),
        forall|ri: int|
            0 <= ri < r@.len() ==> spec_instruction_row_ok(
                #[trigger] r@[ri],
                beginning,
                unit_size,
                pointer,
                buf@[ri] is Some,
                ri,
            ),
{
    let mut rows: Vec<InstructionRow> = Vec::new();
    let mut ri: usize = 0;
    while ri < buf.len()
        invariant
            ri <= buf@.len(),
            rows@.len() == ri as int,
            forall|k: int|
                0 <= k < ri as int ==> spec_instruction_row_ok(
                    #[trigger] rows@[k],
                    beginning,
                    unit_size,
                    pointer,
                    buf@[k] is Some,
                    k,
                ),
        decreases buf@.len() - ri,
    {
        let present = buf[ri].is_some();
        rows.push(build_instruction_row(beginning, unit_size, pointer, present, ri));
        ri = ri + 1;
    }
    rows
}

/// Prepares one frame of the instruction view: computes the window that
/// centers the pointer, records it in the state, has the source fill a
/// buffer with one unit per visible row, and builds the rows' metadata.
/// Returns the filled buffer and the rows.
pub fn prepare_instruction_frame<I, P: InstructionProvider<I>>(
    provider: &P,
    state: &mut InstructionViewState,
    unit_size: u32,
    visible_rows: u16,
) -> (r: (Vec<Option<I>>, Vec<InstructionRow>))
    ensures
        final(state).pointer == old(state).pointer,
        final(state).beginning_address == spec_instruction_beginning(
            old(state).pointer,
            unit_size,
            visible_rows,
        ),
        r.0@.len() == visible_rows as int,
        r.1@.len() == visible_rows as int,
        forall|ri: int|
            0 <= ri < r.1@.len() ==> spec_instruction_row_ok(
                #[trigger] r.1@[ri],
                final(state).beginning_address,
                unit_size,
                final(state).pointer,
                r.0@[ri] is Some,
                ri,
            ),
{
    state.beginning_address = instruction_beginning(state.pointer, unit_size, visible_rows);

    let mut buffer: Vec<Option<I>> = Vec::new();
    let mut i: usize = 0;
    while i < visible_rows as usize
        invariant
            i <= visible_rows as usize,
            buffer@.len() == i,
        decreases visible_rows as usize - i,
    {
        buffer.push(None);
        i = i + 1;
    }
    provider.read_to_buf(state.beginning_address, &mut buffer);

    let rows = build_instruction_rows(&buffer, state.beginning_address, unit_size, state.pointer);
    (buffer, rows)
}

} // verus!
