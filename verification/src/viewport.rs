//! Viewport windowing: from a pointer address and the display area, compute
//! which address range is visible and how many bytes share one display row,
//! keeping the pointer's row vertically centered and never wrapping at the
//! edges of the address space.

use vstd::prelude::*;

verus! {

/// Description of one frame, recomputed every render: the address of the
/// first visible bucket, the number of units per row, and the number of
/// visible rows.
#[derive(Clone, Copy, Debug, PartialEq, Eq, Structural)]
pub struct Viewport {
    pub beginning_address: u32,
    pub bucket_size: u16,
    pub row_count: u16,
}

/// Units per row: three display columns are reserved per byte (two hex
/// digits plus spacing).
pub open spec fn spec_bucket_size(row_width: u16) -> u16 {
    row_width / 3
}

/// The start address of the bucket containing `pointer` (pointer aligned
/// down to a multiple of the bucket size).
pub open spec fn spec_pointed_bucket(pointer: u32, bucket_size: u16) -> int
    recommends
        bucket_size > 0,
{
    pointer - pointer % (bucket_size as u32)
}

/// The beginning address before clamping, as a mathematical integer: the
/// pointed bucket moved up by half the visible rows. May be negative.
pub open spec fn spec_centered(pointer: u32, bucket_size: u16, visible_rows: u16) -> int
    recommends
        bucket_size > 0,
{
    spec_pointed_bucket(pointer, bucket_size) - bucket_size * (visible_rows / 2)
}

/// The first visible address: the centered value, saturated at zero.
pub open spec fn spec_beginning_address(pointer: u32, bucket_size: u16, visible_rows: u16) -> int
    recommends
        bucket_size > 0,
{
    if spec_centered(pointer, bucket_size, visible_rows) < 0 {
        0
    } else {
        spec_centered(pointer, bucket_size, visible_rows)
    }
}

/// Whether the area degenerates: a row too narrow for even one byte column,
/// or no rows at all. Such a frame shows a single placeholder row.
pub open spec fn spec_degenerate(row_width: u16, visible_rows: u16) -> bool {
    spec_bucket_size(row_width) == 0 || visible_rows == 0
}

/// The viewport that a pointer and an area determine.
pub open spec fn spec_viewport(pointer: u32, row_width: u16, visible_rows: u16) -> Viewport {
    if spec_degenerate(row_width, visible_rows) {
        Viewport { beginning_address: pointer, bucket_size: 0, row_count: 1 }
    } else {
        Viewport {
            beginning_address: spec_beginning_address(
                pointer,
                spec_bucket_size(row_width),
                visible_rows,
            ) as u32,
            bucket_size: spec_bucket_size(row_width),
            row_count: visible_rows,
        }
    }
}

/// Computes the visible window for one frame: `bucket_size` bytes per row,
/// the pointer's bucket centered vertically, and the beginning address
/// saturated at zero instead of underflowing. A degenerate area (width under
/// three columns, or zero rows) yields the guarded one-row placeholder
/// viewport instead of dividing by zero.
pub fn compute_viewport(pointer: u32, row_width: u16, visible_rows: u16) -> (r: Viewport)
    ensures
        r == spec_viewport(pointer, row_width, visible_rows),
{
    let bucket_size: u16 = row_width / 3;
    if bucket_size == 0 || visible_rows == 0 {
        Viewport { beginning_address: pointer, bucket_size: 0, row_count: 1 }
    } else {
        let bs: u32 = bucket_size as u32;
        proof {
            assert(0 <= pointer % bs <= pointer) by (nonlinear_arith)
                requires
                    bs > 0,
            ;
            assert(bs * ((visible_rows / 2) as u32) <= 0xFFFF * 0xFFFF) by (nonlinear_arith)
                requires
                    bs <= 0xFFFF,
                    ((visible_rows / 2) as u32) <= 0xFFFF,
            ;
        }
        let pointed_bucket: u32 = pointer - pointer % bs;
        let half_window: u32 = bs * ((visible_rows / 2) as u32);
        let beginning: u32 = if pointed_bucket >= half_window {
            pointed_bucket - half_window
        } else {
            0
        };
        Viewport { beginning_address: beginning, bucket_size, row_count: visible_rows }
    }
}

impl Viewport {
    /// How many units the data source must supply for this frame.
    pub open spec fn spec_buffer_len(self) -> int {
        self.bucket_size * self.row_count
    }

    /// Length of the buffer to request from the data source: one unit per
    /// cell of the grid.
    pub fn buffer_len(&self) -> (n: usize)
        ensures
            n == self.spec_buffer_len(),
    {
        proof {
            assert((self.bucket_size as usize) * (self.row_count as usize) <= 0xFFFF
                * 0xFFFF) by (nonlinear_arith)
                requires
                    self.bucket_size <= 0xFFFF,
                    self.row_count <= 0xFFFF,
            ;
        }
        (self.bucket_size as usize) * (self.row_count as usize)
    }
}

/// The pointer's bucket is never above the window, and whenever the
/// centering needed no saturation it lies within the visible rows; when
/// saturation did occur the window starts at address zero.
pub proof fn lemma_centering_bounds(pointer: u32, row_width: u16, visible_rows: u16)
    requires
        !spec_degenerate(row_width, visible_rows),
    ensures
        ({
            let v = spec_viewport(pointer, row_width, visible_rows);
            let pb = spec_pointed_bucket(pointer, v.bucket_size);
            &&& v.beginning_address <= pb
            &&& spec_centered(pointer, v.bucket_size, visible_rows) >= 0 ==> pb
                <= v.beginning_address + v.bucket_size * (visible_rows - 1)
            &&& spec_centered(pointer, v.bucket_size, visible_rows) < 0
                ==> v.beginning_address == 0
        }),
{
    let bs = spec_bucket_size(row_width);
    assert(0 <= pointer % (bs as u32) <= pointer) by (nonlinear_arith)
        requires
            bs > 0,
    ;
    assert(bs * (visible_rows / 2) <= bs * (visible_rows - 1)) by (nonlinear_arith)
        requires
            bs > 0,
            visible_rows > 0,
    ;
}

/// The pointer always falls inside the requested window: it is never below
/// the window's beginning, and its offset from the beginning is below the
/// buffer length. Looking the pointer's unit up in the filled buffer can
/// therefore never reach past the buffer's end.
pub proof fn lemma_pointer_within_window(pointer: u32, row_width: u16, visible_rows: u16)
    requires
        !spec_degenerate(row_width, visible_rows),
    ensures
        ({
            let v = spec_viewport(pointer, row_width, visible_rows);
            &&& v.beginning_address <= pointer
            &&& pointer - v.beginning_address < v.spec_buffer_len()
        }),
{
    let bs = spec_bucket_size(row_width);
    let h = visible_rows;
    let m = pointer % (bs as u32);
    assert(0 <= m < bs) by (nonlinear_arith)
        requires
            bs > 0,
            m == pointer % (bs as u32),
    ;
    assert(bs * ((h / 2) as int) + bs <= bs * h) by (nonlinear_arith)
        requires
            bs > 0,
            h >= 1,
            (h / 2) as int + 1 <= h,
    ;
}

/// The windowing computation has no hidden state: two frames computed from
/// the same pointer and the same area see the same viewport.
pub proof fn lemma_windowing_idempotent(
    pointer: u32,
    row_width: u16,
    visible_rows: u16,
    first: Viewport,
    second: Viewport,
)
    requires
        first == spec_viewport(pointer, row_width, visible_rows),
        second == spec_viewport(pointer, row_width, visible_rows),
    ensures
        first == second,
{
}

} // verus!
