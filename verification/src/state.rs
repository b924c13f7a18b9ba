//! Per-session state of the byte view: the pointer address, the window that
//! the latest frame derived from it, and the operations that move the
//! pointer. One frame is prepared by a pure pass: compute the viewport from
//! pointer and area, ask the data source to fill a buffer for that range,
//! and build the grid from the buffer.

use vstd::prelude::*;

use crate::grid::GridRow;
use crate::grid::build_grid;
use crate::grid::spec_row_ok;
use crate::navigate::step_backward_byte;
use crate::navigate::step_forward_byte;
use crate::viewport::Viewport;
use crate::viewport::compute_viewport;
use crate::viewport::lemma_pointer_within_window;
use crate::viewport::spec_degenerate;
use crate::viewport::spec_viewport;

verus! {

/// The external data source: fills a buffer with one unit per element,
/// ascending addresses starting at `pointer`, `None` for each unreadable
/// address. Total: unreadable regions are data, not a failure.
pub trait MemoryProvider {
    /// Reads units starting from `pointer` into the buffer, leaving its
    /// length as it was.
    fn read_to_buf(&self, pointer: u32, buf: &mut Vec<Option<u8>>)
        ensures
            final(buf)@.len() == old(buf)@.len(),
    ;
}

/// State that outlives a frame: the pointer, and the geometry of the most
/// recent window, from which row steps take their stride.
pub struct MemoryViewState {
    /// The memory address being pointed at.
    pub pointer: u32,
    /// Where the most recently prepared frame began.
    pub beginning_bucket: u32,
    /// Units per row of the most recently prepared frame; zero before the
    /// first frame, so that a row step before it is a no-op.
    pub bytes_per_bucket: u16,
}

impl MemoryViewState {
    /// The pointer's offset within the current frame's buffer.
    pub open spec fn spec_pointer_index(self) -> int {
        if self.pointer >= self.beginning_bucket {
            self.pointer - self.beginning_bucket
        } else {
            self.beginning_bucket - self.pointer
        }
    }

    /// A fresh state pointing at `pointer`, before any frame.
    pub fn new(pointer: u32) -> (s: MemoryViewState)
        ensures
            s.pointer == pointer,
            s.beginning_bucket == 0,
            s.bytes_per_bucket == 0,
    {
        MemoryViewState { pointer, beginning_bucket: 0, bytes_per_bucket: 0 }
    }

    /// The pointer's offset within the current frame's buffer: its distance
    /// from the frame's beginning address.
    pub fn pointer_index(&self) -> (r: usize)
        ensures
            r == self.spec_pointer_index(),
    {
        if self.pointer >= self.beginning_bucket {
            (self.pointer - self.beginning_bucket) as usize
        } else {
            (self.beginning_bucket - self.pointer) as usize
        }
    }

    /// Units per row of the most recent frame.
    pub fn bytes_per_bucket(&self) -> (r: u16)
        ensures
            r == self.bytes_per_bucket,
    {
        self.bytes_per_bucket
    }

    /// Moves the pointer one address forward, staying put at the top of the
    /// address space.
    pub fn step_forward_byte(&mut self)
        ensures
            old(self).pointer < u32::MAX ==> final(self).pointer == old(self).pointer + 1,
            old(self).pointer == u32::MAX ==> final(self).pointer == old(self).pointer,
            final(self).beginning_bucket == old(self).beginning_bucket,
            final(self).bytes_per_bucket == old(self).bytes_per_bucket,
    {
        self.pointer = step_forward_byte(self.pointer);
    }

    /// Moves the pointer one address backward, staying put at address zero.
    pub fn step_backward_byte(&mut self)
        ensures
            old(self).pointer > 0 ==> final(self).pointer == old(self).pointer - 1,
            old(self).pointer == 0 ==> final(self).pointer == 0,
            final(self).beginning_bucket == old(self).beginning_bucket,
            final(self).bytes_per_bucket == old(self).bytes_per_bucket,
    {
        self.pointer = step_backward_byte(self.pointer);
    }

    /// Moves the pointer one display row forward: by the most recent frame's
    /// bucket size, staying put where that would pass the top of the address
    /// space. Before the first frame the stride is zero, a no-op.
    pub fn step_forward_row(&mut self)
        ensures
            old(self).pointer + old(self).bytes_per_bucket <= u32::MAX ==> final(self).pointer
                == old(self).pointer + old(self).bytes_per_bucket,
            old(self).pointer + old(self).bytes_per_bucket > u32::MAX ==> final(self).pointer
                == old(self).pointer,
            final(self).beginning_bucket == old(self).beginning_bucket,
            final(self).bytes_per_bucket == old(self).bytes_per_bucket,
    {
        let stride: u32 = self.bytes_per_bucket as u32;
        if self.pointer <= u32::MAX - stride {
            self.pointer = self.pointer + stride;
        }
    }

    /// Moves the pointer one display row backward: by the most recent
    /// frame's bucket size, staying put where that would pass address zero.
    pub fn step_backward_row(&mut self)
        ensures
            old(self).pointer >= old(self).bytes_per_bucket ==> final(self).pointer == old(
                self,
            ).pointer - old(self).bytes_per_bucket,
            old(self).pointer < old(self).bytes_per_bucket ==> final(self).pointer == old(
                self,
            ).pointer,
            final(self).beginning_bucket == old(self).beginning_bucket,
            final(self).bytes_per_bucket == old(self).bytes_per_bucket,
    {
        let stride: u32 = self.bytes_per_bucket as u32;
        if self.pointer >= stride {
            self.pointer = self.pointer - stride;
        }
    }
}

/// Prepares one frame of the byte view: computes the window that centers the
/// pointer in the given area, records its geometry in the state, has the
/// data source fill a buffer for exactly the visible range, and builds the
/// grid from that buffer. Returns the viewport, the filled buffer, and the
/// grid.
pub fn prepare_frame<P: MemoryProvider>(
    provider: &P,
    state: &mut MemoryViewState,
    row_width: u16,
    visible_rows: u16,
) -> (r: (Viewport, Vec<Option<u8>>, Vec<GridRow>))
    ensures
        r.0 == spec_viewport(old(state).pointer, row_width, visible_rows),
        final(state).pointer == old(state).pointer,
        final(state).beginning_bucket == r.0.beginning_address,
        final(state).bytes_per_bucket == r.0.bucket_size,
        r.1@.len() == r.0.spec_buffer_len(),
        !spec_degenerate(row_width, visible_rows) ==> final(state).beginning_bucket
            <= final(state).pointer && final(state).spec_pointer_index() < r.1@.len(),
        r.2@.len() == r.0.row_count as int,
        forall|ri: int|
            0 <= ri < r.2@.len() ==> spec_row_ok(
                #[trigger] r.2@[ri],
                r.1@,
                r.0,
                final(state).spec_pointer_index(),
                ri,
            ),
{
    proof {
        if !spec_degenerate(row_width, visible_rows) {
            lemma_pointer_within_window(state.pointer, row_width, visible_rows);
        }
    }
    let viewport = compute_viewport(state.pointer, row_width, visible_rows);
    state.beginning_bucket = viewport.beginning_address;
    state.bytes_per_bucket = viewport.bucket_size;

    let len = viewport.buffer_len();
    let mut buffer: Vec<Option<u8>> = Vec::new();
    let mut i: usize = 0;
    while i < len
        invariant
            i <= len,
            buffer@.len() == i,
        decreases len - i,
    {
        buffer.push(None);
        i = i + 1;
    }
    provider.read_to_buf(state.beginning_bucket, &mut buffer);

    let grid = build_grid(&buffer, &viewport, state.pointer_index());
    (viewport, buffer, grid)
}

} // verus!
