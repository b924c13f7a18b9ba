use anton::MemoryProvider;
use anton::MemoryViewState;
use anton::Viewport;
use anton::compute_viewport;
use anton::prepare_frame;
use anton::step_backward_byte;
use anton::step_forward_byte;

#[test]
fn centered_bucket_aligned_window() {
    // pointer 100, width 24 -> bucket size 8, five rows: the pointed bucket
    // starts at 96 and the window begins two buckets above it.
    let v = compute_viewport(100, 24, 5);
    assert_eq!(v.bucket_size, 8);
    assert_eq!(v.row_count, 5);
    assert_eq!(v.beginning_address, 80);
    assert_eq!(v.buffer_len(), 40);
}

#[test]
fn windowing_is_idempotent() {
    let first = compute_viewport(0xDEAD_BEEF, 100, 31);
    let second = compute_viewport(0xDEAD_BEEF, 100, 31);
    assert_eq!(first, second);
    let third = compute_viewport(0xDEAD_BEEF, 100, 31);
    assert_eq!(second, third);
}

#[test]
fn window_saturates_at_low_addresses() {
    // pointer 4 with bucket size 8: the pointed bucket is 0 and centering
    // cannot underflow below address zero.
    let v = compute_viewport(4, 24, 5);
    assert_eq!(v.beginning_address, 0);

    let v = compute_viewport(0, 24, 5);
    assert_eq!(v.beginning_address, 0);
}

#[test]
fn window_near_address_top() {
    let v = compute_viewport(u32::MAX, 24, 5);
    assert_eq!(v.bucket_size, 8);
    // 0xFFFFFFFF aligned down to a multiple of 8 is 0xFFFFFFF8, minus two
    // buckets of 8.
    assert_eq!(v.beginning_address, 0xFFFF_FFF8 - 16);
}

#[test]
fn degenerate_area_is_one_placeholder_row() {
    // width under three columns: no bucket fits; one placeholder row, no
    // data requested, no division by zero.
    let v = compute_viewport(100, 2, 5);
    assert_eq!(v, Viewport { beginning_address: 100, bucket_size: 0, row_count: 1 });
    assert_eq!(v.buffer_len(), 0);

    // zero visible rows degenerates the same way.
    let v = compute_viewport(100, 24, 0);
    assert_eq!(v.bucket_size, 0);
    assert_eq!(v.row_count, 1);
}

#[test]
fn byte_steps_clamp_at_bounds() {
    assert_eq!(step_backward_byte(0), 0);
    assert_eq!(step_forward_byte(u32::MAX), u32::MAX);
    assert_eq!(step_forward_byte(7), 8);
    assert_eq!(step_backward_byte(7), 6);
}

#[test]
fn state_byte_steps_clamp_at_bounds() {
    let mut s = MemoryViewState::new(0);
    s.step_backward_byte();
    assert_eq!(s.pointer, 0);
    s.step_forward_byte();
    assert_eq!(s.pointer, 1);

    let mut s = MemoryViewState::new(u32::MAX);
    s.step_forward_byte();
    assert_eq!(s.pointer, u32::MAX);
    s.step_backward_byte();
    assert_eq!(s.pointer, u32::MAX - 1);
}

#[test]
fn row_steps_use_latest_bucket_size() {
    let mut s = MemoryViewState::new(100);
    // before any frame the stride is zero: stepping is a no-op.
    s.step_forward_row();
    assert_eq!(s.pointer, 100);

    s.bytes_per_bucket = 8;
    s.step_forward_row();
    assert_eq!(s.pointer, 108);
    s.step_backward_row();
    assert_eq!(s.pointer, 100);

    // clamped at both ends: never wraps.
    s.pointer = 3;
    s.step_backward_row();
    assert_eq!(s.pointer, 3);
    s.pointer = u32::MAX - 3;
    s.step_forward_row();
    assert_eq!(s.pointer, u32::MAX - 3);
}

struct CountingProvider;

impl MemoryProvider for CountingProvider {
    fn read_to_buf(&self, pointer: u32, buf: &mut Vec<Option<u8>>) {
        for (i, value) in buf.iter_mut().enumerate() {
            *value = pointer.checked_add(i as u32).map(|x| x as u8);
        }
    }
}

#[test]
fn prepare_frame_updates_state_and_sizes() {
    let mut state = MemoryViewState::new(100);
    let (viewport, buffer, grid) = prepare_frame(&CountingProvider, &mut state, 24, 5);
    assert_eq!(viewport.beginning_address, 80);
    assert_eq!(viewport.bucket_size, 8);
    assert_eq!(state.beginning_bucket, 80);
    assert_eq!(state.bytes_per_bucket(), 8);
    assert_eq!(state.pointer, 100);
    assert_eq!(state.pointer_index(), 20);
    assert_eq!(buffer.len(), 40);
    assert_eq!(grid.len(), 5);
    // the provider filled ascending from the beginning address.
    assert_eq!(buffer[0], Some(80));
    assert_eq!(buffer[39], Some(119));
}

#[test]
fn pointer_always_inside_requested_window() {
    // also at the saturated low end and at the address top, the pointer's
    // offset stays below the buffer length.
    for pointer in [0u32, 4, 100, u32::MAX - 1, u32::MAX] {
        let mut state = MemoryViewState::new(pointer);
        let (_, buffer, _) = prepare_frame(&CountingProvider, &mut state, 24, 5);
        assert!(state.beginning_bucket <= state.pointer);
        assert!(state.pointer_index() < buffer.len());
    }
}

#[test]
fn prepare_frame_twice_same_window() {
    let mut state = MemoryViewState::new(100);
    let (v1, _, _) = prepare_frame(&CountingProvider, &mut state, 24, 5);
    let (v2, _, _) = prepare_frame(&CountingProvider, &mut state, 24, 5);
    assert_eq!(v1, v2);
}
