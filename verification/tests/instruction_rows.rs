use anton::InstructionProvider;
use anton::InstructionViewState;
use anton::build_instruction_rows;
use anton::instruction_beginning;
use anton::instruction_row_address;
use anton::prepare_instruction_frame;

#[test]
fn instruction_window_centers_and_saturates() {
    // unit size 4, seven rows: three rows of four bytes above the pointer.
    assert_eq!(instruction_beginning(100, 4, 7), 88);
    // near the low end the window saturates at zero.
    assert_eq!(instruction_beginning(4, 4, 7), 0);
    assert_eq!(instruction_beginning(0, 4, 7), 0);
    // a huge unit size cannot underflow either.
    assert_eq!(instruction_beginning(100, u32::MAX, 7), 0);
}

#[test]
fn instruction_row_addresses_check_overflow() {
    assert_eq!(instruction_row_address(88, 4, 0), Some(88));
    assert_eq!(instruction_row_address(88, 4, 3), Some(100));
    assert_eq!(instruction_row_address(u32::MAX - 3, 4, 0), Some(u32::MAX - 3));
    assert_eq!(instruction_row_address(u32::MAX - 3, 4, 1), None);
}

#[test]
fn marker_on_pointer_row_only() {
    let buf: Vec<Option<u64>> = vec![Some(1), Some(2), None, Some(4), Some(5)];
    let rows = build_instruction_rows(&buf, 88, 4, 96);
    assert_eq!(rows.len(), 5);
    for (i, row) in rows.iter().enumerate() {
        assert_eq!(row.marker, i == 2);
        assert_eq!(row.present, buf[i].is_some());
    }
    let label: String = rows[0].address_label.iter().collect();
    assert_eq!(label, "00000058");
    let label: String = rows[3].address_label.iter().collect();
    assert_eq!(label, "00000064");
}

#[test]
fn overflowed_instruction_rows_show_dashes() {
    let buf: Vec<Option<u32>> = vec![Some(0), Some(0)];
    let rows = build_instruction_rows(&buf, u32::MAX, 4, 0);
    let label: String = rows[0].address_label.iter().collect();
    assert_eq!(label, "FFFFFFFF");
    let label: String = rows[1].address_label.iter().collect();
    assert_eq!(label, "--------");
    assert!(!rows[1].marker);
}

struct EveryOther;

impl InstructionProvider<u32> for EveryOther {
    fn read_to_buf(&self, pointer: u32, buf: &mut Vec<Option<u32>>) {
        for (i, value) in buf.iter_mut().enumerate() {
            *value = if i % 2 == 0 { Some(pointer.wrapping_add(i as u32)) } else { None };
        }
    }
}

#[test]
fn prepare_instruction_frame_fills_and_marks() {
    let mut state = InstructionViewState::new(100);
    let (buffer, rows) = prepare_instruction_frame(&EveryOther, &mut state, 4, 7);
    assert_eq!(state.beginning_address, 88);
    assert_eq!(state.pointer, 100);
    assert_eq!(buffer.len(), 7);
    assert_eq!(rows.len(), 7);
    // the pointer sits three units below the beginning.
    for (i, row) in rows.iter().enumerate() {
        assert_eq!(row.marker, i == 3);
        assert_eq!(row.present, i % 2 == 0);
    }
}
