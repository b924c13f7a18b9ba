use anton::Viewport;
use anton::address_label;
use anton::annotate;
use anton::ascii_glyph;
use anton::build_grid;
use anton::hex8;
use anton::hex_pair;

#[test]
fn hex_formatting_is_exact() {
    assert_eq!(hex_pair(0x00), ('0', '0'));
    assert_eq!(hex_pair(0x4A), ('4', 'A'));
    assert_eq!(hex_pair(0xFF), ('F', 'F'));
    let label: String = hex8(0x0012_34AB).into_iter().collect();
    assert_eq!(label, "001234AB");
    let label: String = hex8(u32::MAX).into_iter().collect();
    assert_eq!(label, "FFFFFFFF");
    let label: String = hex8(0).into_iter().collect();
    assert_eq!(label, "00000000");
}

#[test]
fn ascii_glyphs() {
    assert_eq!(ascii_glyph(Some(b'A')), 'A');
    assert_eq!(ascii_glyph(Some(b' ')), ' ');
    assert_eq!(ascii_glyph(Some(b'~')), '~');
    // control characters and the delete character get one placeholder.
    assert_eq!(ascii_glyph(Some(0x00)), '∙');
    assert_eq!(ascii_glyph(Some(0x1F)), '∙');
    assert_eq!(ascii_glyph(Some(0x7F)), '∙');
    // bytes beyond the character set get the other placeholder.
    assert_eq!(ascii_glyph(Some(0x80)), '∘');
    assert_eq!(ascii_glyph(Some(0xFF)), '∘');
    // an unreadable byte reads as a space.
    assert_eq!(ascii_glyph(None), ' ');
}

#[test]
fn address_labels_per_row() {
    let label: String = address_label(0x80, 8, 0).into_iter().collect();
    assert_eq!(label, "00000080");
    let label: String = address_label(0x80, 8, 2).into_iter().collect();
    assert_eq!(label, "00000090");
    // a row whose address would pass the top of the address space shows
    // dashes, never a wrapped address.
    let label: String = address_label(u32::MAX - 4, 8, 0).into_iter().collect();
    assert_eq!(label, "FFFFFFFB");
    let label: String = address_label(u32::MAX - 4, 8, 1).into_iter().collect();
    assert_eq!(label, "--------");
}

#[test]
fn alternation_anchored_at_viewport_beginning() {
    // switches every four bytes measured from the beginning address.
    for offset in 0..4 {
        assert!(annotate(Some(0), 0, offset, 100).alternate);
    }
    for offset in 4..8 {
        assert!(!annotate(Some(0), 0, offset, 100).alternate);
    }
    assert!(annotate(Some(0), 0, 8, 100).alternate);
    // the anchor is the address, not the row: a beginning of 2 flips after
    // two cells.
    assert!(annotate(Some(0), 2, 1, 100).alternate);
    assert!(!annotate(Some(0), 2, 2, 100).alternate);
}

#[test]
fn alternation_stable_across_scrolling() {
    // the same absolute address keeps its marker in differently-placed
    // frames.
    for address in 0..32u32 {
        for shift in 0..8u32 {
            let moved = annotate(Some(0), shift, (address - shift.min(address)) as usize, 999);
            let fixed = annotate(Some(0), 0, address as usize, 999);
            if shift <= address {
                assert_eq!(moved.alternate, fixed.alternate);
            }
        }
    }
}

#[test]
fn highlight_on_pointer_cell_only() {
    let a = annotate(Some(7), 0, 5, 5);
    assert!(a.highlighted);
    let b = annotate(Some(7), 0, 4, 5);
    assert!(!b.highlighted);
    // the highlight does not suppress the alternation marker.
    assert!(a.alternate == ((5 / 4) % 2 == 0));
}

#[test]
fn gradient_color_comes_from_the_palette() {
    // the annotation's color is the cool gradient's sample for the byte, not
    // an echo of the byte value.
    for value in [0u8, 5, 128, 255] {
        let c = colorous::COOL.eval_rational(value as usize, 256);
        assert_eq!(annotate(Some(value), 0, 0, 1).color, Some((c.r, c.g, c.b)));
    }
    assert_ne!(annotate(Some(5), 0, 0, 1).color, Some((5, 5, 5)));
    // an unreadable byte gets no data-driven color.
    assert_eq!(annotate(None, 0, 0, 1).color, None);
}

#[test]
fn grid_partitions_buffer_into_buckets() {
    let buf = vec![Some(0x00u8), Some(0xFF), None, Some(0x41)];
    let v = Viewport { beginning_address: 0x10, bucket_size: 2, row_count: 2 };
    let grid = build_grid(&buf, &v, 3);
    assert_eq!(grid.len(), 2);

    let label: String = grid[0].address_label.iter().collect();
    assert_eq!(label, "00000010");
    assert_eq!(grid[0].cells.len(), 2);
    assert_eq!(grid[0].cells[0].text, ('0', '0'));
    assert_eq!(grid[0].cells[1].text, ('F', 'F'));
    let ascii: String = grid[0].ascii.iter().collect();
    assert_eq!(ascii, "∙∘");

    let label: String = grid[1].address_label.iter().collect();
    assert_eq!(label, "00000012");
    assert_eq!(grid[1].cells[0].text, ('◦', '◦'));
    assert_eq!(grid[1].cells[0].annotation.color, None);
    assert_eq!(grid[1].cells[1].text, ('4', '1'));
    let ascii: String = grid[1].ascii.iter().collect();
    assert_eq!(ascii, " A");

    // the pointer cell: offset 3 is the second cell of the second row.
    assert!(grid[1].cells[1].annotation.highlighted);
    assert!(!grid[1].cells[0].annotation.highlighted);
    assert!(!grid[0].cells[0].annotation.highlighted);
}

#[test]
fn grid_renders_missing_unit_as_full_placeholder() {
    // a row whose pointer unit is unreadable still renders, as placeholders.
    let buf = vec![None, Some(5u8), None, None];
    let v = Viewport { beginning_address: 0, bucket_size: 4, row_count: 1 };
    let grid = build_grid(&buf, &v, 0);
    assert_eq!(grid.len(), 1);
    assert_eq!(grid[0].cells[0].text, ('◦', '◦'));
    assert_eq!(grid[0].cells[0].annotation.color, None);
    assert!(grid[0].cells[0].annotation.highlighted);
    assert_eq!(grid[0].cells[1].text, ('0', '5'));
    let ascii: String = grid[0].ascii.iter().collect();
    assert_eq!(ascii, " ∙  ");
}

#[test]
fn grid_degenerate_viewport_has_empty_rows() {
    let buf: Vec<Option<u8>> = Vec::new();
    let v = Viewport { beginning_address: 100, bucket_size: 0, row_count: 1 };
    let grid = build_grid(&buf, &v, 0);
    assert_eq!(grid.len(), 1);
    assert_eq!(grid[0].cells.len(), 0);
    assert_eq!(grid[0].ascii.len(), 0);
    let label: String = grid[0].address_label.iter().collect();
    assert_eq!(label, "00000064");
}
