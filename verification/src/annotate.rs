//! Byte annotation: maps a byte value, or its absence, to a display color
//! and to the highlight and alternation flags of its cell. The color comes
//! from a continuous gradient over the byte's domain; the alternation marker
//! switches every four bytes measured from the viewport's beginning address,
//! so it stays stable while the viewport scrolls.

use vstd::prelude::*;

verus! {

/// The red, green and blue channels that the cool gradient assigns to a byte
/// value.
pub uninterp spec fn cool_color(value: u8) -> (u8, u8, u8);

/// Relies on colorous::Gradient::eval_rational on colorous::COOL: with the
/// fixed denominator 256 it is a pure function of the numerator (constant
/// control points, interpolated arithmetically), and it panics only when the
/// denominator is zero.
#[verifier::external_body]
fn cool_gradient(value: u8) -> (r: (u8, u8, u8))
    ensures
        r == cool_color(value),
{
    let c = colorous::COOL.eval_rational(value as usize, 256);
    (c.r, c.g, c.b)
}

/// Visual attributes of one display cell: the gradient color (absent for an
/// unreadable byte), the four-byte alternation marker, and whether the cell
/// is the one the pointer selects.
#[derive(Clone, Copy, Debug)]
pub struct Annotation {
    pub color: Option<(u8, u8, u8)>,
    pub alternate: bool,
    pub highlighted: bool,
}

/// The alternation marker at `beginning + offset`: switches every four
/// addresses, anchored at the address space's origin.
pub open spec fn spec_alternate(beginning: u32, offset: int) -> bool {
    (((beginning + offset) / 4) % 2) == 0
}

/// The annotation that a byte, its offset in the frame, and the frame's
/// geometry determine.
pub open spec fn spec_annotation(
    byte: Option<u8>,
    beginning: u32,
    offset: int,
    pointer_index: int,
) -> Annotation {
    Annotation {
        color: match byte {
            Some(b) => Some(cool_color(b)),
            None => None,
        },
        alternate: spec_alternate(beginning, offset),
        highlighted: offset == pointer_index,
    }
}

/// The alternation marker belongs to the absolute address, not to the
/// frame: two frames that show the same address mark it the same way, so
/// the alternation stays in place while the viewport scrolls.
pub proof fn lemma_alternation_scroll_stable(
    first_beginning: u32,
    first_offset: int,
    second_beginning: u32,
    second_offset: int,
)
    requires
        first_beginning + first_offset == second_beginning + second_offset,
    ensures
        spec_alternate(first_beginning, first_offset) == spec_alternate(
            second_beginning,
            second_offset,
        ),
{
}

/// Annotates the byte at `offset` within the frame that begins at address
/// `beginning`: gradient color for a readable byte, no data-driven color for
/// an unreadable one, the stable alternation marker, and the pointer
/// highlight on the selected cell alone.
pub fn annotate(byte: Option<u8>, beginning: u32, offset: usize, pointer_index: usize) -> (r:
    Annotation)
    ensures
        r == spec_annotation(byte, beginning, offset as int, pointer_index as int),
{
    let position: u128 = (beginning as u128) + (offset as u128);
    Annotation {
        color: match byte {
            Some(b) => Some(cool_gradient(b)),
            None => None,
        },
        alternate: ((position / 4) % 2) == 0,
        highlighted: offset == pointer_index,
    }
}

} // verus!
