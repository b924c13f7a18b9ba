//! Pointer stepping: moves by one address unit or by one display row, always
//! clamped to the address range, never wrapping.

use vstd::prelude::*;

verus! {

/// Moves the pointer one address forward; at the top of the address space the
/// pointer stays where it is.
pub fn step_forward_byte(pointer: u32) -> (r: u32)
    ensures
        pointer < u32::MAX ==> r == pointer + 1,
        pointer == u32::MAX ==> r == pointer,
{
    if pointer < u32::MAX {
        pointer + 1
    } else {
        pointer
    }
}

/// Moves the pointer one address backward; at address zero the pointer stays
/// where it is.
pub fn step_backward_byte(pointer: u32) -> (r: u32)
    ensures
        pointer > 0 ==> r == pointer - 1,
        pointer == 0 ==> r == 0,
{
    if pointer > 0 {
        pointer - 1
    } else {
        pointer
    }
}

} // verus!
