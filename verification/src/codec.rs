//! Shared codec helpers: the fixed-width identifier buffer.

use vstd::prelude::*;

verus! {

broadcast use vstd::array::group_array_axioms;

/// Widen or narrow an identifier to the wire's fixed 20 bytes: shorter
/// sources are zero-padded on the right, longer ones are silently truncated
/// (lossy by design — the wire field has a fixed width).
pub fn copy_to_id(slice: &[u8]) -> (r: [u8; 20])
    ensures
        forall|i: int|
            0 <= i < 20 ==> r@[i] == (if i < slice@.len() {
                slice@[i]
            } else {
                0u8
            }),
{
    let mut buffer = [0u8; 20];
    let max = if slice.len() <= 20 {
        slice.len()
    } else {
        20
    };
    let mut i: usize = 0;
    while i < max
        invariant
            max <= 20,
            max <= slice@.len(),
            slice@.len() <= 20 ==> max == slice@.len(),
            i <= max,
            forall|j: int| 0 <= j < i ==> buffer@[j] == slice@[j],
            forall|j: int| i <= j < 20 ==> buffer@[j] == 0u8,
        decreases max - i,
    {
        buffer[i] = slice[i];
        i = i + 1;
    }
    buffer
}

} // verus!
