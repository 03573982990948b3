use vstd::prelude::*;
use vstd::bytes::{spec_u32_from_le_bytes, u32_from_le_bytes};

verus! {

/// Decodes 16 bytes read from a partition into the four little-endian words
/// shown by the slot diagnostics.
pub fn le_words(b: &[u8]) -> (r: [u32; 4])
    requires
        b@.len() == 16,
    ensures
        forall|i: int| 0 <= i < 4 ==> r@[i] == spec_u32_from_le_bytes(b@.subrange(4 * i, 4 * i + 4)),
{
    let mut r: [u32; 4] = [0; 4];
    let mut i: usize = 0;
    while i < 4
        invariant
            b@.len() == 16,
            0 <= i <= 4,
            forall|k: int| 0 <= k < i ==> r@[k] == spec_u32_from_le_bytes(b@.subrange(4 * k, 4 * k + 4)),
        decreases 4 - i,
    {
        let w = u32_from_le_bytes(vstd::slice::slice_subrange(b, 4 * i, 4 * i + 4));
        r[i] = w;
        i += 1;
    }
    r
}

} // verus!
