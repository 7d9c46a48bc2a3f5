//! Little-endian integer fields inside byte buffers.
use vstd::prelude::*;

verus! {

/// The little-endian `u16` stored at `b[at]`, `b[at + 1]`.
pub open spec fn le_u16(b: Seq<u8>, at: int) -> int {
    b[at] + 256 * b[at + 1]
}

/// Reads the little-endian `u16` at offset `at` of `data`.
pub fn read_u16_le(data: &[u8], at: usize) -> (r: u16)
    requires
        at + 2 <= data@.len(),
    ensures
        r == le_u16(data@, at as int),
{
    let lo = data[at] as u16;
    let hi = data[at + 1] as u16;
    lo + hi * 256
}

/// Writes `value` as a little-endian `u16` at offset `at` of `data`.
pub fn write_u16_le(data: &mut [u8], at: usize, value: u16)
    requires
        at + 2 <= old(data)@.len(),
    ensures
        final(data)@.len() == old(data)@.len(),
        le_u16(final(data)@, at as int) == value,
        forall|i: int|
            0 <= i < old(data)@.len() && i != at && i != at + 1 ==> #[trigger] final(data)@[i]
                == old(data)@[i],
{
    data[at] = (value % 256) as u8;
    data[at + 1] = (value / 256) as u8;
}

} // verus!
