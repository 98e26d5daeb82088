//! The start code that delimits coded units in a byte stream.

use vstd::prelude::*;

verus! {

/// The start code `00 00 00 01`.
pub open spec fn start_code() -> Seq<u8> {
    seq![0u8, 0u8, 0u8, 1u8]
}

/// Appends one start code to `out`.
pub fn push_start_code(out: &mut Vec<u8>)
    ensures
        final(out)@ == old(out)@ + start_code(),
{
    out.push(0);
    out.push(0);
    out.push(0);
    out.push(1);
}

} // verus!
