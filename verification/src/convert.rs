//! Sample format conversions with exact integer meaning.

use vstd::prelude::*;

verus! {

/// Re-center a signed sixteen-bit sample into the unsigned sixteen-bit
/// representation: the zero line of the signed format maps to the
/// middle of the unsigned range, preserving order and spacing.
pub fn i16_to_u16_sample(s: i16) -> (u: u16)
    ensures
        u as int == s as int + 32768,
{
    (((s as i32) + 32768) as u16)
}

} // verus!
