//! Ordering of IEEE-754 single precision numbers given by their bit patterns.

use vstd::prelude::*;

verus! {

/// The pattern encodes a NaN: all exponent bits set and a non-zero fraction.
pub open spec fn f32_is_nan(b: u32) -> bool {
    (b & 0x7F80_0000u32) == 0x7F80_0000u32 && (b & 0x007F_FFFFu32) != 0
}

/// A key that orders the non-NaN patterns as the numbers they encode:
/// the magnitude bits, negated for negative numbers, so that both zeros meet.
pub open spec fn f32_order_key(b: u32) -> int {
    let mag = (b & 0x7FFF_FFFFu32) as int;
    if (b & 0x8000_0000u32) != 0 {
        -mag
    } else {
        mag
    }
}

/// `a < b` on the numbers the patterns encode; false when either is a NaN.
pub open spec fn f32_lt(a: u32, b: u32) -> bool {
    !f32_is_nan(a) && !f32_is_nan(b) && f32_order_key(a) < f32_order_key(b)
}

pub fn f32_bits_lt(a: u32, b: u32) -> (r: bool)
    ensures
        r == f32_lt(a, b),
{
    let a_nan = (a & 0x7F80_0000u32) == 0x7F80_0000u32 && (a & 0x007F_FFFFu32) != 0;
    let b_nan = (b & 0x7F80_0000u32) == 0x7F80_0000u32 && (b & 0x007F_FFFFu32) != 0;
    if a_nan || b_nan {
        return false;
    }
    let am = a & 0x7FFF_FFFFu32;
    let bm = b & 0x7FFF_FFFFu32;
    let a_neg = (a & 0x8000_0000u32) != 0;
    let b_neg = (b & 0x8000_0000u32) != 0;
    if a_neg && b_neg {
        bm < am
    } else if a_neg {
        !(am == 0 && bm == 0)
    } else if b_neg {
        false
    } else {
        am < bm
    }
}

} // verus!
