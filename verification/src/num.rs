//! Saturating fixed-point helpers shared by the look and motion components.

use vstd::prelude::*;

verus! {

/// The nearest value to `x` that an `i64` can hold.
pub open spec fn sat_i64(x: int) -> int {
    if x < i64::MIN as int {
        i64::MIN as int
    } else if x > i64::MAX as int {
        i64::MAX as int
    } else {
        x
    }
}

/// Saturates a wide intermediate result back into an `i64`.
pub fn clip_i64(x: i128) -> (r: i64)
    ensures
        r as int == sat_i64(x as int),
{
    if x > i64::MAX as i128 {
        i64::MAX
    } else if x < i64::MIN as i128 {
        i64::MIN
    } else {
        x as i64
    }
}

/// `a + b`, saturating at the `i64` range.
pub fn sat_add_i64(a: i64, b: i64) -> (r: i64)
    ensures
        r as int == sat_i64(a as int + b as int),
{
    let wide: i128 = (a as i128) + (b as i128);
    clip_i64(wide)
}

} // verus!
