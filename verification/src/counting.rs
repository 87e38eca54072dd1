//! A counting exercise: counting up to five, one step at a time.

use vstd::prelude::*;

verus! {

/// Counts from zero to five in unit steps and returns the count reached.
pub fn count_to_5() -> (result: i32)
    ensures
        result == 5,
{
    let mut result: i32 = 0;
    for step in 0i32..5
        invariant
            result == step,
    {
        result += 1;
    }
    result
}

} // verus!
