//! Acceptance of a submitted guess.

use vstd::prelude::*;

use crate::utils::WordBuffer;

verus! {

/// Whether a guess may be submitted: every cell must be filled, and the
/// letter Z is not accepted in any cell.
pub fn valid_guess(word: &WordBuffer) -> (r: bool)
    ensures
        r == (word.full() && forall|i: int| 0 <= i < 5 ==> (#[trigger] word.0@[i]).0 != 90),
{
    let mut i: usize = 0;
    while i < 5
        invariant
            i <= 5,
            forall|j: int| 0 <= j < i ==> (#[trigger] word.0@[j]).0 != 0,
            forall|j: int| 0 <= j < i ==> (#[trigger] word.0@[j]).0 != 90,
        decreases 5 - i,
    {
        if word.0[i].0 == 0 || word.0[i].0 == 90 {
            return false;
        }
        i = i + 1;
    }
    true
}

} // verus!
