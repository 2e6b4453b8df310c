//! Small operations on text that the other modules share.

use vstd::prelude::*;

verus! {

/// Whether `wanted` occurs anywhere in `s`.
pub fn contains_char(s: &str, wanted: char) -> (found: bool)
    ensures
        found == s@.contains(wanted),
{
    let mut found = false;
    for c in it: s.chars()
        invariant
            it.seq() == s@,
            found == exists|k: int| 0 <= k < it.index() && s@[k] == wanted,
    {
        if c == wanted {
            found = true;
        }
    }
    found
}

} // verus!
