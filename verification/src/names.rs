//! Validation of names handed to the native solver.
//!
//! The C interface receives names as nul-terminated strings, so a name with
//! an embedded nul character cannot be transmitted faithfully and is
//! rejected here as an input error, before any foreign call.

use vstd::prelude::*;

verus! {

/// Whether the character sequence contains an embedded nul.
pub open spec fn spec_has_nul(s: Seq<char>) -> bool {
    exists|i: int| 0 <= i < s.len() && s[i] == '\0'
}

/// Scan a name for an embedded nul character.
pub fn has_nul(s: &str) -> (r: bool)
    ensures
        r == spec_has_nul(s@),
{
    let len = s.unicode_len();
    let mut i: usize = 0;
    while i < len
        invariant
            len == s@.len(),
            i <= len,
            forall|j: int| 0 <= j < i ==> s@[j] != '\0',
        decreases len - i,
    {
        if s.get_char(i) == '\0' {
            return true;
        }
        i += 1;
    }
    false
}

} // verus!
