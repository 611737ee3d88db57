//! Small text helpers shared by the modules.

use vstd::prelude::*;
use vstd::string::StrSliceExecFns;

verus! {

/// Whether `text` consists of exactly the characters of `expected`.
pub fn text_is(text: &str, expected: &str) -> (same: bool)
    ensures
        same == (text@ == expected@),
{
    let n = text.unicode_len();
    if n != expected.unicode_len() {
        return false;
    }
    let mut i: usize = 0;
    while i < n
        invariant
            n == text@.len(),
            n == expected@.len(),
            i <= n,
            forall|j: int| 0 <= j < i ==> text@[j] == expected@[j],
        decreases n - i,
    {
        if text.get_char(i) != expected.get_char(i) {
            return false;
        }
        i = i + 1;
    }
    assert(text@ =~= expected@);
    true
}

} // verus!
