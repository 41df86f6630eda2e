//! Bounded comparison of a fixed-width character line against a keyword.

use vstd::prelude::*;
use vstd::string::StrSliceExecFns;

verus! {

/// True when the first `n` positions of `line` and `kw` are identical.
pub open spec fn prefix_eq(line: Seq<char>, kw: Seq<char>, n: int) -> bool {
    forall|i: int| 0 <= i < n ==> line[i] == kw[i]
}

/// Compare a fixed-width character line against a keyword, bounded by `n`;
/// true if the first `n` positions are identical.
pub fn strcmpl(s1: &[char; 80], s2: &str, n: usize) -> (r: bool)
    requires
        n <= 80,
        n <= s2@.len(),
    ensures
        r == prefix_eq(s1@, s2@, n as int),
{
    let mut i: usize = 0;
    while i < n
        invariant
            i <= n,
            n <= 80,
            n <= s2@.len(),
            prefix_eq(s1@, s2@, i as int),
        decreases n - i,
    {
        if s1[i] != s2.get_char(i) {
            return false;
        }
        i += 1;
    }
    true
}

} // verus!
