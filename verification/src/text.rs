//! Texts and the characters that occur in them.

use vstd::prelude::*;

verus! {

/// The character that starts every ANSI sequence.
pub open spec fn escape() -> char {
    '\x1b'
}

/// `c` does not occur in `s`.
pub open spec fn free_of(s: Seq<char>, c: char) -> bool {
    forall|i: int| 0 <= i < s.len() ==> #[trigger] s[i] != c
}

/// `c` occurs in a text made of two exactly where it occurs in one of the two.
pub proof fn lemma_free_of_concat(a: Seq<char>, b: Seq<char>, c: char)
    ensures
        free_of(a + b, c) <==> free_of(a, c) && free_of(b, c),
{
    let ab = a + b;
    if free_of(ab, c) {
        assert forall|i: int| 0 <= i < a.len() implies #[trigger] a[i] != c by {
            assert(ab[i] == a[i]);
        }
        assert forall|i: int| 0 <= i < b.len() implies #[trigger] b[i] != c by {
            assert(ab[a.len() + i] == b[i]);
        }
    }
    if free_of(a, c) && free_of(b, c) {
        assert forall|i: int| 0 <= i < ab.len() implies #[trigger] ab[i] != c by {
            if i < a.len() {
                assert(ab[i] == a[i]);
            } else {
                assert(ab[i] == b[i - a.len()]);
            }
        }
    }
}

} // verus!
