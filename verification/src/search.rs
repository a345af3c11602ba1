//! The first item of a sequence that passes a test.

use vstd::prelude::*;

verus! {

/// The position of the first item of `s` that passes `test`, or the length
/// of `s` where none does.
pub open spec fn first_index<T>(s: Seq<T>, test: spec_fn(T) -> bool) -> int
    decreases s.len(),
{
    if s.len() == 0 {
        0
    } else if test(s[0]) {
        0
    } else {
        1 + first_index(s.drop_first(), test)
    }
}

/// The first index lies within the sequence or at its end; no item before
/// it passes the test, and the item at it does.
pub proof fn lemma_first_index<T>(s: Seq<T>, test: spec_fn(T) -> bool)
    ensures
        0 <= first_index(s, test) <= s.len(),
        forall|k: int| 0 <= k < first_index(s, test) ==> !test(#[trigger] s[k]),
        first_index(s, test) < s.len() ==> test(s[first_index(s, test)]),
    decreases s.len(),
{
    if s.len() > 0 && !test(s[0]) {
        let t = s.drop_first();
        lemma_first_index(t, test);
        assert forall|k: int| 0 <= k < first_index(s, test) implies !test(#[trigger] s[k]) by {
            if k > 0 {
                assert(s[k] == t[k - 1]);
            }
        }
        if first_index(s, test) < s.len() {
            assert(s[first_index(s, test)] == t[first_index(t, test)]);
        }
    }
}

/// An item that passes the test, with none before it that does, stands at
/// the first index.
pub proof fn lemma_first_index_is<T>(s: Seq<T>, test: spec_fn(T) -> bool, at: int)
    requires
        0 <= at <= s.len(),
        forall|k: int| 0 <= k < at ==> !test(#[trigger] s[k]),
        at < s.len() ==> test(s[at]),
    ensures
        first_index(s, test) == at,
{
    lemma_first_index(s, test);
    let found = first_index(s, test);
    if found < at {
        assert(!test(s[found]));
    }
    if at < found {
        assert(!test(s[at]));
    }
}

} // verus!
