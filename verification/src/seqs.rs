//! Facts about sequences that the modules share.

use vstd::prelude::*;

verus! {

/// Filtering one more element of a prefix.
pub proof fn lemma_take_one_more_filter<A>(s: Seq<A>, i: int, pred: spec_fn(A) -> bool)
    requires
        0 <= i < s.len(),
    ensures
        s.take(i + 1).filter(pred) == if pred(s[i]) {
            s.take(i).filter(pred).push(s[i])
        } else {
            s.take(i).filter(pred)
        },
{
    assert(s.take(i + 1) == s.take(i).push(s[i]));
    s.take(i).lemma_filter_push(s[i], pred);
}

} // verus!
