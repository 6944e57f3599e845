//! Classification: argmax over the final layer's outputs.
//!
//! Ties go to the highest index (the scan replaces the running best on
//! `>=`); an empty input yields index 0 as a defined fallback.

use vstd::prelude::*;

verus! {

/// The index of the maximum value, with the highest index winning ties;
/// 0 for an empty vector.
pub open spec fn argmax_seq(s: Seq<i32>) -> int
    decreases s.len(),
{
    if s.len() <= 1 {
        0
    } else {
        let r = argmax_seq(s.drop_last());
        if s.last() >= s[r] {
            s.len() - 1
        } else {
            r
        }
    }
}

/// What the argmax index is: in range, no element above it, and every later
/// element strictly below it.
pub proof fn lemma_argmax_properties(s: Seq<i32>)
    ensures
        s.len() == 0 ==> argmax_seq(s) == 0,
        s.len() > 0 ==> 0 <= argmax_seq(s) < s.len(),
        s.len() > 0 ==> forall|k: int| 0 <= k < s.len() ==> #[trigger] s[k] <= s[argmax_seq(s)],
        s.len() > 0 ==> forall|k: int| argmax_seq(s) < k < s.len() ==> #[trigger] s[k] < s[argmax_seq(s)],
    decreases s.len(),
{
    if s.len() > 1 {
        lemma_argmax_properties(s.drop_last());
        assert(forall|k: int| 0 <= k < s.len() - 1 ==> s[k] == s.drop_last()[k]);
    }
}

/// Find the predicted class: the index of the maximum output.
pub fn argmax_int32(data: &[i32]) -> (r: usize)
    ensures
        r == argmax_seq(data@),
        data@.len() == 0 ==> r == 0,
        data@.len() > 0 ==> r < data@.len(),
        forall|k: int| 0 <= k < data@.len() ==> data@[k] <= data@[r as int],
        forall|k: int| r < k < data@.len() ==> data@[k] < data@[r as int],
{
    let ghost whole = data@;
    if data.len() == 0 {
        return 0;
    }
    let mut best: usize = 0;
    let mut k: usize = 1;
    while k < data.len()
        invariant
            1 <= k <= whole.len(),
            data@ == whole,
            best < k,
            best == argmax_seq(whole.take(k as int)),
        decreases whole.len() - k,
    {
        proof {
            assert(whole.take(k as int + 1).drop_last() =~= whole.take(k as int));
        }
        if data[k] >= data[best] {
            best = k;
        }
        k += 1;
    }
    proof {
        assert(whole.take(whole.len() as int) =~= whole);
        lemma_argmax_properties(whole);
    }
    best
}

} // verus!
