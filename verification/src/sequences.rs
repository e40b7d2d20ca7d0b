//! Facts about filtered sequences.

use vstd::prelude::*;

verus! {

/// Filtering by a test that every element passes changes nothing.
pub proof fn lemma_filter_keeps_all<A>(s: Seq<A>, pred: spec_fn(A) -> bool)
    requires
        forall|i: int| 0 <= i < s.len() ==> pred(#[trigger] s[i]),
    ensures
        s.filter(pred) == s,
    decreases s.len(),
{
    reveal(Seq::filter);
    if s.len() > 0 {
        let front = s.drop_last();
        assert forall|i: int| 0 <= i < front.len() implies pred(#[trigger] front[i]) by {
            assert(front[i] == s[i]);
        }
        lemma_filter_keeps_all(front, pred);
        assert(front.push(s.last()) =~= s);
    }
}

/// Filtering keeps exactly the elements that pass the test, at rising
/// positions: the result lists where in `s` each kept element stands.
pub proof fn lemma_filter_positions<A>(s: Seq<A>, pred: spec_fn(A) -> bool) -> (at: Seq<int>)
    ensures
        at.len() == s.filter(pred).len(),
        forall|k: int| 0 <= k < at.len() ==> 0 <= #[trigger] at[k] < s.len(),
        forall|k: int| 0 <= k < at.len() ==> s[#[trigger] at[k]] == s.filter(pred)[k],
        forall|j: int, k: int| 0 <= j < k < at.len() ==> at[j] < at[k],
        forall|i: int| 0 <= i < s.len() && pred(s[i]) ==> #[trigger] at.contains(i),
    decreases s.len(),
{
    reveal(Seq::filter);
    if s.len() == 0 {
        Seq::empty()
    } else {
        let front = s.drop_last();
        let inner = lemma_filter_positions(front, pred);
        let at = if pred(s.last()) {
            inner.push(s.len() - 1)
        } else {
            inner
        };
        assert forall|k: int| 0 <= k < at.len() implies s[#[trigger] at[k]] == s.filter(pred)[k] by {
            if k < inner.len() {
                assert(at[k] == inner[k]);
                assert(front[inner[k]] == s[inner[k]]);
            }
        }
        assert forall|i: int| 0 <= i < s.len() && pred(s[i]) implies #[trigger] at.contains(i) by {
            if i < s.len() - 1 {
                assert(front[i] == s[i]);
                assert(inner.contains(i));
                let k = choose|k: int| 0 <= k < inner.len() && inner[k] == i;
                assert(at[k] == i);
            } else {
                assert(at[at.len() - 1] == i);
            }
        }
        at
    }
}

} // verus!
