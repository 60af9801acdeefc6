//! Dropping the repetitions of a sequence.

use vstd::prelude::*;

verus! {

/// The items of `s` in the order of their first occurrence, each once.
pub open spec fn kept_once<A>(s: Seq<A>) -> Seq<A>
    decreases s.len(),
{
    if s.len() == 0 {
        Seq::empty()
    } else {
        let before = kept_once(s.drop_last());
        if before.contains(s.last()) {
            before
        } else {
            before.push(s.last())
        }
    }
}

/// `kept_once` drops repetitions and nothing else.
pub proof fn lemma_kept_once<A>(s: Seq<A>)
    ensures
        kept_once(s).no_duplicates(),
        forall|x: A| kept_once(s).contains(x) <==> s.contains(x),
        kept_once(s).to_set() == s.to_set(),
    decreases s.len(),
{
    if s.len() > 0 {
        let front = s.drop_last();
        let before = kept_once(front);
        lemma_kept_once(front);
        assert forall|x: A| kept_once(s).contains(x) <==> s.contains(x) by {
            if s.contains(x) {
                let i = choose|i: int| 0 <= i < s.len() && s[i] == x;
                if i < s.len() - 1 {
                    assert(front[i] == x);
                    assert(front.contains(x));
                    assert(before.contains(x));
                    if !before.contains(s.last()) {
                        let k = choose|k: int| 0 <= k < before.len() && before[k] == x;
                        assert(before.push(s.last())[k] == x);
                    }
                } else {
                    if !before.contains(s.last()) {
                        assert(before.push(s.last())[before.len() as int] == x);
                    }
                }
            }
            if kept_once(s).contains(x) {
                let k = choose|k: int| 0 <= k < kept_once(s).len() && kept_once(s)[k] == x;
                if k < before.len() {
                    assert(before[k] == x);
                    assert(before.contains(x));
                    assert(front.contains(x));
                    let i = choose|i: int| 0 <= i < front.len() && front[i] == x;
                    assert(s[i] == x);
                } else {
                    assert(s[s.len() - 1] == x);
                }
            }
        }
    }
    assert(kept_once(s).to_set() =~= s.to_set());
}

} // verus!
