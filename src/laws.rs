//! Properties of the scheduler that relate several calls, proved over the
//! spec functions that the contracts of `Collations` use.
use vstd::prelude::*;
use crate::collation::{count_in, has_waiting, is_first_of, seen, Collations};
use crate::primitives::{ParaId, WaitingItem};

verus! {

/// Counting over one more element of `s` adds one exactly where it is `p`.
pub proof fn lemma_count_take_step(s: Seq<ParaId>, n: int, p: ParaId)
    requires
        0 <= n < s.len(),
    ensures
        count_in(s.take(n + 1), p) == count_in(s.take(n), p) + if s[n] == p { 1nat } else { 0nat },
{
    assert(s.take(n + 1).drop_last() =~= s.take(n));
}

/// Occurrences in a prefix never exceed those in a longer prefix.
pub proof fn lemma_count_take_monotone(s: Seq<ParaId>, a: int, b: int, p: ParaId)
    requires
        0 <= a <= b <= s.len(),
    ensures
        count_in(s.take(a), p) <= count_in(s.take(b), p),
    decreases b - a,
{
    if a < b {
        lemma_count_take_monotone(s, a, b - 1, p);
        lemma_count_take_step(s, b - 1, p);
    }
}

/// At most one waiting item is the oldest of its para.
pub proof fn lemma_first_of_unique(w: Seq<WaitingItem>, p: ParaId, k1: int, k2: int)
    requires
        is_first_of(w, p, k1),
        is_first_of(w, p, k2),
    ensures
        k1 == k2,
{
    if k1 < k2 {
        assert(w[k1].0.para_id != p);
    } else if k2 < k1 {
        assert(w[k2].0.para_id != p);
    }
}

/// At most one waiting item is the one that the next fetch takes, so the
/// result of a selection is fully determined by the state and its inputs.
pub proof fn lemma_pick_unique(
    c: Collations,
    template: Seq<ParaId>,
    pending: Map<ParaId, usize>,
    k1: int,
    k2: int,
)
    requires
        c.picks(template, pending, k1),
        c.picks(template, pending, k2),
    ensures
        k1 == k2,
{
    if c.support() {
        let i1 = choose|i: int|
            #[trigger] c.first_ready(template, pending, i) && is_first_of(c.waiting(), template[i], k1);
        let i2 = choose|i: int|
            #[trigger] c.first_ready(template, pending, i) && is_first_of(c.waiting(), template[i], k2);
        if i1 < i2 {
            assert(!c.slot_ready(template, pending, i1));
        } else if i2 < i1 {
            assert(!c.slot_ready(template, pending, i2));
        }
        lemma_first_of_unique(c.waiting(), template[i1], k1, k2);
    }
}

/// With claim queue support, when exactly the first `n` slots of `template`
/// have been delivered and nothing is in flight elsewhere, the next fetch
/// takes the oldest waiting item of the para of slot `n`, as soon as one is
/// waiting; reporting it delivered leaves exactly the first `n + 1` slots
/// delivered. So fetches follow the slots of the template in order, whatever
/// the order in which the items were added.
pub proof fn lemma_follows_claim_queue(c: Collations, template: Seq<ParaId>, n: int)
    requires
        c.support(),
        0 <= n < template.len(),
        forall|p: ParaId| #[trigger] c.delivered(p) == count_in(template.take(n), p),
        has_waiting(c.waiting(), template[n]),
    ensures
        c.first_ready(template, Map::empty(), n),
        forall|k: int|
            #[trigger] c.picks(template, Map::empty(), k) <==> is_first_of(c.waiting(), template[n], k),
        forall|p: ParaId|
            #[trigger] count_in(template.take(n + 1), p) == c.delivered(p) + if p == template[n] {
                1nat
            } else {
                0nat
            },
{
    let pending = Map::<ParaId, usize>::empty();
    assert forall|j: int| 0 <= j < n implies !#[trigger] c.slot_ready(template, pending, j) by {
        lemma_count_take_monotone(template, j + 1, n, template[j]);
    }
    lemma_count_take_step(template, n, template[n]);
    assert(seen(template, n) == c.delivered(template[n]) + 1);
    assert forall|p: ParaId| #[trigger]
        count_in(template.take(n + 1), p) == c.delivered(p) + if p == template[n] {
            1nat
        } else {
            0nat
        } by {
        lemma_count_take_step(template, n, p);
    }
    assert forall|k: int| #[trigger]
        c.picks(template, pending, k) <==> is_first_of(c.waiting(), template[n], k) by {
        if c.picks(template, pending, k) {
            let i = choose|i: int|
                #[trigger] c.first_ready(template, pending, i) && is_first_of(c.waiting(), template[i], k);
            if i < n {
                assert(!c.slot_ready(template, pending, i));
            } else if n < i {
                assert(!c.slot_ready(template, pending, n));
            }
        }
        if is_first_of(c.waiting(), template[n], k) {
            assert(c.first_ready(template, pending, n) && is_first_of(c.waiting(), template[n], k));
        }
    }
}

/// Taking the item at position `k` removes exactly one occurrence of it from
/// the waiting items, and leaves all other items in place: an item added once
/// is fetched at most once.
pub proof fn lemma_taken_once(w: Seq<WaitingItem>, k: int)
    requires
        0 <= k < w.len(),
    ensures
        w.remove(k).to_multiset() == w.to_multiset().remove(w[k]),
        w.remove(k).to_multiset().count(w[k]) + 1 == w.to_multiset().count(w[k]),
{
    broadcast use vstd::multiset::group_multiset_axioms;
    broadcast use vstd::seq_lib::group_to_multiset_ensures;

    vstd::seq_lib::to_multiset_remove(w, k);
    assert(w.to_multiset().count(w[k]) > 0);
}

/// Without claim queue support the next fetch takes the oldest waiting item
/// of all, whatever claim queue and fetches in flight are given; an item added
/// later never overtakes one that is waiting.
pub proof fn lemma_fallback_in_order(c: Collations, w: Seq<WaitingItem>, x: WaitingItem)
    requires
        !c.support(),
        w.len() > 0,
    ensures
        forall|template: Seq<ParaId>, pending: Map<ParaId, usize>, k: int|
            #[trigger] c.picks(template, pending, k) <==> (k == 0 && c.waiting().len() > 0),
        w.push(x).remove(0) == w.remove(0).push(x),
        w.push(x)[0] == w[0],
{
    assert(w.push(x).remove(0) =~= w.remove(0).push(x));
}

/// With no item waiting, the next fetch takes nothing, whatever the claim
/// queue and the fetches in flight elsewhere.
pub proof fn lemma_nothing_waiting(c: Collations, template: Seq<ParaId>, pending: Map<ParaId, usize>)
    requires
        c.waiting().len() == 0,
    ensures
        c.nothing_to_pick(template, pending),
{
}

} // verus!
