//! The collation scheduler: which advertised collation to fetch next, and
//! whether a para may have more collations fetched.
use vstd::prelude::*;
use std::collections::BTreeMap;
use crate::primitives::{
    fetch_id_eq, fetch_id_of, FetchId, ParaId, ProspectiveParachainsMode, WaitingItem,
};

verus! {

broadcast use vstd::std_specs::btree::group_btree_axioms;

/// How many times `p` occurs in `s`.
pub open spec fn count_in(s: Seq<ParaId>, p: ParaId) -> nat
    decreases s.len(),
{
    if s.len() == 0 {
        0
    } else {
        count_in(s.drop_last(), p) + if s.last() == p { 1nat } else { 0nat }
    }
}

/// The value of `p` in a map of counters, where an absent para counts zero.
pub open spec fn counter(m: Map<ParaId, usize>, p: ParaId) -> nat {
    if m.contains_key(p) { m[p] as nat } else { 0 }
}

/// How many slots of para `template[i]` the scan has passed at position `i`,
/// that slot included.
pub open spec fn seen(template: Seq<ParaId>, i: int) -> nat {
    count_in(template.take(i + 1), template[i])
}

/// Whether some item in `waiting` is for para `p`.
pub open spec fn has_waiting(waiting: Seq<WaitingItem>, p: ParaId) -> bool {
    exists|k: int| 0 <= k < waiting.len() && (#[trigger] waiting[k]).0.para_id == p
}

/// Whether `k` is the position of the oldest item for para `p` in `waiting`.
pub open spec fn is_first_of(waiting: Seq<WaitingItem>, p: ParaId, k: int) -> bool {
    &&& 0 <= k < waiting.len()
    &&& waiting[k].0.para_id == p
    &&& forall|j: int| 0 <= j < k ==> (#[trigger] waiting[j]).0.para_id != p
}

/// Number of occurrences of `p` in `s[0..end]`.
pub fn count_prefix(s: &Vec<ParaId>, end: usize, p: ParaId) -> (r: usize)
    requires
        end <= s.len(),
    ensures
        r == count_in(s@.take(end as int), p),
{
    let mut i: usize = 0;
    let mut n: usize = 0;
    while i < end
        invariant
            i <= end <= s.len(),
            n == count_in(s@.take(i as int), p),
            n <= i,
        decreases end - i,
    {
        assert(s@.take(i + 1).drop_last() =~= s@.take(i as int));
        if s[i] == p {
            n = n + 1;
        }
        i = i + 1;
    }
    n
}

/// Value of `p` in `m`, zero where `p` is absent.
fn counter_of(m: &BTreeMap<ParaId, usize>, p: ParaId) -> (r: usize)
    ensures
        r == counter(m@, p),
{
    match m.get(&p) {
        Some(v) => *v,
        None => 0,
    }
}

/// Per-context scheduling state for collation fetches.
pub struct Collations {
    /// The fetch in flight, if any.
    pub fetching_from: Option<FetchId>,
    /// Waiting items of every para, oldest first.
    waiting_queue: Vec<WaitingItem>,
    /// How many fetches were reported done, per para.
    fetched_per_para: BTreeMap<ParaId, usize>,
    /// The claim queue given at construction.
    claim_queue: Vec<ParaId>,
    /// Whether scheduling follows the claim queue.
    claim_queue_support: bool,
}

impl Collations {
    /// The fetch in flight, if any.
    pub closed spec fn in_flight(&self) -> Option<FetchId> {
        self.fetching_from
    }

    /// All waiting items, oldest first; those of one para form its queue.
    pub closed spec fn waiting(&self) -> Seq<WaitingItem> {
        self.waiting_queue@
    }

    /// Fetches reported done for `p`.
    pub closed spec fn delivered(&self, p: ParaId) -> nat {
        counter(self.fetched_per_para@, p)
    }

    /// The claim queue given at construction.
    pub closed spec fn claims(&self) -> Seq<ParaId> {
        self.claim_queue@
    }

    /// Whether scheduling follows the claim queue.
    pub closed spec fn support(&self) -> bool {
        self.claim_queue_support
    }

    /// How many candidates `p` may have in this context.
    pub open spec fn max_claims(&self, p: ParaId) -> nat {
        if self.support() { count_in(self.claims(), p) } else { 1 }
    }

    /// Slots of `p` taken by done fetches and by those in flight elsewhere.
    pub open spec fn effective_delivered(&self, pending: Map<ParaId, usize>, p: ParaId) -> nat {
        self.delivered(p) + counter(pending, p)
    }

    /// Whether slot `i` of `template` is not claimed yet.
    pub open spec fn slot_open(&self, template: Seq<ParaId>, pending: Map<ParaId, usize>, i: int) -> bool {
        seen(template, i) > self.effective_delivered(pending, template[i])
    }

    /// Whether slot `i` of `template` is open and its para has an item waiting.
    pub open spec fn slot_ready(&self, template: Seq<ParaId>, pending: Map<ParaId, usize>, i: int) -> bool {
        &&& 0 <= i < template.len()
        &&& self.slot_open(template, pending, i)
        &&& has_waiting(self.waiting(), template[i])
    }

    /// Whether `i` is the earliest ready slot of `template`.
    pub open spec fn first_ready(&self, template: Seq<ParaId>, pending: Map<ParaId, usize>, i: int) -> bool {
        &&& self.slot_ready(template, pending, i)
        &&& forall|j: int| 0 <= j < i ==> !#[trigger] self.slot_ready(template, pending, j)
    }

    /// Whether a report of `finished` is stale: another fetch is in flight.
    pub open spec fn is_stale(&self, finished: FetchId) -> bool {
        match self.in_flight() {
            Some(f) => f != finished,
            None => false,
        }
    }

    /// Everything but the waiting items and the fetch in flight is as in `other`.
    pub open spec fn same_counts(&self, other: &Collations) -> bool {
        &&& forall|p: ParaId| #[trigger] self.delivered(p) == other.delivered(p)
        &&& self.claims() == other.claims()
        &&& self.support() == other.support()
    }

    /// Whether the next fetch takes the waiting item at position `k`.
    pub open spec fn picks(&self, template: Seq<ParaId>, pending: Map<ParaId, usize>, k: int) -> bool {
        if self.support() {
            exists|i: int| #[trigger]
                self.first_ready(template, pending, i) && is_first_of(self.waiting(), template[i], k)
        } else {
            k == 0 && self.waiting().len() > 0
        }
    }

    /// Whether no waiting item may be fetched now.
    pub open spec fn nothing_to_pick(&self, template: Seq<ParaId>, pending: Map<ParaId, usize>) -> bool {
        if self.support() {
            forall|i: int| 0 <= i < template.len() ==> !#[trigger] self.slot_ready(template, pending, i)
        } else {
            self.waiting().len() == 0
        }
    }

    pub fn new(claim_queue: &Vec<ParaId>, claim_queue_support: bool) -> (r: Collations)
        ensures
            r.in_flight() is None,
            r.waiting() == Seq::<WaitingItem>::empty(),
            forall|p: ParaId| #[trigger] r.delivered(p) == 0,
            r.claims() == claim_queue@,
            r.support() == claim_queue_support,
    {
        let r = Collations {
            fetching_from: None,
            waiting_queue: Vec::new(),
            fetched_per_para: BTreeMap::new(),
            claim_queue: claim_queue.clone(),
            claim_queue_support,
        };
        assert(r.waiting() =~= Seq::<WaitingItem>::empty());
        r
    }

    /// Appends `item` to the queue of its para.
    pub fn add_to_waiting_queue(&mut self, item: WaitingItem)
        ensures
            final(self).waiting() == old(self).waiting().push(item),
            final(self).in_flight() == old(self).in_flight(),
            final(self).same_counts(old(self)),
    {
        self.waiting_queue.push(item);
    }

    /// Records that the fetch of a collation for `para_id` is over, done or
    /// given up, and that no fetch is in flight.
    pub fn note_fetched(&mut self, para_id: ParaId)
        requires
            old(self).delivered(para_id) < usize::MAX,
        ensures
            final(self).delivered(para_id) == old(self).delivered(para_id) + 1,
            forall|q: ParaId| q != para_id ==> #[trigger] final(self).delivered(q) == old(self).delivered(q),
            final(self).in_flight() is None,
            final(self).waiting() == old(self).waiting(),
            final(self).claims() == old(self).claims(),
            final(self).support() == old(self).support(),
    {
        let n = counter_of(&self.fetched_per_para, para_id);
        self.fetched_per_para.insert(para_id, n + 1);
        self.fetching_from = None;
    }

    /// Whether a fetch is in flight.
    pub fn is_fetching(&self) -> (r: bool)
        ensures
            r == self.in_flight() is Some,
    {
        self.fetching_from.is_some()
    }

    /// Whether `para_id` has used up its claims, counting `num_pending`
    /// fetches in flight for it elsewhere.
    pub fn is_seconded_limit_reached(
        &self,
        _relay_parent_mode: ProspectiveParachainsMode,
        para_id: ParaId,
        num_pending: usize,
    ) -> (r: bool)
        ensures
            r == (self.delivered(para_id) + num_pending >= self.max_claims(para_id)),
    {
        let max_claims = if self.claim_queue_support {
            assert(self.claim_queue@.take(self.claim_queue@.len() as int) =~= self.claim_queue@);
            count_prefix(&self.claim_queue, self.claim_queue.len(), para_id)
        } else {
            1
        };
        let delivered = counter_of(&self.fetched_per_para, para_id);
        delivered >= max_claims || num_pending >= max_claims - delivered
    }

    /// Position of the oldest waiting item for `p`.
    fn first_waiting(&self, p: ParaId) -> (r: Option<usize>)
        ensures
            match r {
                Some(k) => is_first_of(self.waiting(), p, k as int),
                None => !has_waiting(self.waiting(), p),
            },
    {
        let mut k: usize = 0;
        while k < self.waiting_queue.len()
            invariant
                k <= self.waiting_queue@.len(),
                forall|j: int| 0 <= j < k ==> (#[trigger] self.waiting_queue@[j]).0.para_id != p,
            decreases self.waiting_queue@.len() - k,
        {
            if self.waiting_queue[k].0.para_id == p {
                return Some(k);
            }
            k = k + 1;
        }
        None
    }

    /// The earliest ready slot of `template`, with the position of the oldest
    /// waiting item of its para.
    fn find_ready_slot(&self, template: &Vec<ParaId>, pending: &BTreeMap<ParaId, usize>) -> (r:
        Option<(usize, usize)>)
        ensures
            match r {
                Some((i, k)) => {
                    &&& self.first_ready(template@, pending@, i as int)
                    &&& is_first_of(self.waiting(), template@[i as int], k as int)
                },
                None => forall|i: int|
                    0 <= i < template@.len() ==> !#[trigger] self.slot_ready(template@, pending@, i),
            },
    {
        let mut i: usize = 0;
        while i < template.len()
            invariant
                i <= template@.len(),
                forall|j: int| 0 <= j < i ==> !#[trigger] self.slot_ready(template@, pending@, j),
            decreases template@.len() - i,
        {
            let p = template[i];
            let seen_here = count_prefix(template, i + 1, p);
            let delivered = counter_of(&self.fetched_per_para, p);
            let elsewhere = counter_of(pending, p);
            if seen_here > delivered && seen_here - delivered > elsewhere {
                match self.first_waiting(p) {
                    Some(k) => {
                        return Some((i, k));
                    },
                    None => {},
                }
            }
            i = i + 1;
        }
        None
    }

    /// Picks the next collation to fetch and marks it as in flight.
    ///
    /// `finished_one` is the fetch that the caller saw end; where another
    /// fetch is in flight the report is stale and nothing changes. With claim
    /// queue support the earliest slot of `claim_queue` that is neither
    /// claimed (by done fetches, or by `pending_fetches` in flight elsewhere)
    /// nor empty gives the para whose oldest item is taken; without it the
    /// oldest item of all is taken.
    pub fn get_next_collation_to_fetch(
        &mut self,
        finished_one: &FetchId,
        _relay_parent_mode: ProspectiveParachainsMode,
        claim_queue: &Vec<ParaId>,
        pending_fetches: &BTreeMap<ParaId, usize>,
    ) -> (r: Option<WaitingItem>)
        ensures
            old(self).is_stale(*finished_one) ==> r is None && *final(self) == *old(self),
            !old(self).is_stale(*finished_one) ==> {
                &&& final(self).same_counts(old(self))
                &&& (r is None <==> old(self).nothing_to_pick(claim_queue@, pending_fetches@))
                &&& r is None ==> {
                    &&& final(self).waiting() == old(self).waiting()
                    &&& final(self).in_flight() == old(self).in_flight()
                }
                &&& r matches Some(item) ==> {
                    &&& final(self).in_flight() == Some(fetch_id_of(item))
                    &&& exists|k: int| #[trigger] old(self).picks(claim_queue@, pending_fetches@, k)
                        && item == old(self).waiting()[k]
                        && final(self).waiting() == old(self).waiting().remove(k)
                }
            },
    {
        match &self.fetching_from {
            Some(f) => {
                if !fetch_id_eq(f, finished_one) {
                    return None;
                }
            },
            None => {},
        }
        let pos = if self.claim_queue_support {
            match self.find_ready_slot(claim_queue, pending_fetches) {
                Some((i, k)) => {
                    assert(self.first_ready(claim_queue@, pending_fetches@, i as int)
                        && is_first_of(self.waiting(), claim_queue@[i as int], k as int));
                    Some(k)
                },
                None => None,
            }
        } else if self.waiting_queue.len() > 0 {
            Some(0)
        } else {
            None
        };
        match pos {
            Some(k) => {
                assert(self.picks(claim_queue@, pending_fetches@, k as int));
                let ghost before = *self;
                let item = self.waiting_queue.remove(k);
                assert(item == before.waiting()[k as int]);
                let id = (
                    item.1,
                    match item.0.prospective_candidate {
                        Some(pc) => Some(pc.candidate_hash),
                        None => None,
                    },
                );
                self.fetching_from = Some(id);
                Some(item)
            },
            None => None,
        }
    }
}

} // verus!
