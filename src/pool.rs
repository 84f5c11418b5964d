//! A capacity-bounded pool of slots, each holding one expensive resource.
//!
//! Slots are created lazily, addressed by a stable index, and never moved
//! or removed while the pool lives. A slot is at every moment either queued
//! as available or checked out under exactly one [`Guard`].
use std::collections::VecDeque;
use vstd::prelude::*;

verus! {

/// The indices of the first `n` slots.
pub open spec fn below(n: nat) -> Set<usize> {
    Set::new(|i: usize| i < n)
}

proof fn lemma_below(n: nat)
    requires
        n <= usize::MAX + 1,
    ensures
        below(n).finite(),
        below(n).len() == n,
    decreases n,
{
    if n == 0 {
        assert(below(0) =~= Set::empty());
    } else {
        let m = (n - 1) as nat;
        lemma_below(m);
        assert(below(m).insert(m as usize) =~= below(n));
    }
}

/// An exclusive claim on one slot of a [`Pool`], handed out by the pool and
/// handed back to [`Pool::release`].
pub struct Guard {
    id: usize,
}

impl Guard {
    pub closed spec fn index(&self) -> usize {
        self.id
    }

    /// The index of the claimed slot.
    pub fn id(&self) -> (r: usize)
        ensures
            r == self.index(),
    {
        self.id
    }
}

/// What a request for a slot came to.
pub enum Checkout {
    /// An available slot was taken off the queue and is now claimed.
    Reused(Guard),
    /// No slot is available but the pool may grow: create a resource and
    /// hand it to [`Pool::add`].
    Grow,
    /// Every slot exists and is claimed: wait until a guard is released.
    Wait,
}

/// A pool of up to `capacity` resources, each of which can only be used by
/// one holder at a time.
pub struct Pool<T> {
    slots: Vec<T>,
    capacity: usize,
    available: VecDeque<usize>,
}

impl<T> Pool<T> {
    /// The resources created so far, by slot index.
    pub closed spec fn slots(&self) -> Seq<T> {
        self.slots@
    }

    /// The most slots the pool will ever create.
    pub closed spec fn cap(&self) -> nat {
        self.capacity as nat
    }

    /// The queue of available slot indices, front first.
    pub closed spec fn queue(&self) -> Seq<usize> {
        self.available@
    }

    pub open spec fn created(&self) -> nat {
        self.slots().len()
    }

    /// The slots that are currently claimed by a guard.
    pub open spec fn outstanding(&self) -> Set<usize> {
        Set::new(|i: usize| i < self.created() && !self.queue().contains(i))
    }

    /// The pool's invariant: never more slots than the capacity, and each
    /// existing slot queued at most once.
    pub open spec fn wf(&self) -> bool {
        &&& self.created() <= self.cap()
        &&& self.queue().no_duplicates()
        &&& forall|k: int| 0 <= k < self.queue().len() ==> #[trigger] self.queue()[k] < self.created()
    }

    /// A pool of `capacity` slots, none of them created yet.
    pub fn new(capacity: usize) -> (r: Self)
        ensures
            r.wf(),
            r.cap() == capacity,
            r.slots() == Seq::<T>::empty(),
            r.queue() == Seq::<usize>::empty(),
    {
        Pool { slots: Vec::new(), capacity, available: VecDeque::new() }
    }

    /// The most slots the pool will ever create.
    pub fn capacity(&self) -> (r: usize)
        ensures
            r == self.cap(),
    {
        self.capacity
    }

    /// The number of slots created so far.
    pub fn len(&self) -> (r: usize)
        ensures
            r == self.created(),
    {
        self.slots.len()
    }

    /// Asks for a slot without waiting: reuses the first available one,
    /// else says whether the pool may grow or the caller must wait.
    pub fn get(&mut self) -> (r: Checkout)
        requires
            old(self).wf(),
        ensures
            final(self).wf(),
            final(self).slots() == old(self).slots(),
            final(self).cap() == old(self).cap(),
            match r {
                Checkout::Reused(g) => {
                    &&& old(self).queue().len() > 0
                    &&& g.index() == old(self).queue()[0]
                    &&& final(self).queue() == old(self).queue().drop_first()
                    &&& final(self).outstanding() == old(self).outstanding().insert(g.index())
                    &&& !old(self).outstanding().contains(g.index())
                },
                Checkout::Grow => {
                    &&& old(self).queue().len() == 0
                    &&& old(self).created() < old(self).cap()
                    &&& final(self).queue() == old(self).queue()
                },
                Checkout::Wait => {
                    &&& old(self).queue().len() == 0
                    &&& old(self).created() == old(self).cap()
                    &&& final(self).queue() == old(self).queue()
                },
            },
    {
        let front = self.available.pop_front();
        match front {
            Some(id) => {
                proof {
                    let q = old(self).queue();
                    assert(forall|k: int|
                        0 <= k < self.queue().len() ==> #[trigger] self.queue()[k] == q[k + 1]);
                    assert forall|i: usize|
                        self.queue().contains(i) <==> (q.contains(i) && i != id) by {
                        if q.contains(i) && i != id {
                            let k = choose|k: int| 0 <= k < q.len() && q[k] == i;
                            assert(self.queue()[k - 1] == i);
                        }
                        if self.queue().contains(i) {
                            let k = choose|k: int| 0 <= k < self.queue().len() && self.queue()[k] == i;
                            assert(q[k + 1] == i);
                        }
                    }
                    assert(self.outstanding() =~= old(self).outstanding().insert(id));
                }
                Checkout::Reused(Guard { id })
            },
            None => {
                if self.slots.len() < self.capacity {
                    Checkout::Grow
                } else {
                    Checkout::Wait
                }
            },
        }
    }

    /// Adds a newly created resource as the next slot, claimed at once.
    pub fn add(&mut self, resource: T) -> (r: Guard)
        requires
            old(self).wf(),
            old(self).created() < old(self).cap(),
        ensures
            final(self).wf(),
            final(self).cap() == old(self).cap(),
            final(self).slots() == old(self).slots().push(resource),
            final(self).queue() == old(self).queue(),
            r.index() == old(self).created(),
            final(self).outstanding() == old(self).outstanding().insert(r.index()),
    {
        let id = self.slots.len();
        self.slots.push(resource);
        proof {
            assert(!self.queue().contains(id));
            assert(self.outstanding() =~= old(self).outstanding().insert(id));
        }
        Guard { id }
    }

    /// Hands a claimed slot back: its index joins the end of the queue.
    pub fn release(&mut self, guard: Guard)
        requires
            old(self).wf(),
            old(self).outstanding().contains(guard.index()),
        ensures
            final(self).wf(),
            final(self).cap() == old(self).cap(),
            final(self).slots() == old(self).slots(),
            final(self).queue() == old(self).queue().push(guard.index()),
            final(self).outstanding() == old(self).outstanding().remove(guard.index()),
    {
        let id = guard.id;
        self.available.push_back(id);
        proof {
            let q = old(self).queue();
            assert(self.queue()[q.len() as int] == id);
            assert(forall|k: int| 0 <= k < q.len() ==> #[trigger] self.queue()[k] == q[k]);
            assert forall|i: usize| self.queue().contains(i) <==> (q.contains(i) || i == id) by {
                if q.contains(i) {
                    let k = choose|k: int| 0 <= k < q.len() && q[k] == i;
                    assert(self.queue()[k] == i);
                }
                if self.queue().contains(i) && i != id {
                    let k = choose|k: int| 0 <= k < self.queue().len() && self.queue()[k] == i;
                    assert(q[k] == i);
                }
            }
            assert(self.outstanding() =~= old(self).outstanding().remove(id));
        }
    }

    /// The resource held in a claimed slot.
    pub fn resource(&self, guard: &Guard) -> (r: &T)
        requires
            self.wf(),
            self.outstanding().contains(guard.index()),
        ensures
            *r == self.slots()[guard.index() as int],
    {
        &self.slots[guard.id]
    }

    /// The claimed slots are exactly those neither queued nor uncreated, so
    /// there are `created - queued` of them.
    pub proof fn lemma_outstanding_count(&self)
        requires
            self.wf(),
        ensures
            self.outstanding().finite(),
            self.outstanding().len() + self.queue().len() == self.created(),
    {
        let q = self.queue();
        let all = below(self.created());
        lemma_below(self.created());
        q.unique_seq_to_set();
        assert(q.to_set().subset_of(all)) by {
            assert forall|i: usize| q.to_set().contains(i) implies all.contains(i) by {
                let k = choose|k: int| 0 <= k < q.len() && q[k] == i;
                assert(q[k] < self.created());
            }
        }
        vstd::set_lib::lemma_len_subset(q.to_set(), all);
        assert(self.outstanding() =~= all.difference(q.to_set()));
        vstd::set_lib::lemma_set_subset_finite(all, self.outstanding());
        assert(self.outstanding() + q.to_set() =~= all);
        vstd::set_lib::lemma_set_disjoint_lens(self.outstanding(), q.to_set());
    }

    /// No more than `capacity` slots are ever claimed at once, and the pool
    /// sends a caller away to wait exactly when all `capacity` of them are.
    pub proof fn lemma_claims_bounded(&self)
        requires
            self.wf(),
        ensures
            self.outstanding().len() <= self.cap(),
            (self.queue().len() == 0 && self.created() == self.cap()) <==> self.outstanding().len()
                == self.cap(),
    {
        self.lemma_outstanding_count();
    }

    /// Once every guard has been handed back, a pool that has created any
    /// slot has one queued, so the next request reuses it instead of growing.
    pub proof fn lemma_idle_pool_reuses(&self)
        requires
            self.wf(),
            self.outstanding().is_empty(),
            self.created() > 0,
        ensures
            self.queue().len() == self.created(),
            self.queue().len() > 0,
    {
        self.lemma_outstanding_count();
        vstd::set_lib::lemma_set_empty_equivalency_len(self.outstanding());
    }
}

} // verus!
