//! A table of one-shot entries addressed by handles, so that a payload can
//! be named across a boundary by a plain integer and claimed exactly once.
use std::collections::HashMap;
use vstd::prelude::*;

verus! {

broadcast use vstd::std_specs::hash::group_hash_axioms;

/// Entries keyed by handles that are never handed out twice.
pub struct Registry<T> {
    table: HashMap<u64, T>,
    next: u64,
}

impl<T> Registry<T> {
    /// The entries not yet claimed, by handle.
    pub closed spec fn entries(&self) -> Map<u64, T> {
        self.table@
    }

    /// The handle that the next insertion receives.
    pub closed spec fn next_handle(&self) -> u64 {
        self.next
    }

    /// Every pending handle was handed out before the next one.
    pub open spec fn wf(&self) -> bool {
        forall|h: u64| #[trigger] self.entries().contains_key(h) ==> h < self.next_handle()
    }

    /// An empty table.
    pub fn new() -> (r: Self)
        ensures
            r.wf(),
            r.entries() == Map::<u64, T>::empty(),
            r.next_handle() == 0,
    {
        Registry { table: HashMap::new(), next: 0 }
    }

    /// Stores `value` under a fresh handle. Only when every handle has been
    /// used already is the value given back instead.
    pub fn insert(&mut self, value: T) -> (r: Result<u64, T>)
        requires
            old(self).wf(),
        ensures
            final(self).wf(),
            match r {
                Ok(h) => {
                    &&& h == old(self).next_handle()
                    &&& !old(self).entries().contains_key(h)
                    &&& final(self).entries() == old(self).entries().insert(h, value)
                    &&& final(self).next_handle() == h + 1
                },
                Err(v) => {
                    &&& v == value
                    &&& old(self).next_handle() == u64::MAX
                    &&& *final(self) == *old(self)
                },
            },
    {
        if self.next == u64::MAX {
            return Err(value);
        }
        let h = self.next;
        self.table.insert(h, value);
        self.next = h + 1;
        proof {
            assert forall|k: u64| #[trigger] self.entries().contains_key(k) implies k
                < self.next_handle() by {
                if k != h {
                    assert(old(self).entries().contains_key(k));
                }
            }
        }
        Ok(h)
    }

    /// Whether `handle` names an entry that has not been claimed.
    pub fn contains(&self, handle: u64) -> (r: bool)
        ensures
            r == self.entries().contains_key(handle),
    {
        self.table.contains_key(&handle)
    }

    /// Claims the entry under `handle`, removing it: a handle yields its
    /// entry once, and `None` ever after.
    pub fn take(&mut self, handle: u64) -> (r: Option<T>)
        requires
            old(self).wf(),
        ensures
            final(self).wf(),
            final(self).next_handle() == old(self).next_handle(),
            final(self).entries() == old(self).entries().remove(handle),
            r == (if old(self).entries().contains_key(handle) {
                Some(old(self).entries()[handle])
            } else {
                None::<T>
            }),
    {
        let r = self.table.remove(&handle);
        proof {
            assert forall|k: u64| #[trigger] self.entries().contains_key(k) implies k
                < self.next_handle() by {
                assert(old(self).entries().contains_key(k));
            }
        }
        r
    }

    /// Claiming a handle twice never yields a second entry: after a claim
    /// the handle is gone, and no later insertion reuses it.
    pub proof fn lemma_claimed_once(&self, handle: u64)
        requires
            self.wf(),
        ensures
            !self.entries().remove(handle).contains_key(handle),
            self.entries().contains_key(handle) ==> handle != self.next_handle(),
    {
    }
}

} // verus!
