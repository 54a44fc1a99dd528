//! A dense, reuse-capable pool of small integer IDs.
//!
//! The broker keys every live pad by an ID from this pool. Allocation
//! always hands out the smallest ID that is not currently in use, so IDs
//! stay dense and are reused promptly after a discard; an ID is unique
//! among concurrently-live entries but carries no meaning beyond that.

use vstd::prelude::*;

verus! {

pub struct IdPool<T> {
    slots: Vec<Option<T>>,
}

impl<T> IdPool<T> {
    pub closed spec fn slots(&self) -> Seq<Option<T>> {
        self.slots@
    }

    /// `id` currently maps to a live entry.
    pub open spec fn live(&self, id: int) -> bool {
        0 <= id < self.slots().len() && self.slots()[id] is Some
    }

    /// The entry that a live `id` maps to.
    pub open spec fn get(&self, id: int) -> T
        recommends
            self.live(id),
    {
        self.slots()[id]->Some_0
    }

    /// An empty pool: no ID is live.
    pub fn new() -> (r: IdPool<T>)
        ensures
            forall|j: int| !r.live(j),
    {
        IdPool { slots: Vec::new() }
    }

    /// Insert `v` at the smallest ID not currently in use and return
    /// that ID. Every ID below the returned one is live, the returned
    /// one was not, and no other entry changes.
    pub fn allocate(&mut self, v: T) -> (id: usize)
        ensures
            !old(self).live(id as int),
            forall|j: int| 0 <= j < id as int ==> old(self).live(j),
            final(self).live(id as int),
            final(self).get(id as int) == v,
            forall|j: int| j != id as int ==> (final(self).live(j) <==> old(self).live(j)),
            forall|j: int| j != id as int && old(self).live(j) ==> final(self).get(j) == old(self).get(j),
    {
        let mut i: usize = 0;
        while i < self.slots.len()
            invariant
                i <= self.slots.len(),
                self.slots() == old(self).slots(),
                forall|j: int| 0 <= j < i as int ==> old(self).live(j),
            decreases self.slots.len() - i,
        {
            if self.slots[i].is_none() {
                self.slots.set(i, Some(v));
                return i;
            }
            i = i + 1;
        }
        let id = self.slots.len();
        self.slots.push(Some(v));
        id
    }

    /// Free `id` and hand its entry back; a no-op returning `None` when
    /// `id` is not live, so a double discard is legal.
    pub fn remove(&mut self, id: usize) -> (r: Option<T>)
        ensures
            !final(self).live(id as int),
            final(self).slots().len() == old(self).slots().len(),
            old(self).live(id as int) ==> (r matches Some(t) && t == old(self).get(id as int)),
            !old(self).live(id as int) ==> r is None && *final(self) == *old(self),
            forall|j: int| j != id as int ==> (final(self).live(j) <==> old(self).live(j)),
            forall|j: int| j != id as int && old(self).live(j) ==> final(self).get(j) == old(self).get(j),
    {
        if id < self.slots.len() {
            if self.slots[id].is_some() {
                let mut taken: Option<T> = None;
                self.slots.set_and_swap(id, &mut taken);
                return taken;
            }
        }
        None
    }

    /// Put `v` back into a hole left by `remove`, under the same ID.
    pub fn put(&mut self, id: usize, v: T)
        requires
            id < old(self).slots().len(),
            !old(self).live(id as int),
        ensures
            final(self).live(id as int),
            final(self).get(id as int) == v,
            forall|j: int| j != id as int ==> (final(self).live(j) <==> old(self).live(j)),
            forall|j: int| j != id as int && old(self).live(j) ==> final(self).get(j) == old(self).get(j),
    {
        self.slots.set(id, Some(v));
    }

    /// Whether `id` is live.
    pub fn contains(&self, id: usize) -> (r: bool)
        ensures
            r == self.live(id as int),
    {
        id < self.slots.len() && self.slots[id].is_some()
    }

    /// Borrow the live entry under `id`.
    pub fn borrow(&self, id: usize) -> (r: &T)
        requires
            self.live(id as int),
        ensures
            *r == self.get(id as int),
    {
        self.slots[id].as_ref().unwrap()
    }
}

/// Law: after a discard of `id` out of a pool in which every smaller ID
/// was live, the next allocation reuses exactly `id`.
///
/// `p1` is the pool after `remove(id)`, described by `remove`'s
/// postconditions; `id2` is any ID satisfying what `allocate` ensures of
/// its result on `p1`. Together with `allocate` never returning a live
/// ID, this is the reuse-and-uniqueness discipline of the pool.
pub proof fn lemma_discard_then_allocate_reuses<T>(p0: IdPool<T>, p1: IdPool<T>, id: int, id2: int)
    requires
        p0.live(id),
        !p1.live(id),
        forall|j: int| j != id ==> (p1.live(j) <==> p0.live(j)),
        forall|j: int| 0 <= j < id ==> p0.live(j),
        0 <= id2,
        !p1.live(id2),
        forall|j: int| 0 <= j < id2 ==> p1.live(j),
    ensures
        id2 == id,
{
    if id2 < id {
        assert(p0.live(id2));
        assert(p1.live(id2));
    }
    if id2 > id {
        assert(p1.live(id));
    }
}

} // verus!
