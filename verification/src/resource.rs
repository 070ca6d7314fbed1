//! The indexed handle table every host-side service uses to hand out integer
//! handles (file descriptors, socket descriptors) to workloads.
//!
//! A handle is the position of a slot in an append-only sequence of optional
//! resources. Closing a slot leaves a tombstone rather than compacting, so a
//! handle, once assigned, is never reassigned to a different live resource
//! and handle values stay stable for the table's lifetime.

use vstd::prelude::*;

verus! {

/// Whether handle `h` names a live (open) slot of table state `s`.
pub open spec fn slot_live<R>(s: Seq<Option<R>>, h: int) -> bool {
    0 <= h < s.len() && s[h] is Some
}

/// The table state after allocating `r`, and the handle handed out.
pub open spec fn spec_allocate<R>(s: Seq<Option<R>>, r: R) -> (Seq<Option<R>>, int) {
    (s.push(Some(r)), s.len() as int)
}

/// The table state after closing handle `h`: a live slot becomes a
/// tombstone, anything else is left unchanged.
pub open spec fn spec_close<R>(s: Seq<Option<R>>, h: int) -> Seq<Option<R>> {
    if slot_live(s, h) {
        s.update(h, None)
    } else {
        s
    }
}

/// The table state after replacing the resource behind a live handle `h`
/// with `r`; a closed or unassigned handle leaves the table unchanged.
pub open spec fn spec_replace<R>(s: Seq<Option<R>>, h: int, r: R) -> Seq<Option<R>> {
    if slot_live(s, h) {
        s.update(h, Some(r))
    } else {
        s
    }
}

/// An ordered, append-only sequence of optional resource slots; a handle is
/// the slot's position.
pub struct ResourceTable<R> {
    slots: Vec<Option<R>>,
}

impl<R> ResourceTable<R> {
    /// The sequence of slots; a `None` slot is a tombstone.
    pub closed spec fn view(&self) -> Seq<Option<R>> {
        self.slots@
    }

    /// An empty table.
    pub fn new() -> (t: ResourceTable<R>)
        ensures
            t@ == Seq::<Option<R>>::empty(),
    {
        ResourceTable { slots: Vec::new() }
    }

    /// How many slots have ever been assigned, tombstones included.
    pub fn len(&self) -> (n: usize)
        ensures
            n == self@.len(),
    {
        self.slots.len()
    }

    /// Appends the resource as a new slot and returns its handle. Always
    /// succeeds; handles handed out by successive allocations are strictly
    /// increasing.
    pub fn allocate(&mut self, r: R) -> (h: usize)
        requires
            old(self)@.len() < usize::MAX,
        ensures
            (final(self)@, h as int) == spec_allocate(old(self)@, r),
            final(self)@ == old(self)@.push(Some(r)),
            h == old(self)@.len(),
    {
        let h = self.slots.len();
        self.slots.push(Some(r));
        h
    }

    /// Looks up the resource behind a handle; a tombstone or an unassigned
    /// handle yields nothing.
    pub fn get(&self, h: usize) -> (r: Option<&R>)
        ensures
            match r {
                Some(resource) => slot_live(self@, h as int) && *resource == self@[h as int]->0,
                None => !slot_live(self@, h as int),
            },
    {
        if h < self.slots.len() {
            self.slots[h].as_ref()
        } else {
            None
        }
    }

    /// Replaces the resource behind a live handle, returning the previous
    /// one; fails on a tombstone or an unassigned handle, leaving the table
    /// unchanged.
    pub fn replace(&mut self, h: usize, r: R) -> (prev: Option<R>)
        ensures
            final(self)@ == spec_replace(old(self)@, h as int, r),
            match prev {
                Some(p) => slot_live(old(self)@, h as int) && p == old(self)@[h as int]->0,
                None => !slot_live(old(self)@, h as int),
            },
    {
        if h < self.slots.len() {
            if self.slots[h].is_some() {
                let mut prev = Some(r);
                core::mem::swap(&mut self.slots[h], &mut prev);
                return prev;
            }
        }
        None
    }

    /// Swaps the slot's content out to an empty tombstone and returns what
    /// was there; the caller is responsible for releasing the extracted
    /// resource. Closing twice fails.
    pub fn close(&mut self, h: usize) -> (r: Option<R>)
        ensures
            final(self)@ == spec_close(old(self)@, h as int),
            match r {
                Some(resource) => slot_live(old(self)@, h as int) && resource == old(
                    self,
                )@[h as int]->0,
                None => !slot_live(old(self)@, h as int),
            },
    {
        if h < self.slots.len() {
            self.slots[h].take()
        } else {
            None
        }
    }
}

/// Handle stability: once a handle is a tombstone, a lookup on it fails, a
/// close or replace on it fails and leaves every slot unchanged, and a later
/// allocation hands out a fresh handle beyond it and leaves it a tombstone.
pub proof fn lemma_handle_stability<R>(s: Seq<Option<R>>, h: int, r: R)
    requires
        0 <= h < s.len(),
        s[h] is None,
    ensures
        !slot_live(s, h),
        spec_close(s, h) == s,
        spec_replace(s, h, r) == s,
        spec_allocate(s, r).1 > h,
        spec_allocate(s, r).0[h] is None,
        !slot_live(spec_allocate(s, r).0, h),
{
}

/// Handles are strictly increasing and never reused: every operation other
/// than allocation keeps the number of assigned slots, each allocation hands
/// out the current length, and two successive allocations hand out strictly
/// increasing handles.
pub proof fn lemma_handles_strictly_increase<R>(s: Seq<Option<R>>, h: int, r1: R, r2: R)
    ensures
        spec_close(s, h).len() == s.len(),
        spec_replace(s, h, r1).len() == s.len(),
        spec_allocate(s, r1).1 == s.len(),
        spec_allocate(spec_allocate(s, r1).0, r2).1 > spec_allocate(s, r1).1,
{
}

} // verus!
