//! The latest-wins snapshot slot shared by the processing thread and the
//! polling consumer: publishing overwrites, taking clears.
use vstd::prelude::*;

verus! {

/// The slot after `v` is published into `s`: whatever was unconsumed is
/// discarded.
pub open spec fn publish_spec<T>(s: Option<T>, v: T) -> Option<T> {
    Some(v)
}

/// What a take on slot `s` returns, and the slot it leaves (always empty).
pub open spec fn take_spec<T>(s: Option<T>) -> (Option<T>, Option<T>) {
    (s, None)
}

/// A single-entry slot with take-on-read semantics.
pub struct SnapshotSlot<T> {
    slot: Option<T>,
}

impl<T> View for SnapshotSlot<T> {
    type V = Option<T>;

    closed spec fn view(&self) -> Option<T> {
        self.slot
    }
}

impl<T> SnapshotSlot<T> {
    /// An empty slot.
    pub fn new() -> (r: Self)
        ensures
            r@ == None::<T>,
    {
        SnapshotSlot { slot: None }
    }

    /// Stores `v`, replacing any snapshot that was not taken.
    pub fn publish(&mut self, v: T)
        ensures
            final(self)@ == publish_spec(old(self)@, v),
    {
        self.slot = Some(v);
    }

    /// Returns the stored snapshot, if any, and empties the slot.
    pub fn take(&mut self) -> (r: Option<T>)
        ensures
            (r, final(self)@) == take_spec(old(self)@),
    {
        self.slot.take()
    }

    /// Whether a snapshot is waiting.
    pub fn is_ready(&self) -> (b: bool)
        ensures
            b == self@.is_some(),
    {
        self.slot.is_some()
    }
}

/// Take semantics: after a block is published, a first take returns it and
/// a second take, with no publication in between, returns nothing.
pub proof fn lemma_take_at_most_once<T>(s: Option<T>, v: T)
    ensures
        take_spec(publish_spec(s, v)).0 == Some(v),
        take_spec(take_spec(publish_spec(s, v)).1).0 == None::<T>,
{
}

} // verus!
