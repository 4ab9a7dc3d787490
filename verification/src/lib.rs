//! A non-blocking multiple-reader / single-writer value cell.
//!
//! `Movetex<T>` keeps two independent copies of a value: a *read slot* that
//! readers always observe, and a *write slot* that writers stage their
//! mutations in. The write slot doubles as the writer-exclusion flag: while a
//! write is in flight the slot is empty, and a second writer is turned away at
//! once instead of being queued. Readers are never affected by a writer until
//! the writer publishes a finished value into the read slot.
//!
//! The writer protocol is split into its three steps — [`Movetex::claim`],
//! [`Movetex::publish`] and [`Movetex::release`] — so that the contended
//! states (a claim held, a publish not yet performed) can be driven and
//! reasoned about directly. [`Movetex::write`] composes the three;
//! [`Movetex::swap`] replaces the staged value alone and hands back the
//! previous one. The laws that the protocol obeys are stated and proved in
//! [`laws`].

use vstd::prelude::*;

pub mod laws;

verus! {

/// A dual-slot cell: one slot feeds readers, the other stages writes.
///
/// The two slots never alias: construction and every publish clone the value,
/// so mutating the staged copy can never be observed through the read slot.
pub struct Movetex<T: Clone> {
    read_slot: T,
    write_slot: Option<T>,
}

impl<T: Clone> Movetex<T> {
    /// The value that readers currently observe.
    pub closed spec fn read_value(&self) -> T {
        self.read_slot
    }

    /// The staged value that the next writer will mutate; `None` exactly
    /// while a write is in flight.
    pub closed spec fn staged(&self) -> Option<T> {
        self.write_slot
    }

    /// A writer currently holds the claim on the write slot.
    pub open spec fn write_in_flight(&self) -> bool {
        self.staged() is None
    }

    /// What a [`Self::new`] call does: readers observe a clone of `value`,
    /// and `value` itself is staged for the first writer, so the two slots
    /// start in sync and no write is in flight.
    pub open spec fn new_outcome(post: Self, value: T) -> bool {
        &&& post.staged() == Some(value)
        &&& cloned(value, post.read_value())
    }

    /// Creates a cell holding `value`.
    ///
    /// The value is cloned so that the read slot and the write slot own
    /// independent copies from the start: readers get lock-free access
    /// immediately, and the staged copy can later be mutated without readers
    /// seeing an intermediate state.
    pub fn new(value: T) -> (cell: Self)
        ensures
            Self::new_outcome(cell, value),
    {
        let copy = value.clone();
        Movetex { read_slot: copy, write_slot: Some(value) }
    }

    /// Borrows the current read-slot value.
    ///
    /// Never fails and never allocates: the read slot always holds a valid
    /// value, and an in-flight write only mutates the separate staged copy.
    pub fn read(&self) -> (current: &T)
        ensures
            *current == self.read_value(),
    {
        &self.read_slot
    }

    /// What a [`Self::claim`] call does: it empties the write slot and hands
    /// the claimant whatever was staged, without touching the read slot. A
    /// grant of `None` means another write was already in flight.
    pub open spec fn claim_outcome(pre: Self, post: Self, grant: Option<T>) -> bool {
        &&& grant == pre.staged()
        &&& post.write_in_flight()
        &&& post.read_value() == pre.read_value()
    }

    /// Takes the write slot, granting this writer exclusive access to the
    /// staged value. Exactly one claimant succeeds per non-empty period: a
    /// `None` grant means another write is in flight, and the cell is left
    /// exactly as it was.
    pub fn claim(&mut self) -> (grant: Option<T>)
        ensures
            Self::claim_outcome(*old(self), *final(self), grant),
    {
        self.write_slot.take()
    }

    /// What a [`Self::publish`] call does: it installs a clone of `value`
    /// into the read slot and leaves the write slot untouched.
    pub open spec fn publish_outcome(pre: Self, post: Self, value: T) -> bool {
        &&& cloned(value, post.read_value())
        &&& post.staged() == pre.staged()
    }

    /// Installs a clone of `value` into the read slot, making it visible to
    /// every subsequent read. Only the writer holding the claim may publish;
    /// the staged copy stays with the claimant for further use.
    pub fn publish(&mut self, value: &T)
        requires
            old(self).write_in_flight(),
        ensures
            Self::publish_outcome(*old(self), *final(self), *value),
    {
        self.read_slot = value.clone();
    }

    /// What a [`Self::release`] call does: it refills the write slot with
    /// `value` and leaves the read slot untouched.
    pub open spec fn release_outcome(pre: Self, post: Self, value: T) -> bool {
        &&& post.staged() == Some(value)
        &&& post.read_value() == pre.read_value()
    }

    /// Hands the staged value back to the write slot, ending this writer's
    /// claim and re-enabling future writers.
    ///
    /// The claim must still be held: if a [`Self::swap`] has refilled the
    /// slot in the meantime, releasing on top of it would silently discard
    /// the swapped-in value, so that interleaving is ruled out by contract.
    pub fn release(&mut self, value: T)
        requires
            old(self).write_in_flight(),
        ensures
            Self::release_outcome(*old(self), *final(self), value),
    {
        self.write_slot = Some(value);
    }

    /// What a [`Self::write`] call does. The attempt succeeds exactly when no
    /// other write was in flight; on success the mutator has been applied to
    /// the staged value, the result is staged again, and a clone of it has
    /// been published to readers. A failed attempt has no effect at all.
    pub open spec fn write_outcome<F: FnOnce(T) -> T>(
        pre: Self,
        post: Self,
        mutator: F,
        ok: bool,
    ) -> bool {
        &&& ok == !pre.write_in_flight()
        &&& !ok ==> {
            &&& post.staged() == pre.staged()
            &&& post.read_value() == pre.read_value()
        }
        &&& ok ==> {
            &&& post.staged() is Some
            &&& call_ensures(mutator, (pre.staged()->0,), post.staged()->0)
            &&& cloned(post.staged()->0, post.read_value())
        }
    }

    /// Attempts an exclusive update of the stored value.
    ///
    /// The claim step decides the contention: if another write is in flight
    /// the attempt fails immediately, with no allocation and no side effect.
    /// Otherwise the mutator runs on the staged value, a clone of the result
    /// is published to readers, and the result itself is staged again for the
    /// next writer. Returns whether the update was applied.
    pub fn write<F: FnOnce(T) -> T>(&mut self, mutator: F) -> (ok: bool)
        requires
            !old(self).write_in_flight() ==> call_requires(mutator, (old(self).staged()->0,)),
        ensures
            Self::write_outcome(*old(self), *final(self), mutator, ok),
    {
        match self.claim() {
            None => false,
            Some(staged) => {
                let updated = mutator(staged);
                self.publish(&updated);
                self.release(updated);
                true
            },
        }
    }

    /// What a [`Self::swap`] call does: `value` is staged unconditionally,
    /// the previous staged value is handed back (`None` reports that a write
    /// was in flight), and the read slot is untouched.
    pub open spec fn swap_outcome(pre: Self, post: Self, value: T, previous: Option<T>) -> bool {
        &&& previous == pre.staged()
        &&& post.staged() == Some(value)
        &&& post.read_value() == pre.read_value()
    }

    /// Replaces the staged value with `value`, without cloning, and returns
    /// the previous staged value by ownership transfer.
    ///
    /// `None` reports that a write was in flight — a defined busy result, not
    /// an error; `value` is installed as the new staged value regardless.
    /// Readers are unaffected either way: only a subsequent successful
    /// [`Self::write`] propagates a swapped-in value to them.
    pub fn swap(&mut self, value: T) -> (previous: Option<T>)
        ensures
            Self::swap_outcome(*old(self), *final(self), value, previous),
    {
        let previous = self.write_slot.take();
        self.write_slot = Some(value);
        previous
    }
}

} // verus!
