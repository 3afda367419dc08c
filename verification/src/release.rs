//! The release protocol of a descriptor.
//!
//! A descriptor is live until its release callback has run; the callback runs
//! at most once, and only the one owner of the descriptor may run it. A
//! descriptor without a callback is a borrow: nothing is ever released
//! through it.

use vstd::prelude::*;

verus! {

/// Where a descriptor stands in its life.
#[derive(Clone, Copy, Debug, PartialEq, Eq, Structural)]
pub enum ReleaseState {
    Live,
    Released,
}

/// The release slot of a descriptor: whether a callback is attached, and how
/// often it has run.
#[derive(Debug)]
pub struct ReleaseSlot {
    callback: bool,
    calls: u64,
}

impl ReleaseSlot {
    /// Whether a release callback is attached.
    pub closed spec fn has_callback(self) -> bool {
        self.callback
    }

    /// How often the release callback has run.
    pub closed spec fn calls(self) -> nat {
        self.calls as nat
    }

    /// Live until the callback has run.
    pub open spec fn state(self) -> ReleaseState {
        if self.calls() == 0 {
            ReleaseState::Live
        } else {
            ReleaseState::Released
        }
    }

    /// What every slot satisfies: the callback has run at most once, and once
    /// it has run it is detached.
    pub open spec fn wf(self) -> bool {
        &&& self.calls() <= 1
        &&& self.has_callback() ==> self.calls() == 0
    }

    #[verifier::type_invariant]
    closed spec fn inv(self) -> bool {
        self.wf()
    }

    /// The slot after its callback has run.
    pub open spec fn released(self, after: ReleaseSlot) -> bool {
        &&& !after.has_callback()
        &&& after.calls() == self.calls() + 1
    }

    /// The slot when its holder is done with the descriptor: a slot with a
    /// callback has been released, once; a slot without one is as it was.
    pub open spec fn settled(self, after: ReleaseSlot) -> bool {
        if self.has_callback() {
            self.released(after) && after.calls() == 1
        } else {
            after == self
        }
    }

    /// The slot of a descriptor that owns what it describes: a callback is
    /// attached and has not run.
    pub fn owned() -> (slot: ReleaseSlot)
        ensures
            slot.wf(),
            slot.has_callback(),
            slot.calls() == 0,
    {
        ReleaseSlot { callback: true, calls: 0 }
    }

    /// The slot of a descriptor that borrows what it describes: no callback.
    pub fn borrowed() -> (slot: ReleaseSlot)
        ensures
            slot.wf(),
            !slot.has_callback(),
            slot.calls() == 0,
    {
        ReleaseSlot { callback: false, calls: 0 }
    }

    /// Whether a release callback is attached, that is, whether the holder
    /// owes a release.
    pub fn is_owned(&self) -> (owned: bool)
        ensures
            owned == self.has_callback(),
            self.wf(),
    {
        proof {
            use_type_invariant(self);
        }
        self.callback
    }

    /// How often the release callback has run: never more than once.
    pub fn release_count(&self) -> (calls: u64)
        ensures
            calls == self.calls(),
            calls <= 1,
            self.wf(),
    {
        proof {
            use_type_invariant(self);
        }
        self.calls
    }

    /// Whether the callback has run.
    pub fn is_released(&self) -> (released: bool)
        ensures
            released == (self.state() == ReleaseState::Released),
            self.wf(),
    {
        proof {
            use_type_invariant(self);
        }
        self.calls != 0
    }

    /// Runs the release callback: it is counted and detached.
    ///
    /// Only a slot with a callback can be released, so a second release of the
    /// same slot is not a call that can be made.
    pub fn invoke(&mut self)
        requires
            old(self).has_callback(),
        ensures
            old(self).released(*final(self)),
            final(self).calls() == 1,
            final(self).state() == ReleaseState::Released,
            final(self).wf(),
    {
        proof {
            use_type_invariant(&*self);
        }
        self.callback = false;
        self.calls = 1;
    }

    /// Ends the holding of the slot: the callback runs if there is one, and
    /// nothing happens if there is none.
    pub fn settle(&mut self)
        ensures
            old(self).settled(*final(self)),
            !final(self).has_callback(),
            final(self).wf(),
    {
        proof {
            use_type_invariant(&*self);
        }
        if self.callback {
            self.invoke();
        }
    }

    /// Takes the slot out for a new holder and leaves a slot without callback
    /// behind: the duty to release moves, and no callback runs.
    pub fn take(&mut self) -> (moved: ReleaseSlot)
        ensures
            moved == *old(self),
            moved.wf(),
            !final(self).has_callback(),
            final(self).calls() == 0,
            final(self).wf(),
    {
        proof {
            use_type_invariant(&*self);
        }
        let moved = ReleaseSlot { callback: self.callback, calls: self.calls };
        self.callback = false;
        self.calls = 0;
        moved
    }
}

/// No slot is released twice: the callback of a slot has run at most once, a
/// slot is released exactly when its callback has run once, and a released
/// slot has no callback left to run.
pub proof fn lemma_released_at_most_once(slot: ReleaseSlot)
    requires
        slot.wf(),
    ensures
        slot.calls() <= 1,
        slot.state() == ReleaseState::Released <==> slot.calls() == 1,
        slot.state() == ReleaseState::Released ==> !slot.has_callback(),
{
}

/// Whoever is done with a live slot leaves it released once if it had a
/// callback, and never released if it had none; either way no callback is
/// left to run.
pub proof fn lemma_settled_once_or_never(before: ReleaseSlot, after: ReleaseSlot)
    requires
        before.wf(),
        before.state() == ReleaseState::Live,
        before.settled(after),
    ensures
        after.wf(),
        !after.has_callback(),
        before.has_callback() ==> after.calls() == 1 && after.state() == ReleaseState::Released,
        !before.has_callback() ==> after.calls() == 0 && after.state() == ReleaseState::Live,
{
}

/// A release is the one step from live to released, and it ends the slot's
/// life: the slot that comes out of it can not be released again.
pub proof fn lemma_release_is_terminal(before: ReleaseSlot, after: ReleaseSlot)
    requires
        before.wf(),
        before.has_callback(),
        before.released(after),
    ensures
        before.state() == ReleaseState::Live,
        after.state() == ReleaseState::Released,
        after.calls() == 1,
        !after.has_callback(),
        after.wf(),
{
}

} // verus!
