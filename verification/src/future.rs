use vstd::prelude::*;

use crate::context::Context;
use crate::poll::Poll;

verus! {

/// The suspend/resume unit: a computation advanced by repeated [`Future::poll`]
/// calls until it produces a value of its associated `Output` type.
///
/// `S` is the type of the spawner reachable through the poll context, so that
/// a future can hand sibling tasks to the executor driving it.
///
/// Each implementation chooses [`Future::poll_rel`], the specification of what
/// one of its poll steps may do to its state; `poll`'s contract is stated
/// through it. Beyond that relation, a poll call may touch only the spawner
/// reached through the context: the contract pins the wake handle of the
/// supplied context as unchanged.
pub trait Future<S>: Sized {
    /// The value produced on completion.
    type Output;

    /// Describes one poll step: how the state after the call (`post`) and the
    /// step's outcome `r` may relate to the state before the call (`pre`).
    /// Unless an implementation refines it, nothing is specified of a step.
    open spec fn poll_rel(pre: Self, post: Self, r: Poll<Self::Output>) -> bool {
        true
    }

    /// Attempt to advance the computation one step. `Ready(v)` is terminal:
    /// the caller must not poll again. On `Pending` the computation has
    /// registered interest in being woken through the context's wake handle,
    /// and the caller should not poll again until woken; a spurious extra
    /// poll is tolerated and simply yields `Pending` again.
    fn poll(&mut self, cx: &mut Context<'_, S>) -> (r: Poll<Self::Output>)
        ensures
            Self::poll_rel(*old(self), *final(self), r),
            final(cx).waker_of() == old(cx).waker_of(),
    ;
}

/// Marker capability a future declares when it keeps no references into its
/// own storage, so that its value may be moved freely between poll calls.
/// Such a future is exempt from the location-locking discipline: an ordinary
/// exclusive reference to it is enough to poll it.
pub trait Relocatable {
}

} // verus!
