use vstd::prelude::*;

verus! {

/// The outcome of advancing a future by one step: either the final value, or
/// a request to be polled again once the task's wake handle has fired.
#[derive(Debug, PartialEq, Eq)]
pub enum Poll<T> {
    /// The computation finished and produced its value. This outcome is
    /// terminal: the future must not be polled again afterwards.
    Ready(T),
    /// The computation is suspended. It has registered (synchronously, before
    /// returning) interest in being woken through the wake handle supplied
    /// with the poll call.
    Pending,
}

impl<T> Poll<T> {
    /// True of the terminal outcome.
    pub open spec fn is_ready(self) -> bool {
        self is Ready
    }

    /// True of the suspended outcome.
    pub open spec fn is_pending(self) -> bool {
        self is Pending
    }
}

} // verus!
