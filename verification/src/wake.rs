use vstd::prelude::*;

verus! {

/// A wake handle in its cross-context-transferable form.
///
/// The handle is an opaque notification target owned by the executor that
/// drives the task; invoking it (which happens outside this library) asks the
/// executor to poll the task again. The library models a handle by the token
/// of the target it notifies: two handles with the same token denote the same
/// notification target. A handle may be cloned and retained by a pending
/// future; it is the only part of a poll context designed for retention.
#[derive(Clone, Copy, PartialEq, Eq, Structural, Debug)]
pub struct Waker {
    token: u64,
}

impl View for Waker {
    type V = u64;

    closed spec fn view(&self) -> u64 {
        self.token
    }
}

impl Waker {
    /// A handle for the notification target identified by `token`.
    pub fn new(token: u64) -> (w: Waker)
        ensures
            w@ == token,
    {
        Waker { token }
    }

    /// The token of the notification target this handle wakes.
    pub fn token(&self) -> (t: u64)
        ensures
            t == self@,
    {
        self.token
    }
}

/// A wake handle in its thread-confined form: usable only from the execution
/// context the task is confined to.
///
/// It denotes the same notification target as the transferable [`Waker`] it
/// carries, and that transferable form can be obtained from it.
#[derive(Clone, Copy, PartialEq, Eq, Structural, Debug)]
pub struct LocalWaker {
    waker: Waker,
}

impl View for LocalWaker {
    type V = u64;

    closed spec fn view(&self) -> u64 {
        self.waker@
    }
}

impl LocalWaker {
    /// A confined handle for the notification target identified by `token`.
    pub fn new(token: u64) -> (w: LocalWaker)
        ensures
            w@ == token,
    {
        LocalWaker { waker: Waker::new(token) }
    }

    /// The transferable handle for the same notification target.
    pub fn waker(&self) -> (w: &Waker)
        ensures
            w@ == self@,
    {
        &self.waker
    }

    /// The token of the notification target this handle wakes.
    pub fn token(&self) -> (t: u64)
        ensures
            t == self@,
    {
        self.waker.token()
    }
}

} // verus!
