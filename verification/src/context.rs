use vstd::prelude::*;

use crate::wake::LocalWaker;
use crate::wake::Waker;

verus! {

/// Information about the currently-running task, handed to a future for the
/// duration of exactly one poll call.
///
/// A context bundles the wake handle of the current task with the spawner the
/// task may hand new work to. The driver constructs a fresh context for each
/// poll invocation: the wake handle is borrowed for the call, while the
/// spawner is carried by value and can be recovered through
/// [`Context::into_parts`] when the call is over.
pub struct Context<'a, S> {
    local_waker: &'a LocalWaker,
    spawner: S,
}

impl<'a, S> Context<'a, S> {
    /// The wake handle this context carries.
    pub closed spec fn waker_of(self) -> LocalWaker {
        *self.local_waker
    }

    /// The spawner this context carries.
    pub closed spec fn spawner_of(self) -> S {
        self.spawner
    }

    /// The context obtained by substituting `local_waker` for the wake handle
    /// while keeping the spawner.
    pub closed spec fn with_waker_spec<'b>(self, local_waker: &'b LocalWaker) -> Context<'b, S> {
        Context { local_waker, spawner: self.spawner }
    }

    /// The pair obtained by substituting `spawner` for the spawner while
    /// keeping the wake handle: the narrowed context, and the spawner that was
    /// displaced.
    pub closed spec fn with_spawner_spec<S2>(self, spawner: S2) -> (Context<'a, S2>, S) {
        (Context { local_waker: self.local_waker, spawner }, self.spawner)
    }

    /// A context for one poll call of the task whose wake handle is
    /// `local_waker`, spawning through `spawner`.
    pub fn new(local_waker: &'a LocalWaker, spawner: S) -> (c: Context<'a, S>)
        ensures
            c.waker_of() == *local_waker,
            c.spawner_of() == spawner,
    {
        Context { local_waker, spawner }
    }

    /// The wake handle of the current task, in its thread-confined form.
    pub fn local_waker(&self) -> (w: &'a LocalWaker)
        ensures
            *w == self.waker_of(),
    {
        self.local_waker
    }

    /// The wake handle of the current task, in its transferable form; it
    /// denotes the same notification target as [`Context::local_waker`].
    pub fn waker(&self) -> (w: &'a Waker)
        ensures
            w@ == self.waker_of()@,
    {
        self.local_waker.waker()
    }

    /// The spawner associated with the current task, for handing new work to the
    /// executor (and for handling spawn failures explicitly).
    pub fn spawner(&mut self) -> (s: &mut S)
        ensures
            *s == old(self).spawner_of(),
            final(self).spawner_of() == *final(s),
            final(self).waker_of() == old(self).waker_of(),
    {
        &mut self.spawner
    }

    /// A context like this one, but carrying `local_waker` instead: used by
    /// futures that multiplex sub-tasks internally and want sub-pollees to
    /// wake through a different handle while spawning through the same
    /// spawner.
    pub fn with_waker<'b>(self, local_waker: &'b LocalWaker) -> (c: Context<'b, S>)
        ensures
            c == self.with_waker_spec(local_waker),
            c.waker_of() == *local_waker,
            c.spawner_of() == self.spawner_of(),
    {
        Context { local_waker, spawner: self.spawner }
    }

    /// A context like this one, but spawning through `spawner` instead: used
    /// by futures that impose spawn-time policy on their children. The spawner
    /// this context carried is handed back untouched alongside the narrowed
    /// context.
    pub fn with_spawner<S2>(self, spawner: S2) -> (r: (Context<'a, S2>, S))
        ensures
            r == self.with_spawner_spec(spawner),
            r.0.waker_of() == self.waker_of(),
            r.0.spawner_of() == spawner,
            r.1 == self.spawner_of(),
    {
        (Context { local_waker: self.local_waker, spawner }, self.spawner)
    }

    /// Takes the context apart, recovering the wake handle and the spawner;
    /// the driver calls this when the poll call the context was built for is
    /// over.
    pub fn into_parts(self) -> (r: (&'a LocalWaker, S))
        ensures
            *r.0 == self.waker_of(),
            r.1 == self.spawner_of(),
    {
        (self.local_waker, self.spawner)
    }
}

/// Substituting a wake handle produces a narrowed context that carries the
/// parent's spawner unchanged, and substituting the parent's own handle back
/// reconstructs the parent exactly: nothing of the substituted handle leaks
/// into the parent context.
pub proof fn lemma_with_waker_no_leak<'a, 'b, S>(
    c: Context<'a, S>,
    local_waker: &'b LocalWaker,
    parent_waker: &'a LocalWaker,
)
    requires
        *parent_waker == c.waker_of(),
    ensures
        c.with_waker_spec(local_waker).spawner_of() == c.spawner_of(),
        c.with_waker_spec(local_waker).with_waker_spec(parent_waker) == c,
{
}

/// Substituting a spawner produces a narrowed context that carries the
/// parent's wake handle unchanged and hands the parent's spawner back
/// untouched, and substituting that spawner back reconstructs the parent
/// exactly: nothing of the substituted spawner leaks into the parent context.
pub proof fn lemma_with_spawner_no_leak<'a, S, S2>(c: Context<'a, S>, spawner: S2)
    ensures
        c.with_spawner_spec(spawner).0.waker_of() == c.waker_of(),
        c.with_spawner_spec(spawner).1 == c.spawner_of(),
        c.with_spawner_spec(spawner).0.with_spawner_spec(c.with_spawner_spec(spawner).1).0 == c,
        c.with_spawner_spec(spawner).0.with_spawner_spec(c.with_spawner_spec(spawner).1).1
            == spawner,
{
}

} // verus!
