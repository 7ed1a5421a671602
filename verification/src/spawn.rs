use vstd::prelude::*;

use crate::future_obj::FutureObj;
use crate::future_obj::UnsafeFutureObj;

verus! {

/// Spawns tasks that poll futures to completion onto its associated task
/// executor.
///
/// An executor implements this capability to accept new futures as
/// independent tasks; the futures arrive type-erased, with output `()`
/// (fire-and-forget work), and pollable through contexts that carry this very
/// spawner type.
pub trait Spawn: Sized {
    /// Spawns a new task with the given future, to be polled until
    /// completion.
    ///
    /// The executor may be unable to spawn, for instance because it has been
    /// shut down. Failure is always returned synchronously, and the very
    /// future handed in comes back unmodified inside the error, so the caller
    /// can retry, redirect, or dispose of it explicitly: spawning never
    /// silently discards caller-owned work.
    fn spawn_obj<F: UnsafeFutureObj<(), Self> + Send>(
        &mut self,
        future: FutureObj<(), Self, F>,
    ) -> (r: Result<(), SpawnObjError<FutureObj<(), Self, F>>>)
        ensures
            r matches Err(e) ==> e.future == future,
    ;

    /// Determines whether the executor is able to spawn new tasks: a
    /// best-effort, non-binding probe. An `Ok` return means a subsequent
    /// spawn is likely (but not guaranteed) to be accepted; an `Err` return
    /// means it is likely, but not guaranteed, to fail. The default always
    /// reports healthy.
    fn status(&self) -> (r: Result<(), SpawnErrorKind>)
        default_ensures
            r is Ok,
    {
        Ok(())
    }
}

/// Provides the reason that an executor was unable to spawn.
///
/// The classification currently defines a single kind, "executor shut down",
/// but is kept opaque so further kinds can be added without breaking callers
/// that match generically.
#[derive(Debug)]
pub struct SpawnErrorKind {
    _hidden: (),
}

impl SpawnErrorKind {
    /// Whether this kind classifies the failure as "executor shut down". With
    /// shutdown the only kind so far, every value is classified so.
    pub closed spec fn spec_is_shutdown(&self) -> bool {
        true
    }

    /// Spawning is failing because the executor has been shut down.
    pub fn shutdown() -> (k: SpawnErrorKind)
        ensures
            k.spec_is_shutdown(),
    {
        SpawnErrorKind { _hidden: () }
    }

    /// Check whether this error is the `shutdown` error.
    pub fn is_shutdown(&self) -> (b: bool)
        ensures
            b == self.spec_is_shutdown(),
    {
        true
    }
}

/// The result of a failed spawn.
#[derive(Debug)]
pub struct SpawnObjError<F> {
    /// The kind of error.
    pub kind: SpawnErrorKind,

    /// The future for which spawning inside a task was attempted; ownership
    /// returns to the caller with it.
    pub future: F,
}

} // verus!
