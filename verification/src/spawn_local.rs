use vstd::prelude::*;

use crate::future_obj::LocalFutureObj;
use crate::future_obj::UnsafeFutureObj;
use crate::spawn::Spawn;
use crate::spawn::SpawnObjError;

verus! {

/// The confinement-only variant of the spawn capability, for executors that
/// only ever poll tasks on one execution context: it accepts the
/// thread-confined container, so the future never needs to be transferable.
pub trait SpawnLocal: Spawn {
    /// Spawns a new task with the given thread-confined future, to be polled
    /// until completion on this executor's own execution context.
    ///
    /// As with [`Spawn::spawn_obj`], failure is returned synchronously and
    /// carries the very future handed in, unmodified.
    fn spawn_obj_local<F: UnsafeFutureObj<(), Self>>(
        &mut self,
        future: LocalFutureObj<(), Self, F>,
    ) -> (r: Result<(), SpawnObjError<LocalFutureObj<(), Self, F>>>)
        ensures
            r matches Err(e) ==> e.future == future,
    ;
}

} // verus!
