//! Minimal mechanics for cooperative, poll-driven asynchronous computation:
//! the suspend/resume contract for a future, the per-poll context bundling a
//! wake handle with spawning capability, the task-spawning capability with its
//! error model, and type-erased future containers in a thread-confined and a
//! cross-context-transferable form.

pub mod context;
pub mod future;
pub mod future_obj;
pub mod poll;
pub mod spawn;
pub mod spawn_local;
pub mod wake;

pub use context::Context;
pub use future::Future;
pub use future::Relocatable;
pub use future_obj::FutureObj;
pub use future_obj::LocalFutureObj;
pub use future_obj::UnsafeFutureObj;
pub use poll::Poll;
pub use spawn::Spawn;
pub use spawn::SpawnErrorKind;
pub use spawn::SpawnObjError;
pub use spawn_local::SpawnLocal;
pub use wake::LocalWaker;
pub use wake::Waker;
