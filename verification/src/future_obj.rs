use vstd::prelude::*;

use core::marker::PhantomData;

use crate::context::Context;
use crate::future::Future;
use crate::future::Relocatable;
use crate::poll::Poll;

verus! {

use vstd::std_specs::convert::FromSpec;

/// The manual dispatch-table capability: a concrete future-holder describes
/// itself as an opaque handle (`Raw`) plus a poll operation and a release
/// operation on that handle, so that a container can hold "some future"
/// without the host's built-in dynamic-object machinery or heap boxing.
///
/// The exclusivity and single-release discipline of the handle is enforced by
/// ownership: a container owns the handle it obtained from [`into_raw`], polls
/// it only through an exclusive reference, and invokes [`release`] exactly
/// once, from its destructor. The storage of the handle itself is reclaimed
/// when the handle value is dropped.
///
/// Each implementation chooses [`UnsafeFutureObj::poll_rel`], the
/// specification of what one poll step may do to the handle; the contract of
/// [`poll`] is stated through it.
///
/// [`into_raw`]: UnsafeFutureObj::into_raw
/// [`release`]: UnsafeFutureObj::release
/// [`poll`]: UnsafeFutureObj::poll
pub trait UnsafeFutureObj<T, S>: Sized {
    /// The opaque handle a container holds in place of the concrete holder.
    type Raw;

    /// The handle that [`UnsafeFutureObj::into_raw`] yields for this holder.
    /// An implementation that leaves this unrefined specifies nothing of the
    /// handle it yields.
    open spec fn raw_of(self) -> Self::Raw {
        arbitrary()
    }

    /// Describes one poll step on the handle: how the handle after the call
    /// (`post`) and the step's outcome `r` may relate to the handle before
    /// the call (`pre`). Unless an implementation refines it, nothing is
    /// specified of a step.
    open spec fn poll_rel(pre: Self::Raw, post: Self::Raw, r: Poll<T>) -> bool {
        true
    }

    /// Describes the release step: how the handle after the call (`post`)
    /// may relate to the handle before it (`pre`). Unless an implementation
    /// refines it, nothing is specified of the step.
    open spec fn release_rel(pre: Self::Raw, post: Self::Raw) -> bool {
        true
    }

    /// Consume the holder, transferring its ownership into the opaque handle;
    /// no aliasing channel to the future remains outside the returned handle.
    fn into_raw(self) -> (raw: Self::Raw)
        ensures
            raw == self.raw_of(),
    ;

    /// Poll the future represented by the handle. Safe to call repeatedly
    /// (exclusively, through the single `&mut`) until [`release`] is called.
    ///
    /// [`release`]: UnsafeFutureObj::release
    fn poll(raw: &mut Self::Raw, cx: &mut Context<'_, S>) -> (r: Poll<T>)
        ensures
            Self::poll_rel(*old(raw), *final(raw), r),
            final(cx).waker_of() == old(cx).waker_of(),
    ;

    /// Dispose of whatever the handle holds beyond its own storage. Invoked
    /// exactly once per handle, by the destructor of the container that owns
    /// it, and never concurrently with a poll on the same handle.
    fn release(raw: &mut Self::Raw)
        ensures
            Self::release_rel(*old(raw), *final(raw)),
        opens_invariants none
        no_unwind when true
    ;
}

/// Every relocatable future is its own dispatch-table instance: the opaque
/// handle owns the future's storage outright, so polling it through an
/// ordinary exclusive reference is permitted, and release has nothing to do
/// beyond letting the handle's storage be reclaimed.
impl<T, S, F: Future<S, Output = T> + Relocatable> UnsafeFutureObj<T, S> for F {
    type Raw = F;

    open spec fn raw_of(self) -> F {
        self
    }

    open spec fn poll_rel(pre: F, post: F, r: Poll<T>) -> bool {
        F::poll_rel(pre, post, r)
    }

    open spec fn release_rel(pre: F, post: F) -> bool {
        post == pre
    }

    fn into_raw(self) -> (raw: F) {
        self
    }

    fn poll(raw: &mut F, cx: &mut Context<'_, S>) -> (r: Poll<T>) {
        Future::poll(raw, cx)
    }

    fn release(_raw: &mut F) {
    }
}

/// A type-erased container for polling futures: the thread-confined variant,
/// roughly akin to an owned trait object over futures of output `T`.
///
/// It holds exactly one opaque handle captured from a dispatch-table instance
/// `F` at construction time; polling forwards to the instance's poll
/// operation, and the instance's release operation runs exactly once, when
/// the container is destroyed — even when it is destroyed without ever having
/// been polled to completion.
pub struct LocalFutureObj<T, S, F: UnsafeFutureObj<T, S>> {
    raw: F::Raw,
    _marker: PhantomData<(T, S)>,
}

impl<T, S, F: UnsafeFutureObj<T, S>> View for LocalFutureObj<T, S, F> {
    type V = F::Raw;

    /// The opaque handle the container holds.
    closed spec fn view(&self) -> F::Raw {
        self.raw
    }
}

impl<T, S, F: UnsafeFutureObj<T, S>> LocalFutureObj<T, S, F> {
    /// Create a `LocalFutureObj` from a dispatch-table instance.
    pub fn new(f: F) -> (obj: LocalFutureObj<T, S, F>)
        ensures
            obj@ == f.raw_of(),
    {
        LocalFutureObj { raw: f.into_raw(), _marker: PhantomData }
    }

    /// Converts the `LocalFutureObj` into a [`FutureObj`]. The conversion is
    /// offered only where the dispatch-table instance is transferable across
    /// execution contexts, which the confined form alone cannot guarantee.
    pub fn into_future_obj(self) -> (obj: FutureObj<T, S, F>) where F: Send
        ensures
            obj@ == self@,
    {
        FutureObj { inner: self }
    }
}

/// The confined container owns no self-references of its own — it merely
/// holds an opaque handle — so it is itself relocatable.
impl<T, S, F: UnsafeFutureObj<T, S>> Relocatable for LocalFutureObj<T, S, F> {
}

impl<T, S, F: UnsafeFutureObj<T, S>> Future<S> for LocalFutureObj<T, S, F> {
    type Output = T;

    /// A poll of the container is exactly a poll of the handle it holds.
    open spec fn poll_rel(pre: Self, post: Self, r: Poll<T>) -> bool {
        F::poll_rel(pre@, post@, r)
    }

    fn poll(&mut self, cx: &mut Context<'_, S>) -> (r: Poll<T>) {
        F::poll(&mut self.raw, cx)
    }
}

impl<T, S, F: UnsafeFutureObj<T, S>> Drop for LocalFutureObj<T, S, F> {
    /// Release runs here and only here: once per container, even when the
    /// container is dropped before its future reached `Ready`.
    fn drop(&mut self)
        ensures
            F::release_rel(old(self)@, final(self)@),
        opens_invariants none
        no_unwind
    {
        F::release(&mut self.raw);
    }
}

/// A type-erased container for polling futures: the variant transferable
/// across execution contexts, roughly akin to an owned trait object over
/// futures of output `T` that is additionally `Send`.
///
/// Identical in mechanics to [`LocalFutureObj`] — it merely wraps one — but
/// constructed only over dispatch-table instances that are safe to hand
/// across execution-context boundaries.
pub struct FutureObj<T, S, F: UnsafeFutureObj<T, S>> {
    inner: LocalFutureObj<T, S, F>,
}

impl<T, S, F: UnsafeFutureObj<T, S>> View for FutureObj<T, S, F> {
    type V = F::Raw;

    /// The opaque handle the container holds.
    closed spec fn view(&self) -> F::Raw {
        self.inner@
    }
}

impl<T, S, F: UnsafeFutureObj<T, S>> FutureObj<T, S, F> {
    /// Create a `FutureObj` from a transferable dispatch-table instance.
    pub fn new(f: F) -> (obj: FutureObj<T, S, F>) where F: Send
        ensures
            obj@ == f.raw_of(),
    {
        FutureObj { inner: LocalFutureObj::new(f) }
    }
}

/// The transferable container is itself relocatable, for the same reason the
/// confined one is.
impl<T, S, F: UnsafeFutureObj<T, S>> Relocatable for FutureObj<T, S, F> {
}

impl<T, S, F: UnsafeFutureObj<T, S>> Future<S> for FutureObj<T, S, F> {
    type Output = T;

    /// A poll of the container is exactly a poll of the handle it holds.
    open spec fn poll_rel(pre: Self, post: Self, r: Poll<T>) -> bool {
        F::poll_rel(pre@, post@, r)
    }

    fn poll(&mut self, cx: &mut Context<'_, S>) -> (r: Poll<T>) {
        Future::poll(&mut self.inner, cx)
    }
}

/// Converting a transferable container into a confined one is always safe and
/// exposed as a plain conversion.
impl<T, S, F: UnsafeFutureObj<T, S>> From<FutureObj<T, S, F>> for LocalFutureObj<T, S, F> {
    fn from(f: FutureObj<T, S, F>) -> (obj: LocalFutureObj<T, S, F>) {
        f.inner
    }
}

impl<T, S, F: UnsafeFutureObj<T, S>> vstd::std_specs::convert::FromSpecImpl<FutureObj<T, S, F>> for LocalFutureObj<T, S, F> {
    open spec fn obeys_from_spec() -> bool {
        true
    }

    closed spec fn from_spec(f: FutureObj<T, S, F>) -> Self {
        f.inner
    }
}

/// The plain conversion from the transferable container to the confined one
/// preserves the opaque handle.
pub proof fn lemma_from_preserves_handle<T, S, F: UnsafeFutureObj<T, S>>(f: FutureObj<T, S, F>)
    ensures
        LocalFutureObj::<T, S, F>::from_spec(f)@ == f@,
{
}

/// Round-trip transparency: polling the confined container obtained from a
/// transferable container is governed by exactly the relation that governs
/// polling the transferable container directly — on the same handles and
/// with the same outcomes.
pub proof fn lemma_conversion_round_trip<T, S, F: UnsafeFutureObj<T, S>>(
    pre: FutureObj<T, S, F>,
    post: FutureObj<T, S, F>,
    r: Poll<T>,
)
    ensures
        <FutureObj<T, S, F> as Future<S>>::poll_rel(pre, post, r)
            <==> <LocalFutureObj<T, S, F> as Future<S>>::poll_rel(
            LocalFutureObj::<T, S, F>::from_spec(pre),
            LocalFutureObj::<T, S, F>::from_spec(post),
            r,
        ),
{
}

} // verus!
