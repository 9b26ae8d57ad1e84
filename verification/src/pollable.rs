//! Driving a computation that may suspend, one poll at a time, without an event loop.

use std::future::Future;
use std::pin::Pin;
use vstd::prelude::*;

verus! {

/// What one poll of a [`Pollable`] found.
pub enum PollableResult<O> {
    /// The computation completed on this poll, with this value.
    Ready(O),
    /// The computation suspended again; poll it later.
    Pending,
    /// The computation had completed before this poll; it was not touched.
    Stale,
}

/// A suspended computation that has not reported completion yet.
///
/// The future behind it is opaque to the verifier. A value of this type is consumed by the poll
/// that completes it, so a completed computation cannot be polled again.
#[verifier::external_body]
#[verifier::reject_recursive_types(O)]
struct Suspended<O> {
    inner: Pin<Box<dyn Future<Output = O>>>,
}

/// Takes ownership of a future and pins it on the heap (`Box::pin`). Nothing is run.
#[verifier::external_body]
fn suspend<O, F: Future<Output = O> + 'static>(fut: F) -> (computation: Suspended<O>)
{
    Suspended { inner: Box::pin(fut) }
}

/// Polls the future once (`Future::poll`) with the waker of `futures::task::noop_waker`, whose
/// wake-up does nothing. `Ok` carries the value of a future that completed on this poll; `Err`
/// hands back the future that is still pending. Which of the two comes back is up to the future.
#[verifier::external_body]
fn resume<O>(computation: Suspended<O>) -> (outcome: Result<O, Suspended<O>>)
{
    let mut computation = computation;
    let waker = futures::task::noop_waker();
    let mut context = std::task::Context::from_waker(&waker);
    match computation.inner.as_mut().poll(&mut context) {
        std::task::Poll::Ready(value) => Ok(value),
        std::task::Poll::Pending => Err(computation),
    }
}

/// An owned computation that is advanced by hand, one poll per call, and that is observed
/// completing at most once.
#[verifier::reject_recursive_types(O)]
pub struct Pollable<O> {
    /// The computation while it has not completed; `None` from the poll that completed it on.
    inner: Option<Suspended<O>>,
}

impl<O> Pollable<O> {
    /// Whether the computation has already reported completion.
    pub closed spec fn is_stale(&self) -> bool {
        self.inner is None
    }

    /// Wraps a computation. Nothing of it runs before the first poll.
    pub fn new<F: Future<Output = O> + 'static>(fut: F) -> (pollable: Self)
        ensures
            !pollable.is_stale(),
    {
        Pollable { inner: Some(suspend(fut)) }
    }

    /// Advances the computation by one poll, unless it has completed before.
    ///
    /// A stale adapter answers `Stale` and stays stale. A fresh one answers `Ready` and becomes
    /// stale, or answers `Pending` and stays fresh: a value is handed out at most once.
    pub fn poll(&mut self) -> (result: PollableResult<O>)
        ensures
            old(self).is_stale() ==> result is Stale && final(self).is_stale(),
            !old(self).is_stale() ==> (result is Ready || result is Pending),
            !old(self).is_stale() ==> (final(self).is_stale() <==> result is Ready),
    {
        match self.inner.take() {
            None => PollableResult::Stale,
            Some(computation) => {
                let (result, kept) = Self::answer(resume(computation));
                self.inner = kept;
                result
            },
        }
    }

    /// What a poll answers for what resuming the computation gave, and the computation that
    /// is kept for the next poll: a value is handed out as `Ready` and nothing is kept; a
    /// computation that is still pending is kept and the answer is `Pending`.
    fn answer(outcome: Result<O, Suspended<O>>) -> (answered: (
        PollableResult<O>,
        Option<Suspended<O>>,
    ))
        ensures
            outcome matches Ok(value) ==> answered.0 == PollableResult::Ready(value),
            outcome is Ok ==> answered.1 is None,
            outcome is Err ==> answered.0 is Pending,
            outcome matches Err(computation) ==> answered.1 == Some(computation),
    {
        match outcome {
            Ok(value) => (PollableResult::Ready(value), None),
            Err(computation) => (PollableResult::Pending, Some(computation)),
        }
    }
}

} // verus!
