//! The annotating monitor: every call gets a latch of its own, and a call that fails while
//! its latch is down leaves with a mark on its error.

use crate::body::Polled;
use crate::history::{forwarded, has_frame, lemma_raised_iff_frame_forwarded, value_after_all};
use crate::service::lend;
use crate::signal::FrameSignal;
use vstd::prelude::*;

verus! {

/// The error of a failed call on its way out.
#[derive(Debug, PartialEq, Eq)]
pub struct Annotated<E> {
    /// The error as the dispatcher gave it.
    pub error: E,
    /// The key under which the error carries the mark "no frame was observed"; `None`
    /// where a frame was observed, and the error leaves as it came.
    pub marker: Option<&'static str>,
}

/// The outcome of a call as it leaves the monitor: a response passes, an error is marked
/// with `marker` exactly when no frame was seen.
pub open spec fn concluded<R, E>(outcome: Result<R, E>, frame_seen: bool, marker: &'static str)
    -> Result<R, Annotated<E>> {
    match outcome {
        Ok(response) => Ok(response),
        Err(error) => Err(
            Annotated { error, marker: if frame_seen { None } else { Some(marker) } },
        ),
    }
}

/// The outcome is an error that carries a mark.
pub open spec fn is_marked<R, E>(out: Result<R, Annotated<E>>) -> bool {
    out matches Err(left) && left.marker is Some
}

/// A response is never touched. An error leaves with the error it came with, marked
/// exactly when no frame was seen, and then with `marker`.
pub proof fn lemma_marked_iff_failed_unseen<R, E>(
    outcome: Result<R, E>,
    frame_seen: bool,
    marker: &'static str,
)
    ensures
        outcome is Ok ==> concluded(outcome, frame_seen, marker) is Ok,
        outcome matches Ok(response) ==> concluded(outcome, frame_seen, marker)->Ok_0
            == response,
        outcome is Err ==> concluded(outcome, frame_seen, marker) is Err,
        outcome matches Err(error) ==> concluded(outcome, frame_seen, marker)->Err_0.error
            == error,
        is_marked(concluded(outcome, frame_seen, marker)) <==> outcome is Err && !frame_seen,
        is_marked(concluded(outcome, frame_seen, marker)) ==> concluded(
            outcome,
            frame_seen,
            marker,
        )->Err_0.marker == Some(marker),
{
}

/// A call whose latch was down when its body started leaves marked exactly when it failed
/// and its body forwarded no frame, as long as nobody else wrote to that latch.
pub proof fn lemma_mark_tells_no_frame<R, E, F, X>(
    latch: FrameSignal,
    trace: Seq<Polled<F, X>>,
    outcome: Result<R, E>,
    marker: &'static str,
)
    ensures
        is_marked(
            concluded(outcome, value_after_all(latch, false, forwarded(latch, trace)), marker),
        ) <==> outcome is Err && !has_frame(trace),
{
    lemma_raised_iff_frame_forwarded(latch, false, trace);
}

/// Passes a response, and marks an error with `marker` exactly when no frame was seen.
pub fn conclude<R, E>(outcome: Result<R, E>, frame_seen: bool, marker: &'static str) -> (out:
    Result<R, Annotated<E>>)
    ensures
        out == concluded(outcome, frame_seen, marker),
{
    match outcome {
        Ok(response) => Ok(response),
        Err(error) => {
            if frame_seen {
                Err(Annotated { error, marker: None })
            } else {
                Err(Annotated { error, marker: Some(marker) })
            }
        },
    }
}

/// Ends one call whose body held `signal`: a response passes without a look at the latch;
/// an error is marked with `marker` when the latch is found down.
pub fn finish<R, E>(signal: &FrameSignal, marker: &'static str, outcome: Result<R, E>) -> (out:
    Result<R, Annotated<E>>)
    ensures
        out == concluded(outcome, true, marker) || out == concluded(outcome, false, marker),
{
    match outcome {
        Ok(response) => Ok(response),
        Err(error) => conclude(Err(error), signal.is_signalled(), marker),
    }
}

/// Service that marks the error of every call that failed before a frame was produced.
#[derive(Debug)]
pub struct AnnotatingFrameMonitor<S> where S: Clone {
    /// Wrapped dispatcher.
    inner: S,
    /// Key of the mark.
    marker: &'static str,
}

impl<S: Clone> AnnotatingFrameMonitor<S> {
    /// The dispatcher handle that the next call will be issued on.
    pub closed spec fn resident(&self) -> S {
        self.inner
    }

    /// The key under which errors are marked.
    pub closed spec fn key(&self) -> &'static str {
        self.marker
    }

    /// Wraps `inner`; errors are marked under `marker`.
    pub fn new(inner: S, marker: &'static str) -> (monitor: Self)
        ensures
            monitor.resident() == inner,
            monitor.key() == marker,
    {
        AnnotatingFrameMonitor { inner, marker }
    }

    /// The key under which errors are marked.
    pub fn marker(&self) -> (key: &'static str)
        ensures
            key == self.key(),
    {
        self.marker
    }

    /// The resident handle, to put the dispatcher's readiness question to.
    pub fn inner_mut(&mut self) -> (slot: &mut S)
        ensures
            *slot == old(self).resident(),
            final(self).resident() == *final(slot),
            final(self).key() == old(self).key(),
    {
        &mut self.inner
    }

    /// Starts one call: hands out the resident handle to issue the call on, and a new latch
    /// for the body of that call. A clone of the handle takes the resident's place.
    pub fn begin_call(&mut self) -> (call: (S, FrameSignal))
        ensures
            call.0 == old(self).resident(),
            cloned(old(self).resident(), final(self).resident()),
            final(self).key() == old(self).key(),
    {
        let handle = lend(&mut self.inner);
        (handle, FrameSignal::new())
    }
}

impl<S: Clone> Clone for AnnotatingFrameMonitor<S> {
    fn clone(&self) -> (other: Self)
        ensures
            cloned(self.resident(), other.resident()),
            other.key() == self.key(),
    {
        AnnotatingFrameMonitor { inner: self.inner.clone(), marker: self.marker }
    }
}

} // verus!
