//! One poll of a monitored body.

use crate::signal::FrameSignal;
use vstd::prelude::*;

verus! {

/// What one poll of a streamed body gives.
#[derive(Debug, PartialEq, Eq)]
pub enum Polled<F, E> {
    /// Nothing yet: the poll would block.
    Pending,
    /// A frame was produced.
    Frame(F),
    /// The stream failed.
    Failed(E),
    /// The stream is exhausted.
    Finished,
}

impl<F, E> Polled<F, E> {
    /// The poll that came back ready with `item`.
    pub open spec fn of_ready(item: Option<Result<F, E>>) -> Self {
        match item {
            Some(Ok(frame)) => Polled::Frame(frame),
            Some(Err(error)) => Polled::Failed(error),
            None => Polled::Finished,
        }
    }

    /// What the poll came back ready with; `None` for a poll that is pending.
    pub open spec fn ready(self) -> Option<Option<Result<F, E>>> {
        match self {
            Polled::Pending => None,
            Polled::Frame(frame) => Some(Some(Ok(frame))),
            Polled::Failed(error) => Some(Some(Err(error))),
            Polled::Finished => Some(None),
        }
    }

    /// A poll that came back ready with `item`.
    pub fn from_ready(item: Option<Result<F, E>>) -> (polled: Self)
        ensures
            polled == Self::of_ready(item),
    {
        match item {
            Some(Ok(frame)) => Polled::Frame(frame),
            Some(Err(error)) => Polled::Failed(error),
            None => Polled::Finished,
        }
    }

    /// What the poll came back ready with; `None` for a poll that is pending.
    pub fn into_ready(self) -> (item: Option<Option<Result<F, E>>>)
        ensures
            item == self.ready(),
    {
        match self {
            Polled::Pending => None,
            Polled::Frame(frame) => Some(Some(Ok(frame))),
            Polled::Failed(error) => Some(Some(Err(error))),
            Polled::Finished => Some(None),
        }
    }

    /// Whether this poll produced a frame.
    pub fn is_frame(&self) -> (yes: bool)
        ensures
            yes == (self is Frame),
    {
        match self {
            Polled::Frame(_) => true,
            _ => false,
        }
    }
}

/// Nothing is lost on the way in and out: a ready poll gives back what it was made of, a
/// poll is made of what it gives back, and only a pending poll gives back nothing.
pub proof fn lemma_ready_round_trip<F, E>(item: Option<Result<F, E>>, polled: Polled<F, E>)
    ensures
        Polled::of_ready(item).ready() == Some(item),
        polled.ready() matches Some(inner) ==> Polled::of_ready(inner) == polled,
        polled.ready() is None <==> polled is Pending,
        Polled::of_ready(item) is Frame <==> item matches Some(Ok(_)),
{
}

/// Taps one poll of a body: raises `signal` when the poll produced a frame, and hands the
/// poll on untouched, whatever it is. The latch is written before the frame is handed on.
///
/// Of the latch nothing is stated here. In the terms of the module `history`, the call is
/// the act `Act::Observed { latch: *signal, polled }`.
pub fn observe<F, E>(signal: &FrameSignal, polled: Polled<F, E>) -> (out: Polled<F, E>)
    ensures
        out == polled,
{
    if polled.is_frame() {
        signal.signal();
    }
    polled
}

} // verus!
