//! The monitored service: a call dispatcher together with the latch that the bodies of its
//! calls raise.

use crate::signal::FrameSignal;
use tonic::transport::Channel;
use vstd::prelude::*;

verus! {

/// `tonic`'s channel, the dispatcher that a monitor wraps unless told otherwise. It is only
/// ever stored, cloned and handed out.
#[verifier::external_type_specification]
#[verifier::external_body]
pub struct ExChannel(Channel);

/// Clones the handle in `slot`, leaves the clone there and hands out the handle that was
/// resident before: the caller gets a handle that nothing else drives, and the slot holds
/// one that is ready for the next call.
pub fn lend<S: Clone>(slot: &mut S) -> (lent: S)
    ensures
        lent == *old(slot),
        cloned(*old(slot), *final(slot)),
{
    let mut handle = slot.clone();
    std::mem::swap(slot, &mut handle);
    handle
}

/// Service for monitoring if an HTTP request frame was ever emitted.
#[derive(Debug)]
pub struct RequestFrameMonitor<S = Channel> where S: Clone {
    /// Wrapped channel to monitor.
    inner: S,
    /// Signal indicating if request frame has been produced.
    frame_signal: FrameSignal,
}

impl<S: Clone> RequestFrameMonitor<S> {
    /// The dispatcher handle that the next call will be issued on.
    pub closed spec fn resident(&self) -> S {
        self.inner
    }

    /// The latch that the bodies of this monitor's calls raise.
    pub closed spec fn latch(&self) -> FrameSignal {
        self.frame_signal
    }

    /// Wraps `inner`; every call made through the monitor raises `frame_signal`.
    pub fn new(inner: S, frame_signal: FrameSignal) -> (monitor: Self)
        ensures
            monitor.resident() == inner,
            monitor.latch() == frame_signal,
    {
        RequestFrameMonitor { inner, frame_signal }
    }

    /// The resident handle, to put the dispatcher's readiness question to.
    pub fn inner_mut(&mut self) -> (slot: &mut S)
        ensures
            *slot == old(self).resident(),
            final(self).resident() == *final(slot),
            final(self).latch() == old(self).latch(),
    {
        &mut self.inner
    }

    /// A handle on the monitor's latch.
    pub fn frame_signal(&self) -> (handle: FrameSignal)
        ensures
            handle == self.latch(),
    {
        self.frame_signal.clone()
    }

    /// Starts one call: hands out the resident handle to issue the call on, and a handle on
    /// the latch for the body of that call. A clone of the handle takes the resident's place.
    pub fn begin_call(&mut self) -> (call: (S, FrameSignal))
        ensures
            call.0 == old(self).resident(),
            call.1 == old(self).latch(),
            cloned(old(self).resident(), final(self).resident()),
            final(self).latch() == old(self).latch(),
    {
        let handle = lend(&mut self.inner);
        (handle, self.frame_signal.clone())
    }
}

impl<S: Clone> Clone for RequestFrameMonitor<S> {
    fn clone(&self) -> (other: Self)
        ensures
            cloned(self.resident(), other.resident()),
            other.latch() == self.latch(),
    {
        RequestFrameMonitor { inner: self.inner.clone(), frame_signal: self.frame_signal.clone() }
    }
}

} // verus!
