//! The shared latch.
//!
//! A `FrameSignal` is a handle on one atomic flag; every clone of the handle is a handle on
//! the same flag. All operations are single atomic accesses: they never block, and a write
//! with release ordering is seen by every later read with acquire ordering.
//!
//! What the flag holds is not a property of the handle: any holder may write between two
//! reads. The contracts here therefore speak only of which flag a handle denotes (two
//! handles are equal exactly when they denote the same flag); the module `history` says
//! what a flag holds after a sequence of acts.

use std::sync::atomic::AtomicBool;
use std::sync::atomic::Ordering;
use std::sync::Arc;
use vstd::prelude::*;

verus! {

/// `Arc::clone` hands out another pointer to the same allocation, so the new pointer
/// denotes the very cell the old one denotes.
#[verifier::external_body]
fn share(cell: &Arc<AtomicBool>) -> (other: Arc<AtomicBool>)
    ensures
        other == *cell,
{
    Arc::clone(cell)
}

/// Resettable handle for indicating if a frame has been produced.
#[derive(Debug)]
pub struct FrameSignal(Arc<AtomicBool>);

impl FrameSignal {
    /// A handle on a new latch, which is down.
    pub fn new() -> (fresh: Self) {
        FrameSignal(Arc::new(AtomicBool::new(false)))
    }

    /// Whether the latch is up at this moment. Read it once the exchange has ended: while
    /// a body may still raise the latch, the answer can be out of date as soon as it is
    /// given.
    pub fn is_signalled(&self) -> (raised: bool) {
        self.0.load(Ordering::Acquire)
    }

    /// Lowers the latch, for its owner to use between two exchanges.
    pub fn reset(&self) {
        self.0.store(false, Ordering::Release)
    }

    /// Raises the latch; raising a latch that is up changes nothing.
    pub(crate) fn signal(&self) {
        self.0.store(true, Ordering::Release)
    }
}

impl Clone for FrameSignal {
    /// Another handle on the same latch.
    fn clone(&self) -> (other: Self)
        ensures
            other == *self,
    {
        FrameSignal(share(&self.0))
    }
}

impl Default for FrameSignal {
    /// A handle on a new latch, which is down.
    fn default() -> (fresh: Self) {
        FrameSignal::new()
    }
}

} // verus!
