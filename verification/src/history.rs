//! What a latch holds after a history of acts on it.
//!
//! To Verus a `FrameSignal` is the identity of its shared cell, and what the cell holds is
//! out of sight: any holder may write to it between two reads, so the contracts of the
//! handle's methods say nothing of the value. This module is the account of the value.
//! It puts the acts of all holders in one order, says what a latch that held `before`
//! holds after them, and proves the laws of the latch over that order.

use crate::body::Polled;
use crate::signal::FrameSignal;
use vstd::prelude::*;

verus! {

/// One thing that a holder of a latch does to it.
pub enum Act<F, E> {
    /// A monitored body that holds `latch` forwarded `polled`.
    Observed { latch: FrameSignal, polled: Polled<F, E> },
    /// A holder reset `latch`.
    Reset { latch: FrameSignal },
}

impl<F, E> Act<F, E> {
    /// The latch that the act is done to.
    pub open spec fn on(self) -> FrameSignal {
        match self {
            Act::Observed { latch, .. } => latch,
            Act::Reset { latch } => latch,
        }
    }

    /// The act raises `latch`: a body that holds it forwarded a frame.
    pub open spec fn raises(self, latch: FrameSignal) -> bool {
        &&& self.on() == latch
        &&& self matches Act::Observed { polled, .. }
        &&& polled is Frame
    }

    /// The act lowers `latch`: a holder reset it.
    pub open spec fn lowers(self, latch: FrameSignal) -> bool {
        self.on() == latch && self is Reset
    }
}

/// What `latch` holds after `act`, when it held `before`.
pub open spec fn value_after<F, E>(latch: FrameSignal, before: bool, act: Act<F, E>) -> bool {
    if act.raises(latch) {
        true
    } else if act.lowers(latch) {
        false
    } else {
        before
    }
}

/// What `latch` holds after the acts of `history`, in their order, when it held `before`.
pub open spec fn value_after_all<F, E>(
    latch: FrameSignal,
    before: bool,
    history: Seq<Act<F, E>>,
) -> bool
    decreases history.len(),
{
    if history.len() == 0 {
        before
    } else {
        value_after(latch, value_after_all(latch, before, history.drop_last()), history.last())
    }
}

/// The acts of one monitored body that holds `latch` and forwards the polls of `trace`.
pub open spec fn forwarded<F, E>(latch: FrameSignal, trace: Seq<Polled<F, E>>) -> Seq<Act<F, E>> {
    Seq::new(trace.len(), |i: int| Act::Observed { latch, polled: trace[i] })
}

/// Some poll of `trace` produced a frame.
pub open spec fn has_frame<F, E>(trace: Seq<Polled<F, E>>) -> bool {
    exists|i: int| 0 <= i < trace.len() && (#[trigger] trace[i]) is Frame
}

/// One more act changes the value as `value_after` says.
pub proof fn lemma_value_after_push<F, E>(
    latch: FrameSignal,
    before: bool,
    history: Seq<Act<F, E>>,
    act: Act<F, E>,
)
    ensures
        value_after_all(latch, before, history.push(act)) == value_after(
            latch,
            value_after_all(latch, before, history),
            act,
        ),
{
    assert(history.push(act).drop_last() =~= history);
}

/// A history can be cut anywhere: the second part starts from what the first part left.
pub proof fn lemma_value_after_concat<F, E>(
    latch: FrameSignal,
    before: bool,
    earlier: Seq<Act<F, E>>,
    later: Seq<Act<F, E>>,
)
    ensures
        value_after_all(latch, before, earlier + later) == value_after_all(
            latch,
            value_after_all(latch, before, earlier),
            later,
        ),
    decreases later.len(),
{
    if later.len() == 0 {
        assert(earlier + later =~= earlier);
    } else {
        lemma_value_after_concat(latch, before, earlier, later.drop_last());
        assert((earlier + later).drop_last() =~= earlier + later.drop_last());
    }
}

/// Doing an act twice in a row is doing it once: raising a raised latch and lowering a
/// lowered one change nothing.
pub proof fn lemma_act_is_idempotent<F, E>(latch: FrameSignal, before: bool, act: Act<F, E>)
    ensures
        value_after(latch, value_after(latch, before, act), act) == value_after(
            latch,
            before,
            act,
        ),
{
}

/// Without a reset the latch only goes up: if it was up before a history that does not
/// lower it, it is up after.
pub proof fn lemma_stays_up_without_reset<F, E>(
    latch: FrameSignal,
    before: bool,
    history: Seq<Act<F, E>>,
)
    requires
        before,
        forall|i: int| 0 <= i < history.len() ==> !(#[trigger] history[i]).lowers(latch),
    ensures
        value_after_all(latch, before, history),
    decreases history.len(),
{
    if history.len() > 0 {
        lemma_stays_up_without_reset(latch, before, history.drop_last());
    }
}

/// A body raises its latch exactly when one of the polls it forwarded produced a frame:
/// pending polls, failures and the end of the stream leave the latch as it was.
pub proof fn lemma_raised_iff_frame_forwarded<F, E>(
    latch: FrameSignal,
    before: bool,
    trace: Seq<Polled<F, E>>,
)
    ensures
        value_after_all(latch, before, forwarded(latch, trace)) == (before || has_frame(trace)),
    decreases trace.len(),
{
    if trace.len() > 0 {
        let shorter = trace.drop_last();
        lemma_raised_iff_frame_forwarded(latch, before, shorter);
        assert(forwarded(latch, trace).drop_last() =~= forwarded(latch, shorter));
        if has_frame(shorter) {
            let i = choose|i: int| 0 <= i < shorter.len() && (#[trigger] shorter[i]) is Frame;
            assert(trace[i] is Frame);
        }
        if has_frame(trace) && !(trace.last() is Frame) {
            let i = choose|i: int| 0 <= i < trace.len() && (#[trigger] trace[i]) is Frame;
            assert(shorter[i] is Frame);
        }
    }
}

/// Frames and then the end of the stream, on a latch that was down: the latch is up exactly
/// when there was at least one frame.
pub proof fn lemma_frames_then_finished<F, E>(latch: FrameSignal, trace: Seq<Polled<F, E>>)
    requires
        trace.len() > 0,
        trace.last() is Finished,
        forall|i: int| 0 <= i < trace.len() - 1 ==> (#[trigger] trace[i]) is Frame,
    ensures
        value_after_all(latch, false, forwarded(latch, trace)) <==> trace.len() > 1,
{
    lemma_raised_iff_frame_forwarded(latch, false, trace);
    if trace.len() > 1 {
        assert(trace[0] is Frame);
    }
}

/// A failure with no frame before it: when the body forwards the failure, the latch is
/// still down.
pub proof fn lemma_failure_before_any_frame<F, E>(
    latch: FrameSignal,
    trace: Seq<Polled<F, E>>,
    at: int,
)
    requires
        0 <= at < trace.len(),
        trace[at] is Failed,
        forall|i: int| 0 <= i < at ==> !((#[trigger] trace[i]) is Frame),
    ensures
        !value_after_all(latch, false, forwarded(latch, trace.subrange(0, at + 1))),
{
    lemma_raised_iff_frame_forwarded(latch, false, trace.subrange(0, at + 1));
}

/// A frame counts whatever follows it: once a body has forwarded a frame, its latch is up
/// whatever the polls after it are, a failure among them or not.
pub proof fn lemma_frame_then_anything<F, E>(
    latch: FrameSignal,
    before: bool,
    trace: Seq<Polled<F, E>>,
    at: int,
)
    requires
        0 <= at < trace.len(),
        trace[at] is Frame,
    ensures
        value_after_all(latch, before, forwarded(latch, trace)),
{
    lemma_raised_iff_frame_forwarded(latch, before, trace);
}

/// A reset lowers the latch whatever it held, and what the latch holds afterwards depends
/// on the acts after the reset alone.
pub proof fn lemma_reset_then_reuse<F, E>(
    latch: FrameSignal,
    before: bool,
    earlier: Seq<Act<F, E>>,
    later: Seq<Act<F, E>>,
)
    ensures
        !value_after_all(latch, before, earlier.push(Act::Reset { latch })),
        value_after_all(latch, before, earlier.push(Act::Reset { latch }) + later)
            == value_after_all(latch, false, later),
{
    lemma_value_after_push(latch, before, earlier, Act::Reset { latch });
    lemma_value_after_concat(latch, before, earlier.push(Act::Reset { latch }), later);
}

/// Acts on other latches change nothing: whatever is done to them, `latch` holds what it
/// held.
pub proof fn lemma_other_latches_leave_unchanged<F, E>(
    latch: FrameSignal,
    before: bool,
    others: Seq<Act<F, E>>,
)
    requires
        forall|i: int| 0 <= i < others.len() ==> (#[trigger] others[i]).on() != latch,
    ensures
        value_after_all(latch, before, others) == before,
    decreases others.len(),
{
    if others.len() > 0 {
        lemma_other_latches_leave_unchanged(latch, before, others.drop_last());
    }
}

/// Calls that overlap do not disturb each other: the acts of the bodies and owners of
/// other latches, put anywhere into the history of `latch`, leave what it holds at the end
/// unchanged.
pub proof fn lemma_calls_do_not_interfere<F, E>(
    latch: FrameSignal,
    before: bool,
    earlier: Seq<Act<F, E>>,
    others: Seq<Act<F, E>>,
    later: Seq<Act<F, E>>,
)
    requires
        forall|i: int| 0 <= i < others.len() ==> (#[trigger] others[i]).on() != latch,
    ensures
        value_after_all(latch, before, earlier + others + later) == value_after_all(
            latch,
            before,
            earlier + later,
        ),
{
    let so_far = value_after_all(latch, before, earlier);
    lemma_value_after_concat(latch, before, earlier, others);
    lemma_other_latches_leave_unchanged(latch, so_far, others);
    lemma_value_after_concat(latch, before, earlier + others, later);
    lemma_value_after_concat(latch, before, earlier, later);
}

} // verus!
