//! Decisions of the waiter loop.
//!
//! The waiter is a background unit of execution that polls a notification
//! queue until a specific expected signal arrives, runs a one-shot
//! teardown action, and terminates. A `Shutdown` that differs from the
//! expected signal also terminates the loop, but deliberately without
//! running the action: the protocol keeps this "abort without cleanup"
//! path as an explicit, documented choice. Every other signal is ignored
//! and polling goes on.

use vstd::prelude::*;

use crate::channel::{ControlQueue, TryRecvError};
use crate::signal::ThreadMsg;

verus! {

/// What the waiter does with the outcome of one non-blocking poll.
#[derive(Debug, Clone, Copy, PartialEq, Eq, Structural)]
pub enum WaiterDecision {
    /// No signal, or an ignored signal: keep polling.
    KeepPolling,
    /// The expected signal arrived: run the teardown action, then exit.
    RunActionAndExit,
    /// `Shutdown` arrived in place of the expected signal: exit without
    /// running the action.
    ExitWithoutAction,
    /// The peer of the notification queue terminated: fatal.
    AbortDisconnected,
}

/// The decision the waiter takes for one poll outcome, given the signal
/// it is waiting for.
pub open spec fn waiter_decision(
    expected: ThreadMsg,
    poll: Result<ThreadMsg, TryRecvError>,
) -> WaiterDecision {
    match poll {
        Ok(m) => if m == expected {
            WaiterDecision::RunActionAndExit
        } else if m == ThreadMsg::Shutdown {
            WaiterDecision::ExitWithoutAction
        } else {
            WaiterDecision::KeepPolling
        },
        Err(TryRecvError::Empty) => WaiterDecision::KeepPolling,
        Err(TryRecvError::Closed) => WaiterDecision::AbortDisconnected,
    }
}

/// Decides one waiter cycle from the outcome of the non-blocking poll of
/// the notification queue.
pub fn waiter_decide(
    expected: ThreadMsg,
    poll: Result<ThreadMsg, TryRecvError>,
) -> (d: WaiterDecision)
    ensures
        d == waiter_decision(expected, poll),
{
    match poll {
        Ok(m) => {
            if m == expected {
                WaiterDecision::RunActionAndExit
            } else if m == ThreadMsg::Shutdown {
                WaiterDecision::ExitWithoutAction
            } else {
                WaiterDecision::KeepPolling
            }
        }
        Err(TryRecvError::Empty) => WaiterDecision::KeepPolling,
        Err(TryRecvError::Closed) => WaiterDecision::AbortDisconnected,
    }
}

/// Whether `m` ends the waiter's polling: it is the expected signal, or a
/// `Shutdown` standing in for it.
pub open spec fn triggers_waiter(expected: ThreadMsg, m: ThreadMsg) -> bool {
    m == expected || m == ThreadMsg::Shutdown
}

/// Index of the first signal of `v` that ends the waiter's polling, if
/// any signal does.
pub open spec fn trigger_index(expected: ThreadMsg, v: Seq<ThreadMsg>) -> Option<int>
    decreases v.len(),
{
    if v.len() == 0 {
        None
    } else if triggers_waiter(expected, v[0]) {
        Some(0int)
    } else {
        match trigger_index(expected, v.drop_first()) {
            Some(i) => Some(i + 1),
            None => None,
        }
    }
}

/// Whether a waiter working through the pending signals `v` runs its
/// teardown action: the first triggering signal is the expected one.
pub open spec fn waiter_runs_action(expected: ThreadMsg, v: Seq<ThreadMsg>) -> bool {
    match trigger_index(expected, v) {
        Some(i) => v[i] == expected,
        None => false,
    }
}

/// How a waiter run over the pending signals ends.
#[derive(Debug, Clone, Copy, PartialEq, Eq, Structural)]
pub enum WaiterOutcome {
    /// Every pending signal was ignored: the loop polls on.
    StillPolling,
    /// The expected signal arrived: the teardown action ran exactly once
    /// and the loop terminated.
    ActionRan,
    /// `Shutdown` arrived in place of the expected signal: the loop
    /// terminated without running the action.
    ExitedWithoutAction,
    /// The peer of the notification queue terminated: fatal.
    DisconnectAbort,
}

proof fn lemma_trigger_index_of_prefix(expected: ThreadMsg, v: Seq<ThreadMsg>, i: int)
    requires
        0 <= i <= v.len(),
        forall|j: int| 0 <= j < i ==> !triggers_waiter(expected, v[j]),
        i < v.len() ==> triggers_waiter(expected, v[i]),
    ensures
        i < v.len() ==> trigger_index(expected, v) == Some(i),
        i == v.len() ==> trigger_index(expected, v) is None,
    decreases v.len(),
{
    if v.len() == 0 {
    } else if i == 0 {
    } else {
        let w = v.drop_first();
        assert forall|j: int| 0 <= j < i - 1 implies !triggers_waiter(expected, w[j]) by {
            assert(w[j] == v[j + 1]);
        }
        if i - 1 < w.len() {
            assert(w[i - 1] == v[i]);
        }
        lemma_trigger_index_of_prefix(expected, w, i - 1);
        assert(!triggers_waiter(expected, v[0]));
    }
}

/// Works through the pending signals of the notification queue as the
/// waiter loop does: ignored signals are consumed, the first triggering
/// signal decides the outcome, and every signal after it is left unread.
/// The teardown action runs exactly when the outcome is `ActionRan`.
pub fn waiter_run(expected: ThreadMsg, q: &mut ControlQueue) -> (r: WaiterOutcome)
    requires
        old(q).well_formed(),
    ensures
        final(q).well_formed(),
        final(q).capacity() == old(q).capacity(),
        final(q).is_closed() == old(q).is_closed(),
        trigger_index(expected, old(q)@) matches Some(i) ==> {
            &&& final(q)@ == old(q)@.skip(i + 1)
            &&& old(q)@[i] == expected ==> r == WaiterOutcome::ActionRan
            &&& old(q)@[i] != expected ==> r == WaiterOutcome::ExitedWithoutAction
        },
        trigger_index(expected, old(q)@) is None ==> {
            &&& final(q)@ == Seq::<ThreadMsg>::empty()
            &&& !old(q).is_closed() ==> r == WaiterOutcome::StillPolling
            &&& old(q).is_closed() ==> r == WaiterOutcome::DisconnectAbort
        },
        (r == WaiterOutcome::ActionRan) == waiter_runs_action(expected, old(q)@),
{
    let ghost v = old(q)@;
    let ghost mut i: int = 0;
    proof {
        assert(v.skip(0) =~= v);
    }
    loop
        invariant
            v == old(q)@,
            0 <= i <= v.len(),
            q.well_formed(),
            q.capacity() == old(q).capacity(),
            q.is_closed() == old(q).is_closed(),
            q@ == v.skip(i),
            forall|j: int| 0 <= j < i ==> !triggers_waiter(expected, v[j]),
        decreases v.len() - i,
    {
        match q.try_recv() {
            Ok(m) => {
                proof {
                    assert(v.skip(i)[0] == v[i]);
                    assert(v.skip(i).drop_first() =~= v.skip(i + 1));
                }
                match waiter_decide(expected, Ok(m)) {
                    WaiterDecision::RunActionAndExit => {
                        proof {
                            lemma_trigger_index_of_prefix(expected, v, i);
                        }
                        return WaiterOutcome::ActionRan;
                    }
                    WaiterDecision::ExitWithoutAction => {
                        proof {
                            lemma_trigger_index_of_prefix(expected, v, i);
                        }
                        return WaiterOutcome::ExitedWithoutAction;
                    }
                    _ => {
                        proof {
                            i = i + 1;
                        }
                    }
                }
            }
            Err(e) => {
                proof {
                    assert(v.skip(i) =~= Seq::<ThreadMsg>::empty());
                    assert(i == v.len());
                    lemma_trigger_index_of_prefix(expected, v, i);
                }
                if matches!(e, TryRecvError::Closed) {
                    return WaiterOutcome::DisconnectAbort;
                } else {
                    return WaiterOutcome::StillPolling;
                }
            }
        }
    }
}

/// Waiter law for a single pending signal `m`, with expected signal `e`:
/// `m == e` triggers the loop and runs the teardown action exactly once;
/// a `Shutdown` differing from `e` triggers the loop but skips the
/// action; any other signal triggers nothing, so the loop keeps polling
/// until one of the two above is sent.
pub proof fn lemma_waiter_single_signal(e: ThreadMsg, m: ThreadMsg)
    ensures
        m == e ==> trigger_index(e, seq![m]) == Some(0int) && waiter_runs_action(e, seq![m]),
        m != e && m == ThreadMsg::Shutdown ==> trigger_index(e, seq![m]) == Some(0int)
            && !waiter_runs_action(e, seq![m]),
        m != e && m != ThreadMsg::Shutdown ==> trigger_index(e, seq![m]) is None
            && !waiter_runs_action(e, seq![m]),
{
    let v = seq![m];
    assert(v[0] == m);
    if !triggers_waiter(e, m) {
        assert(v.drop_first() =~= Seq::<ThreadMsg>::empty());
        assert(trigger_index(e, v.drop_first()) is None);
    }
}

} // verus!
