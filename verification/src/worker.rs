//! Decisions of the worker loop.
//!
//! The worker is a background unit of execution that repeatedly performs a
//! user-supplied action, then polls its inbound queue for a control
//! signal. A received signal is acknowledged unconditionally; `Shutdown`
//! then terminates the loop, while any reserved signal is rejected
//! explicitly rather than given a guessed meaning. The blocking parts of
//! the loop (running the action, sleeping between polls) live with the
//! caller; the decisions and the queue effects are modelled here.

use vstd::prelude::*;

use crate::channel::{ControlQueue, TryRecvError};
use crate::signal::ThreadMsg;

verus! {

/// What the worker does with the outcome of one non-blocking poll.
#[derive(Debug, Clone, Copy, PartialEq, Eq, Structural)]
pub enum WorkerDecision {
    /// No signal arrived: run the action again and poll anew.
    ContinueRunning,
    /// `Shutdown` arrived: acknowledge it, then terminate the loop.
    AcknowledgeAndExit,
    /// A reserved signal arrived: acknowledge it, then reject it
    /// explicitly instead of silently swallowing it.
    AcknowledgeAndReject(ThreadMsg),
    /// The peer of the inbound queue terminated: fatal for the worker.
    AbortDisconnected,
}

/// The decision the worker takes for one poll outcome.
pub open spec fn worker_decision(poll: Result<ThreadMsg, TryRecvError>) -> WorkerDecision {
    match poll {
        Ok(ThreadMsg::Shutdown) => WorkerDecision::AcknowledgeAndExit,
        Ok(m) => WorkerDecision::AcknowledgeAndReject(m),
        Err(TryRecvError::Empty) => WorkerDecision::ContinueRunning,
        Err(TryRecvError::Closed) => WorkerDecision::AbortDisconnected,
    }
}

/// Decides one worker cycle from the outcome of the non-blocking poll of
/// the worker's inbound queue.
pub fn worker_decide(poll: Result<ThreadMsg, TryRecvError>) -> (d: WorkerDecision)
    ensures
        d == worker_decision(poll),
{
    match poll {
        Ok(m) => {
            if m == ThreadMsg::Shutdown {
                WorkerDecision::AcknowledgeAndExit
            } else {
                WorkerDecision::AcknowledgeAndReject(m)
            }
        }
        Err(TryRecvError::Empty) => WorkerDecision::ContinueRunning,
        Err(TryRecvError::Closed) => WorkerDecision::AbortDisconnected,
    }
}

/// How one worker cycle ends.
#[derive(Debug, Clone, Copy, PartialEq, Eq, Structural)]
pub enum WorkerOutcome {
    /// Nothing was in flight: the loop runs its action and polls again.
    ContinuePolling,
    /// `Shutdown` was received and acknowledged; the loop has terminated.
    Exited,
    /// A reserved signal was received and acknowledged; the loop rejects
    /// it explicitly. Fatal for the worker, as no meaning is defined.
    RejectedUnsupported(ThreadMsg),
    /// The peer of the inbound queue terminated: fatal for the worker.
    DisconnectAbort,
    /// The acknowledgement could not be delivered: fatal, since the
    /// supervisor must always be listening.
    AckSendFailed,
}

/// How a worker cycle ends, given the pending inbound signals, whether
/// the inbound queue is closed, and whether the outbound queue can accept
/// the acknowledgement.
pub open spec fn cycle_outcome(
    inbound: Seq<ThreadMsg>,
    inbound_closed: bool,
    ack_deliverable: bool,
) -> WorkerOutcome {
    if inbound.len() == 0 {
        if inbound_closed {
            WorkerOutcome::DisconnectAbort
        } else {
            WorkerOutcome::ContinuePolling
        }
    } else if !ack_deliverable {
        WorkerOutcome::AckSendFailed
    } else if inbound[0] == ThreadMsg::Shutdown {
        WorkerOutcome::Exited
    } else {
        WorkerOutcome::RejectedUnsupported(inbound[0])
    }
}

/// The inbound signals a worker cycle leaves pending: the polled signal is
/// consumed, the rest is left unread.
pub open spec fn cycle_inbound_after(inbound: Seq<ThreadMsg>) -> Seq<ThreadMsg> {
    if inbound.len() == 0 {
        inbound
    } else {
        inbound.drop_first()
    }
}

/// The outbound signals after a worker cycle: exactly one `Acknowledge`
/// is appended when a signal was polled and the acknowledgement could be
/// delivered; otherwise the outbound queue is untouched.
pub open spec fn cycle_outbound_after(
    outbound: Seq<ThreadMsg>,
    inbound: Seq<ThreadMsg>,
    ack_deliverable: bool,
) -> Seq<ThreadMsg> {
    if inbound.len() > 0 && ack_deliverable {
        outbound.push(ThreadMsg::Acknowledge)
    } else {
        outbound
    }
}

/// One cycle of the worker loop over its two queue endpoints: poll the
/// inbound queue without blocking, acknowledge a received signal
/// unconditionally, terminate on `Shutdown`, reject reserved signals.
pub fn worker_cycle(inbound: &mut ControlQueue, outbound: &mut ControlQueue) -> (r: WorkerOutcome)
    requires
        old(inbound).well_formed(),
        old(outbound).well_formed(),
    ensures
        final(inbound).well_formed(),
        final(outbound).well_formed(),
        final(inbound).capacity() == old(inbound).capacity(),
        final(outbound).capacity() == old(outbound).capacity(),
        final(inbound).is_closed() == old(inbound).is_closed(),
        final(outbound).is_closed() == old(outbound).is_closed(),
        r == cycle_outcome(old(inbound)@, old(inbound).is_closed(), old(outbound).has_room()),
        final(inbound)@ == cycle_inbound_after(old(inbound)@),
        final(outbound)@ == cycle_outbound_after(
            old(outbound)@,
            old(inbound)@,
            old(outbound).has_room(),
        ),
{
    let poll = inbound.try_recv();
    match worker_decide(poll) {
        WorkerDecision::ContinueRunning => WorkerOutcome::ContinuePolling,
        WorkerDecision::AbortDisconnected => WorkerOutcome::DisconnectAbort,
        WorkerDecision::AcknowledgeAndExit => {
            match outbound.send(ThreadMsg::Acknowledge) {
                Ok(()) => WorkerOutcome::Exited,
                Err(_) => WorkerOutcome::AckSendFailed,
            }
        }
        WorkerDecision::AcknowledgeAndReject(m) => {
            match outbound.send(ThreadMsg::Acknowledge) {
                Ok(()) => WorkerOutcome::RejectedUnsupported(m),
                Err(_) => WorkerOutcome::AckSendFailed,
            }
        }
    }
}

/// Shutdown handshake law of the worker loop: a cycle that finds
/// `Shutdown` first, with the supervisor listening, sends exactly one
/// `Acknowledge` back, terminates, and never consumes a later signal.
pub proof fn lemma_shutdown_acknowledged_once(
    inbound: Seq<ThreadMsg>,
    inbound_closed: bool,
    outbound: Seq<ThreadMsg>,
)
    requires
        inbound.len() > 0,
        inbound[0] == ThreadMsg::Shutdown,
    ensures
        cycle_outcome(inbound, inbound_closed, true) == WorkerOutcome::Exited,
        cycle_outbound_after(outbound, inbound, true) == outbound.push(ThreadMsg::Acknowledge),
        cycle_outbound_after(outbound, inbound, true).len() == outbound.len() + 1,
        cycle_inbound_after(inbound) == inbound.drop_first(),
{
}

} // verus!
