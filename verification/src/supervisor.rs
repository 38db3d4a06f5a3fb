//! The supervisor's decisions, and a pure model of a whole session.
//!
//! The supervisor binds a console-reading action to the worker loop,
//! owns the notification channel whose receiving end the waiter polls,
//! and joins both loops before the process exits. The blocking pieces —
//! spawning, console reads, joining — stay with the caller; the
//! decisions and their effects on the control queues are modelled and
//! verified here.

use vstd::prelude::*;

use crate::channel::{ControlQueue, SendError, CHANNEL_CAPACITY};
use crate::console::is_quit;
use crate::console::is_quit_line;
use crate::listener::ListenerControl;
use crate::signal::ThreadMsg;
use crate::waiter::waiter_run;
use crate::waiter::WaiterOutcome;
use crate::worker::worker_cycle;
use crate::worker::WorkerOutcome;

verus! {

/// The worker's console action, applied to one line already read: when
/// the normalized line is `q`, a `Shutdown` is pushed onto the worker's
/// own inbound queue (to trigger its acknowledged exit) and onto the
/// notification queue (to wake the waiter); any other line changes
/// nothing. A send that cannot be delivered is reported to the caller,
/// which treats it as fatal.
pub fn console_quit_action(
    line: &Vec<u8>,
    worker_inbound: &mut ControlQueue,
    notify: &mut ControlQueue,
) -> (r: Result<bool, SendError>)
    requires
        old(worker_inbound).well_formed(),
        old(notify).well_formed(),
    ensures
        final(worker_inbound).well_formed(),
        final(notify).well_formed(),
        final(worker_inbound).capacity() == old(worker_inbound).capacity(),
        final(notify).capacity() == old(notify).capacity(),
        final(worker_inbound).is_closed() == old(worker_inbound).is_closed(),
        final(notify).is_closed() == old(notify).is_closed(),
        !is_quit_line(line@) ==> {
            &&& r == Ok::<bool, SendError>(false)
            &&& final(worker_inbound)@ == old(worker_inbound)@
            &&& final(notify)@ == old(notify)@
        },
        is_quit_line(line@) && !old(worker_inbound).has_room() ==> {
            &&& r == Err::<bool, SendError>(old(worker_inbound).send_failure())
            &&& final(worker_inbound)@ == old(worker_inbound)@
            &&& final(notify)@ == old(notify)@
        },
        is_quit_line(line@) && old(worker_inbound).has_room() && !old(notify).has_room() ==> {
            &&& r == Err::<bool, SendError>(old(notify).send_failure())
            &&& final(worker_inbound)@ == old(worker_inbound)@.push(ThreadMsg::Shutdown)
            &&& final(notify)@ == old(notify)@
        },
        is_quit_line(line@) && old(worker_inbound).has_room() && old(notify).has_room() ==> {
            &&& r == Ok::<bool, SendError>(true)
            &&& final(worker_inbound)@ == old(worker_inbound)@.push(ThreadMsg::Shutdown)
            &&& final(notify)@ == old(notify)@.push(ThreadMsg::Shutdown)
        },
{
    if is_quit(line) {
        match worker_inbound.send(ThreadMsg::Shutdown) {
            Ok(()) => {}
            Err(e) => {
                return Err(e);
            }
        }
        match notify.send(ThreadMsg::Shutdown) {
            Ok(()) => Ok(true),
            Err(e) => Err(e),
        }
    } else {
        Ok(false)
    }
}

/// Index of the first console line that commands a quit, if any does.
pub open spec fn first_quit_index(lines: Seq<Vec<u8>>) -> Option<int>
    decreases lines.len(),
{
    if lines.len() == 0 {
        None
    } else if is_quit_line(lines[0]@) {
        Some(0int)
    } else {
        match first_quit_index(lines.drop_first()) {
            Some(i) => Some(i + 1),
            None => None,
        }
    }
}

proof fn lemma_first_quit_of_prefix(lines: Seq<Vec<u8>>, i: int)
    requires
        0 <= i <= lines.len(),
        forall|j: int| 0 <= j < i ==> !is_quit_line(lines[j]@),
        i < lines.len() ==> is_quit_line(lines[i]@),
    ensures
        i < lines.len() ==> first_quit_index(lines) == Some(i),
        i == lines.len() ==> first_quit_index(lines) is None,
    decreases lines.len(),
{
    if lines.len() == 0 {
    } else if i == 0 {
    } else {
        let w = lines.drop_first();
        assert forall|j: int| 0 <= j < i - 1 implies !is_quit_line(w[j]@) by {
            assert(w[j] == lines[j + 1]);
        }
        if i - 1 < w.len() {
            assert(w[i - 1] == lines[i]);
        }
        lemma_first_quit_of_prefix(w, i - 1);
        assert(!is_quit_line(lines[0]@));
    }
}

/// What a whole supervised session did.
#[derive(Debug, Clone, Copy, PartialEq, Eq)]
pub struct SessionReport {
    /// The console line that triggered the shutdown, if one did.
    pub quit_index: Option<usize>,
    /// How the worker loop's shutdown cycle ended, once triggered.
    pub worker_outcome: Option<WorkerOutcome>,
    /// How the waiter loop ended, once notified.
    pub waiter_outcome: Option<WaiterOutcome>,
    /// How many acknowledgements the worker sent back.
    pub acknowledge_count: usize,
    /// Whether the stop request was issued on the listener handle.
    pub listener_stopped: bool,
}

/// Pure model of a whole session, fed the console lines the worker
/// action would read: the listener is started; each line is normalized
/// and tested in turn; the first quit line pushes `Shutdown` to the
/// worker and the waiter, the worker acknowledges exactly once and
/// exits, the waiter runs the teardown — the stop request on the
/// listener handle — and exits. Lines after the quit line are never
/// read, and a session without a quit line tears nothing down.
pub fn run_console_session(lines: &Vec<Vec<u8>>) -> (r: SessionReport)
    ensures
        first_quit_index(lines@) is None ==> {
            &&& r.quit_index is None
            &&& r.worker_outcome is None
            &&& r.waiter_outcome is None
            &&& r.acknowledge_count == 0
            &&& !r.listener_stopped
        },
        first_quit_index(lines@) matches Some(i) ==> {
            &&& r.quit_index matches Some(q) && q as int == i
            &&& r.worker_outcome == Some(WorkerOutcome::Exited)
            &&& r.waiter_outcome == Some(WaiterOutcome::ActionRan)
            &&& r.acknowledge_count == 1
            &&& r.listener_stopped
        },
{
    let mut listener = ListenerControl::started();
    let mut worker_inbound = ControlQueue::new(CHANNEL_CAPACITY);
    let mut worker_outbound = ControlQueue::new(CHANNEL_CAPACITY);
    let mut notify = ControlQueue::new(CHANNEL_CAPACITY);
    let mut idx: usize = 0;
    while idx < lines.len()
        invariant
            idx <= lines@.len(),
            forall|j: int| 0 <= j < idx ==> !is_quit_line(lines@[j]@),
            worker_inbound.well_formed(),
            worker_outbound.well_formed(),
            notify.well_formed(),
            worker_inbound@ == Seq::<ThreadMsg>::empty(),
            worker_outbound@ == Seq::<ThreadMsg>::empty(),
            notify@ == Seq::<ThreadMsg>::empty(),
            !worker_inbound.is_closed(),
            !worker_outbound.is_closed(),
            !notify.is_closed(),
            worker_inbound.capacity() == CHANNEL_CAPACITY as nat,
            worker_outbound.capacity() == CHANNEL_CAPACITY as nat,
            notify.capacity() == CHANNEL_CAPACITY as nat,
            !listener.is_stopped(),
        decreases lines@.len() - idx,
    {
        match console_quit_action(&lines[idx], &mut worker_inbound, &mut notify) {
            Ok(true) => {
                proof {
                    lemma_first_quit_of_prefix(lines@, idx as int);
                }
                let worker_outcome = worker_cycle(&mut worker_inbound, &mut worker_outbound);
                let acknowledge_count = worker_outbound.len();
                proof {
                    assert(notify@ =~= seq![ThreadMsg::Shutdown]);
                }
                let waiter_outcome = waiter_run(ThreadMsg::Shutdown, &mut notify);
                match waiter_outcome {
                    WaiterOutcome::ActionRan => {
                        let _ = listener.request_stop();
                    }
                    _ => {}
                }
                let listener_stopped = listener.stopped();
                return SessionReport {
                    quit_index: Some(idx),
                    worker_outcome: Some(worker_outcome),
                    waiter_outcome: Some(waiter_outcome),
                    acknowledge_count,
                    listener_stopped,
                };
            }
            Ok(false) => {
                idx = idx + 1;
            }
            Err(_) => {
                // Unreachable: both queues are empty and open here, so the
                // sends of a quit line cannot fail.
                idx = idx + 1;
            }
        }
    }
    proof {
        lemma_first_quit_of_prefix(lines@, idx as int);
    }
    SessionReport {
        quit_index: None,
        worker_outcome: None,
        waiter_outcome: None,
        acknowledge_count: 0,
        listener_stopped: false,
    }
}

} // verus!
