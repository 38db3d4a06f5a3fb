use graceful_shutdown::channel::{ControlQueue, TryRecvError};
use graceful_shutdown::signal::ThreadMsg;
use graceful_shutdown::waiter::{waiter_decide, waiter_run, WaiterDecision, WaiterOutcome};
use graceful_shutdown::worker::{worker_cycle, worker_decide, WorkerDecision, WorkerOutcome};

#[test]
fn worker_decides_exit_on_shutdown() {
    assert_eq!(
        worker_decide(Ok(ThreadMsg::Shutdown)),
        WorkerDecision::AcknowledgeAndExit
    );
}

#[test]
fn worker_decides_rejection_on_reserved_signal() {
    assert_eq!(
        worker_decide(Ok(ThreadMsg::Pause)),
        WorkerDecision::AcknowledgeAndReject(ThreadMsg::Pause)
    );
    assert_eq!(
        worker_decide(Ok(ThreadMsg::Sleep(500))),
        WorkerDecision::AcknowledgeAndReject(ThreadMsg::Sleep(500))
    );
}

#[test]
fn worker_keeps_running_on_empty_poll() {
    assert_eq!(
        worker_decide(Err(TryRecvError::Empty)),
        WorkerDecision::ContinueRunning
    );
}

#[test]
fn worker_aborts_on_disconnect() {
    assert_eq!(
        worker_decide(Err(TryRecvError::Closed)),
        WorkerDecision::AbortDisconnected
    );
}

#[test]
fn shutdown_is_acknowledged_exactly_once() {
    let mut inbound = ControlQueue::new(2);
    let mut outbound = ControlQueue::new(2);
    assert_eq!(inbound.send(ThreadMsg::Shutdown), Ok(()));
    let outcome = worker_cycle(&mut inbound, &mut outbound);
    assert_eq!(outcome, WorkerOutcome::Exited);
    assert_eq!(outbound.drain(), vec![ThreadMsg::Acknowledge]);
    assert_eq!(inbound.len(), 0);
}

#[test]
fn worker_cycle_without_signal_continues() {
    let mut inbound = ControlQueue::new(2);
    let mut outbound = ControlQueue::new(2);
    let outcome = worker_cycle(&mut inbound, &mut outbound);
    assert_eq!(outcome, WorkerOutcome::ContinuePolling);
    assert_eq!(outbound.len(), 0);
}

#[test]
fn worker_cycle_leaves_later_signals_unread() {
    let mut inbound = ControlQueue::new(2);
    let mut outbound = ControlQueue::new(2);
    assert_eq!(inbound.send(ThreadMsg::Shutdown), Ok(()));
    assert_eq!(inbound.send(ThreadMsg::Continue), Ok(()));
    let outcome = worker_cycle(&mut inbound, &mut outbound);
    assert_eq!(outcome, WorkerOutcome::Exited);
    assert_eq!(inbound.drain(), vec![ThreadMsg::Continue]);
}

#[test]
fn worker_cycle_rejects_reserved_signal_after_acknowledging() {
    let mut inbound = ControlQueue::new(2);
    let mut outbound = ControlQueue::new(2);
    assert_eq!(inbound.send(ThreadMsg::Maintenance), Ok(()));
    let outcome = worker_cycle(&mut inbound, &mut outbound);
    assert_eq!(
        outcome,
        WorkerOutcome::RejectedUnsupported(ThreadMsg::Maintenance)
    );
    assert_eq!(outbound.drain(), vec![ThreadMsg::Acknowledge]);
}

#[test]
fn worker_cycle_aborts_on_disconnected_inbound() {
    let mut inbound = ControlQueue::new(2);
    let mut outbound = ControlQueue::new(2);
    inbound.close();
    let outcome = worker_cycle(&mut inbound, &mut outbound);
    assert_eq!(outcome, WorkerOutcome::DisconnectAbort);
    assert_eq!(outbound.len(), 0);
}

#[test]
fn worker_cycle_fails_when_acknowledgement_undeliverable() {
    let mut inbound = ControlQueue::new(2);
    let mut outbound = ControlQueue::new(2);
    assert_eq!(inbound.send(ThreadMsg::Shutdown), Ok(()));
    outbound.close();
    let outcome = worker_cycle(&mut inbound, &mut outbound);
    assert_eq!(outcome, WorkerOutcome::AckSendFailed);
    assert_eq!(outbound.len(), 0);
}

#[test]
fn waiter_decides_action_on_expected_signal() {
    assert_eq!(
        waiter_decide(ThreadMsg::Maintenance, Ok(ThreadMsg::Maintenance)),
        WaiterDecision::RunActionAndExit
    );
}

#[test]
fn waiter_decides_exit_without_action_on_shutdown() {
    assert_eq!(
        waiter_decide(ThreadMsg::Maintenance, Ok(ThreadMsg::Shutdown)),
        WaiterDecision::ExitWithoutAction
    );
}

#[test]
fn waiter_ignores_other_signals() {
    assert_eq!(
        waiter_decide(ThreadMsg::Maintenance, Ok(ThreadMsg::Continue)),
        WaiterDecision::KeepPolling
    );
    assert_eq!(
        waiter_decide(ThreadMsg::Maintenance, Err(TryRecvError::Empty)),
        WaiterDecision::KeepPolling
    );
}

#[test]
fn waiter_runs_action_once_on_expected_maintenance() {
    let mut q = ControlQueue::new(2);
    assert_eq!(q.send(ThreadMsg::Maintenance), Ok(()));
    let outcome = waiter_run(ThreadMsg::Maintenance, &mut q);
    assert_eq!(outcome, WaiterOutcome::ActionRan);
    assert_eq!(q.len(), 0);
}

#[test]
fn waiter_skips_action_on_shutdown() {
    let mut q = ControlQueue::new(2);
    assert_eq!(q.send(ThreadMsg::Shutdown), Ok(()));
    let outcome = waiter_run(ThreadMsg::Maintenance, &mut q);
    assert_eq!(outcome, WaiterOutcome::ExitedWithoutAction);
}

#[test]
fn waiter_polls_past_ignored_signals() {
    let mut q = ControlQueue::new(2);
    assert_eq!(q.send(ThreadMsg::Continue), Ok(()));
    assert_eq!(q.send(ThreadMsg::Pause), Ok(()));
    let outcome = waiter_run(ThreadMsg::Maintenance, &mut q);
    assert_eq!(outcome, WaiterOutcome::StillPolling);
    assert_eq!(q.len(), 0);
    assert_eq!(q.send(ThreadMsg::Maintenance), Ok(()));
    let outcome = waiter_run(ThreadMsg::Maintenance, &mut q);
    assert_eq!(outcome, WaiterOutcome::ActionRan);
}

#[test]
fn waiter_aborts_on_disconnected_queue() {
    let mut q = ControlQueue::new(2);
    q.close();
    let outcome = waiter_run(ThreadMsg::Maintenance, &mut q);
    assert_eq!(outcome, WaiterOutcome::DisconnectAbort);
}

#[test]
fn waiter_leaves_signals_after_trigger_unread() {
    let mut q = ControlQueue::new(3);
    assert_eq!(q.send(ThreadMsg::Pause), Ok(()));
    assert_eq!(q.send(ThreadMsg::Maintenance), Ok(()));
    assert_eq!(q.send(ThreadMsg::Continue), Ok(()));
    let outcome = waiter_run(ThreadMsg::Maintenance, &mut q);
    assert_eq!(outcome, WaiterOutcome::ActionRan);
    assert_eq!(q.drain(), vec![ThreadMsg::Continue]);
}
