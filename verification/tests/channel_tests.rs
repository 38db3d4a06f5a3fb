use graceful_shutdown::channel::{ControlQueue, RecvError, SendError, TryRecvError};
use graceful_shutdown::signal::ThreadMsg;

#[test]
fn fifo_order_is_kept() {
    let mut q = ControlQueue::new(3);
    assert_eq!(q.send(ThreadMsg::Continue), Ok(()));
    assert_eq!(q.send(ThreadMsg::Pause), Ok(()));
    assert_eq!(q.send(ThreadMsg::Maintenance), Ok(()));
    assert_eq!(q.try_recv(), Ok(ThreadMsg::Continue));
    assert_eq!(q.try_recv(), Ok(ThreadMsg::Pause));
    assert_eq!(q.try_recv(), Ok(ThreadMsg::Maintenance));
    assert_eq!(q.try_recv(), Err(TryRecvError::Empty));
}

#[test]
fn drain_observes_send_order() {
    let mut q = ControlQueue::new(4);
    let msgs = vec![
        ThreadMsg::Sleep(250),
        ThreadMsg::Shutdown,
        ThreadMsg::Acknowledge,
    ];
    assert_eq!(q.send_all(&msgs), Ok(()));
    assert_eq!(q.drain(), msgs);
    assert_eq!(q.len(), 0);
}

#[test]
fn send_on_full_queue_reports_full() {
    let mut q = ControlQueue::new(2);
    assert_eq!(q.send(ThreadMsg::Continue), Ok(()));
    assert_eq!(q.send(ThreadMsg::Pause), Ok(()));
    assert_eq!(q.send(ThreadMsg::Shutdown), Err(SendError::Full));
    assert_eq!(q.len(), 2);
}

#[test]
fn send_on_closed_queue_reports_closed() {
    let mut q = ControlQueue::new(2);
    q.close();
    assert_eq!(q.send(ThreadMsg::Shutdown), Err(SendError::Closed));
}

#[test]
fn send_all_overflow_keeps_what_fits() {
    let mut q = ControlQueue::new(2);
    let msgs = vec![ThreadMsg::Continue, ThreadMsg::Pause, ThreadMsg::Shutdown];
    assert_eq!(q.send_all(&msgs), Err(SendError::Full));
    assert_eq!(q.drain(), vec![ThreadMsg::Continue, ThreadMsg::Pause]);
}

#[test]
fn try_recv_empty_then_closed() {
    let mut q = ControlQueue::new(2);
    assert_eq!(q.try_recv(), Err(TryRecvError::Empty));
    q.close();
    assert_eq!(q.try_recv(), Err(TryRecvError::Closed));
}

#[test]
fn in_flight_signals_survive_closing() {
    let mut q = ControlQueue::new(2);
    assert_eq!(q.send(ThreadMsg::Maintenance), Ok(()));
    q.close();
    assert_eq!(q.try_recv(), Ok(ThreadMsg::Maintenance));
    assert_eq!(q.try_recv(), Err(TryRecvError::Closed));
}

#[test]
fn recv_returns_pending_signal_then_closed() {
    let mut q = ControlQueue::new(2);
    assert_eq!(q.send(ThreadMsg::Acknowledge), Ok(()));
    q.close();
    assert_eq!(q.recv(), Ok(ThreadMsg::Acknowledge));
    assert_eq!(q.recv(), Err(RecvError::Closed));
}
