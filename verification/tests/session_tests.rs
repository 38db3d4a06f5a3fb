use graceful_shutdown::console::{is_quit, normalize_line};
use graceful_shutdown::listener::{uptime_message, ListenerControl, StopOutcome};
use graceful_shutdown::supervisor::run_console_session;
use graceful_shutdown::waiter::WaiterOutcome;
use graceful_shutdown::worker::WorkerOutcome;

#[test]
fn normalization_trims_and_lowercases() {
    assert_eq!(normalize_line(&b"  Q \n".to_vec()), b"q".to_vec());
    assert_eq!(normalize_line(&b"\tQuIt\r\n".to_vec()), b"quit".to_vec());
    assert_eq!(normalize_line(&b"   \n".to_vec()), b"".to_vec());
    assert_eq!(normalize_line(&b"".to_vec()), b"".to_vec());
}

#[test]
fn unicode_whitespace_is_trimmed() {
    // no-break space on both sides
    assert_eq!(normalize_line(&b"\xC2\xA0Q\xC2\xA0\n".to_vec()), b"q".to_vec());
    // ideographic space
    assert_eq!(
        normalize_line(&b"\xE3\x80\x80q\xE3\x80\x80".to_vec()),
        b"q".to_vec()
    );
    // hair space, then next line alone
    assert_eq!(normalize_line(&b"\xE2\x80\x8Aq".to_vec()), b"q".to_vec());
    assert_eq!(normalize_line(&b"\xC2\x85".to_vec()), b"".to_vec());
}

#[test]
fn quit_test_accepts_unicode_padding() {
    assert!(is_quit(&b"\xC2\xA0q\n".to_vec()));
    // en space before, em space after
    assert!(is_quit(&b"\xE2\x80\x82Q\xE2\x80\x83".to_vec()));
    assert!(!is_quit(&b"\xC2\xA0".to_vec()));
}

#[test]
fn interior_unicode_whitespace_is_kept() {
    assert_eq!(normalize_line(&b"a\xC2\xA0b".to_vec()), b"a\xC2\xA0b".to_vec());
    // a lone continuation byte is not white space
    assert_eq!(normalize_line(&b"\xA0q".to_vec()), b"\xA0q".to_vec());
}

#[test]
fn quit_test_is_case_insensitive_and_trimmed() {
    assert!(is_quit(&b"q".to_vec()));
    assert!(is_quit(&b"Q\n".to_vec()));
    assert!(is_quit(&b"  q  \r\n".to_vec()));
    assert!(!is_quit(&b"n".to_vec()));
    assert!(!is_quit(&b"qq".to_vec()));
    assert!(!is_quit(&b"".to_vec()));
    assert!(!is_quit(&b"quit".to_vec()));
}

#[test]
fn uptime_body_matches_expected_form() {
    assert_eq!(uptime_message(0), b" Uptime: 0 seconds".to_vec());
    assert_eq!(uptime_message(1), b" Uptime: 1 seconds".to_vec());
    assert_eq!(uptime_message(12345), b" Uptime: 12345 seconds".to_vec());
    assert_eq!(
        uptime_message(u64::MAX),
        format!(" Uptime: {} seconds", u64::MAX).into_bytes()
    );
}

#[test]
fn stop_is_idempotent() {
    let mut handle = ListenerControl::started();
    assert!(!handle.stopped());
    assert_eq!(handle.request_stop(), StopOutcome::Requested);
    assert!(handle.stopped());
    assert_eq!(handle.request_stop(), StopOutcome::AlreadyStopped);
    assert!(handle.stopped());
}

#[test]
fn uppercase_quit_tears_the_session_down() {
    let report = run_console_session(&vec![b"Q".to_vec()]);
    assert_eq!(report.quit_index, Some(0));
    assert_eq!(report.worker_outcome, Some(WorkerOutcome::Exited));
    assert_eq!(report.waiter_outcome, Some(WaiterOutcome::ActionRan));
    assert_eq!(report.acknowledge_count, 1);
    assert!(report.listener_stopped);
}

#[test]
fn first_line_ignored_second_quits() {
    let report = run_console_session(&vec![b"n".to_vec(), b"q".to_vec()]);
    assert_eq!(report.quit_index, Some(1));
    assert_eq!(report.worker_outcome, Some(WorkerOutcome::Exited));
    assert_eq!(report.waiter_outcome, Some(WaiterOutcome::ActionRan));
    assert_eq!(report.acknowledge_count, 1);
    assert!(report.listener_stopped);
}

#[test]
fn session_without_quit_line_tears_nothing_down() {
    let report = run_console_session(&vec![b"x".to_vec(), b"help".to_vec()]);
    assert_eq!(report.quit_index, None);
    assert_eq!(report.worker_outcome, None);
    assert_eq!(report.waiter_outcome, None);
    assert_eq!(report.acknowledge_count, 0);
    assert!(!report.listener_stopped);
}

#[test]
fn empty_session_tears_nothing_down() {
    let report = run_console_session(&vec![]);
    assert_eq!(report.quit_index, None);
    assert!(!report.listener_stopped);
}

#[test]
fn lines_after_the_quit_line_are_never_read() {
    let report = run_console_session(&vec![
        b"status".to_vec(),
        b" Q ".to_vec(),
        b"q".to_vec(),
    ]);
    assert_eq!(report.quit_index, Some(1));
    assert_eq!(report.acknowledge_count, 1);
    assert!(report.listener_stopped);
}
