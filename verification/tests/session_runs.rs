//! End-to-end drives of the run state machine with hand-fed call outcomes.

use wintime::errors::{ErrorKind, Op, EXIT_ERROR};
use wintime::events::Notification;
use wintime::session::{GroupCreation, Phase, Session};

/// Drives a fresh session to the point where the command is running: counter
/// frequency known, group and channel created, process launched suspended,
/// attached, its handle closed, the wall clock started and the thread resumed.
fn resumed_session(freq: u64, group_id: u64, t0: u64) -> Session {
    let mut s = Session::new();
    assert!(s.on_frequency(Ok(freq)));
    assert_eq!(s.phase(), Phase::TimerReady);
    assert!(s.on_group_created(GroupCreation::Created { group_id }));
    assert_eq!(s.phase(), Phase::GroupReady);
    assert!(s.on_launched(Ok(())));
    assert_eq!(s.phase(), Phase::Launched);
    assert!(s.on_attached(Ok(())));
    assert_eq!(s.phase(), Phase::Attached);
    s.close_process();
    assert_eq!(s.phase(), Phase::ProcessClosed);
    assert!(s.on_wall_start(Ok(t0)));
    s.on_resumed();
    assert_eq!(s.phase(), Phase::Resumed);
    s
}

fn finish_session(s: &mut Session, t1: u64, user_ticks: u64, kernel_ticks: u64) {
    assert!(s.on_wall_stop(Ok(t1)));
    assert!(s.on_accounting(Ok((user_ticks, kernel_ticks))));
    s.finish();
    assert_eq!(s.phase(), Phase::Finished);
}

#[test]
fn immediate_exit_reports_overhead_only() {
    // The command exits at once: one group-emptied message, no CPU time.
    let mut s = resumed_session(10_000_000, 41, 1_000_000);
    let done = s.on_notification(Ok(Notification { source: 41, code: 4 }));
    assert!(done);
    assert_eq!(s.phase(), Phase::Drained);
    // Three milliseconds of launch/resume/wait overhead.
    finish_session(&mut s, 1_030_000, 0, 0);
    let t = s.report();
    assert_eq!(t.wall, 3);
    assert_eq!(t.user, 0);
    assert_eq!(t.kernel, 0);
    let l = s.ledger();
    assert_eq!(
        (l.process_acquired, l.thread_acquired, l.group_acquired, l.channel_acquired),
        (1, 1, 1, 1)
    );
    assert_eq!(
        (l.process_released, l.thread_released, l.group_released, l.channel_released),
        (1, 1, 1, 1)
    );
}

#[test]
fn children_are_aggregated_by_the_group() {
    // The command spawns three children that each sleep briefly and exit; the
    // parent waits for them.  The group posts membership traffic for every
    // process, and the accounting the group reports is the kernel's sum over
    // parent and children — the run hands that sum through untouched.
    let mut s = resumed_session(1_000_000, 77, 5_000_000);
    let traffic = vec![
        Notification { source: 77, code: 6 }, // parent joined
        Notification { source: 77, code: 6 }, // child 1 joined
        Notification { source: 77, code: 6 }, // child 2 joined
        Notification { source: 77, code: 6 }, // child 3 joined
        Notification { source: 77, code: 7 }, // child 1 exited
        Notification { source: 77, code: 8 }, // child 2 exited abnormally
        Notification { source: 77, code: 7 }, // child 3 exited
        Notification { source: 77, code: 7 }, // parent exited
        Notification { source: 77, code: 4 }, // group empty
    ];
    let stopped = s.process_notifications(&traffic);
    assert_eq!(stopped, Some(8));
    assert_eq!(s.phase(), Phase::Drained);
    // Each child burnt 40 ms of user time and 15 ms of kernel time; the
    // parent only slept.  The children slept 200 ms, the wall shows it.
    let per_child_user = 400_000;
    let per_child_kernel = 150_000;
    finish_session(&mut s, 5_210_000, 3 * per_child_user, 3 * per_child_kernel);
    let t = s.report();
    assert_eq!(t.user, 120);
    assert_eq!(t.kernel, 45);
    assert_eq!(t.user + t.kernel, 165);
    assert!(t.wall >= 200);
}

#[test]
fn spurious_notifications_never_end_the_wait() {
    let mut s = resumed_session(1_000, 9, 0);
    // Membership traffic of this group, a foreign source reporting emptiness,
    // and unknown codes: none of it ends the wait.
    let spurious = vec![
        Notification { source: 9, code: 6 },
        Notification { source: 9, code: 7 },
        Notification { source: 9, code: 8 },
        Notification { source: 8, code: 4 },
        Notification { source: 9, code: 11 },
        Notification { source: 0, code: 0 },
    ];
    let stopped = s.process_notifications(&spurious);
    assert_eq!(stopped, None);
    assert_eq!(s.phase(), Phase::Resumed);
    // The genuine message still ends it.
    let done = s.on_notification(Ok(Notification { source: 9, code: 4 }));
    assert!(done);
    assert_eq!(s.phase(), Phase::Drained);
}

#[test]
fn missing_executable_fails_creation_with_cleanup() {
    // The target executable does not exist: process creation fails after the
    // group and channel were made.  The run fails naming the creation call,
    // produces no timing, and still releases both acquired handles.
    let mut s = Session::new();
    assert!(s.on_frequency(Ok(10_000_000)));
    assert!(s.on_group_created(GroupCreation::Created { group_id: 3 }));
    let ok = s.on_launched(Err(String::from("The system cannot find the file specified.")));
    assert!(!ok);
    assert_eq!(s.phase(), Phase::Failed);
    let e = s.error_ref().expect("a failed run records its error");
    assert_eq!(e.op, Op::CreateProcess);
    assert_eq!(e.kind(), ErrorKind::ResourceCreationFailed);
    assert_eq!(EXIT_ERROR, 2);
    s.release_remaining();
    let l = s.ledger();
    assert_eq!((l.process_acquired, l.process_released), (0, 0));
    assert_eq!((l.thread_acquired, l.thread_released), (0, 0));
    assert_eq!((l.group_acquired, l.group_released), (1, 1));
    assert_eq!((l.channel_acquired, l.channel_released), (1, 1));
}

#[test]
fn partial_group_creation_still_balances_the_ledger() {
    // The channel came up but binding it to the group failed: both handles
    // were acquired and both must be released.
    let mut s = Session::new();
    assert!(s.on_frequency(Ok(1_000)));
    let ok = s.on_group_created(GroupCreation::AssociateFailed {
        detail: String::from("Access is denied."),
    });
    assert!(!ok);
    let e = s.error_ref().expect("a failed run records its error");
    assert_eq!(e.op, Op::AssociateChannel);
    assert_eq!(e.kind(), ErrorKind::ResourceCreationFailed);
    s.release_remaining();
    let l = s.ledger();
    assert_eq!((l.group_acquired, l.group_released), (1, 1));
    assert_eq!((l.channel_acquired, l.channel_released), (1, 1));
    assert_eq!((l.process_acquired, l.process_released), (0, 0));
}

#[test]
fn channel_creation_failure_releases_only_the_group() {
    let mut s = Session::new();
    assert!(s.on_frequency(Ok(1_000)));
    let ok = s.on_group_created(GroupCreation::ChannelFailed {
        detail: String::from("Not enough quota is available."),
    });
    assert!(!ok);
    assert_eq!(s.error_ref().unwrap().op, Op::CreateChannel);
    s.release_remaining();
    let l = s.ledger();
    assert_eq!((l.group_acquired, l.group_released), (1, 1));
    assert_eq!((l.channel_acquired, l.channel_released), (0, 0));
}

#[test]
fn attach_failure_releases_process_and_thread() {
    let mut s = Session::new();
    assert!(s.on_frequency(Ok(1_000)));
    assert!(s.on_group_created(GroupCreation::Created { group_id: 5 }));
    assert!(s.on_launched(Ok(())));
    let ok = s.on_attached(Err(String::from("Access is denied.")));
    assert!(!ok);
    assert_eq!(s.error_ref().unwrap().op, Op::AttachProcess);
    assert_eq!(
        s.error_ref().unwrap().kind(),
        ErrorKind::ResourceCreationFailed
    );
    s.release_remaining();
    let l = s.ledger();
    assert_eq!((l.process_acquired, l.process_released), (1, 1));
    assert_eq!((l.thread_acquired, l.thread_released), (1, 1));
    assert_eq!((l.group_acquired, l.group_released), (1, 1));
    assert_eq!((l.channel_acquired, l.channel_released), (1, 1));
}

#[test]
fn accounting_after_teardown_is_a_failed_query() {
    // The ordering invariant says the accounting is read before the group is
    // destroyed; a query reported after teardown counts as a failed query
    // even if the call handed numbers back.
    let mut s = resumed_session(1_000, 2, 10);
    assert!(s.on_notification(Ok(Notification { source: 2, code: 4 })));
    finish_session(&mut s, 1_010, 0, 0);
    let ok = s.on_accounting(Ok((123, 456)));
    assert!(!ok);
    assert_eq!(s.phase(), Phase::Failed);
    let e = s.error_ref().expect("a failed query records its error");
    assert_eq!(e.op, Op::QueryAccounting);
    assert_eq!(e.kind(), ErrorKind::QueryFailed);
}

#[test]
fn dequeue_failure_ends_the_wait_as_a_failed_query() {
    let mut s = resumed_session(1_000, 2, 10);
    let done = s.on_notification(Err(String::from("The handle is invalid.")));
    assert!(done);
    assert_eq!(s.phase(), Phase::Failed);
    let e = s.error_ref().unwrap();
    assert_eq!(e.op, Op::WaitDequeue);
    assert_eq!(e.kind(), ErrorKind::QueryFailed);
    s.release_remaining();
    let l = s.ledger();
    assert_eq!((l.group_acquired, l.group_released), (1, 1));
}

#[test]
fn frequency_failure_fails_before_anything_is_acquired() {
    let mut s = Session::new();
    let ok = s.on_frequency(Err(String::from("The request is not supported.")));
    assert!(!ok);
    assert_eq!(s.phase(), Phase::Failed);
    let e = s.error_ref().unwrap();
    assert_eq!(e.op, Op::QueryFrequency);
    assert_eq!(e.kind(), ErrorKind::QueryFailed);
    s.release_remaining();
    let l = s.ledger();
    assert_eq!((l.group_acquired, l.channel_acquired), (0, 0));
}

#[test]
fn zero_frequency_counts_as_a_failed_query() {
    let mut s = Session::new();
    let ok = s.on_frequency(Ok(0));
    assert!(!ok);
    assert_eq!(s.phase(), Phase::Failed);
    assert_eq!(s.error_ref().unwrap().op, Op::QueryFrequency);
}

#[test]
fn reversed_counter_samples_clamp_wall_to_zero() {
    let mut s = resumed_session(1_000, 6, 500_000);
    assert!(s.on_notification(Ok(Notification { source: 6, code: 4 })));
    finish_session(&mut s, 499_000, 10_000, 0);
    let t = s.report();
    assert_eq!(t.wall, 0);
    assert_eq!(t.user, 1);
}
