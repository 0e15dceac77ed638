use fcsrv::daemon::{
    get_pid, log, log_section, parse_pid, restart, start, status, stop, DaemonError, StartPlan,
    Status, StopAction, StopEvent, StopPhase, STOP_ATTEMPTS,
};

#[test]
fn pid_file_is_trimmed_and_parsed() {
    assert_eq!(parse_pid("1234\n"), Some(1234));
    assert_eq!(parse_pid("  42 \t\r\n"), Some(42));
    assert_eq!(parse_pid("2147483647"), Some(i32::MAX));
    assert_eq!(parse_pid("-2147483648"), Some(i32::MIN));
    assert_eq!(parse_pid("+12"), Some(12));
    assert_eq!(parse_pid("0"), Some(0));
    assert_eq!(parse_pid("-5"), Some(-5));
    assert_eq!(parse_pid("\u{a0}7\u{3000}"), Some(7));
}

#[test]
fn malformed_pid_file_is_rejected() {
    assert_eq!(parse_pid(""), None);
    assert_eq!(parse_pid(" \n"), None);
    assert_eq!(parse_pid("12a"), None);
    assert_eq!(parse_pid("+"), None);
    assert_eq!(parse_pid("-"), None);
    assert_eq!(parse_pid("2147483648"), None);
    assert_eq!(parse_pid("-2147483649"), None);
    assert_eq!(parse_pid("99999999999999999999"), None);
    assert_eq!(parse_pid("1 2"), None);
    assert_eq!(parse_pid("\u{e9}1"), None);
}

#[test]
fn get_pid_without_file() {
    assert_eq!(get_pid(None), Ok(None));
    assert_eq!(get_pid(Some("77\n")), Ok(Some(77)));
    assert_eq!(get_pid(Some("x")), Err(DaemonError::MalformedPidFile));
}

#[test]
fn start_decisions() {
    assert_eq!(start(Some(10), &[1, 10], false), Ok(StartPlan::AlreadyRunning(10)));
    assert_eq!(start(Some(10), &[1, 10], true), Ok(StartPlan::AlreadyRunning(10)));
    assert_eq!(start(None, &[1, 10], true), Ok(StartPlan::Launch));
    assert_eq!(start(None, &[], false), Err(DaemonError::PermissionDenied));
}

#[test]
fn start_ignores_stale_pid_file() {
    assert_eq!(start(Some(10), &[1, 2], true), Ok(StartPlan::Launch));
    assert_eq!(start(Some(10), &[], false), Err(DaemonError::PermissionDenied));
}

#[test]
fn status_with_stale_pid_file() {
    assert_eq!(status(Some(4321), &[1, 2, 300]), Err(DaemonError::NotRunning));
    assert_eq!(status(Some(4321), &[]), Err(DaemonError::NotRunning));
}

#[test]
fn status_running_and_stopped() {
    assert_eq!(status(None, &[1, 2]), Ok(Status::Stopped));
    assert_eq!(
        status(Some(300), &[1, 2, 300]),
        Ok(Status::Running { pid: 300, entry: 2 })
    );
}

#[test]
fn stop_needs_root() {
    assert_eq!(stop(Some(5), false), Err(DaemonError::PermissionDenied));
    assert_eq!(restart(Some(5), false), Err(DaemonError::PermissionDenied));
}

#[test]
fn stop_without_pid_file() {
    let (s, a) = stop(None, true).unwrap();
    assert_eq!(a, StopAction::Finish { then_start: false });
    assert_eq!(s.phase, StopPhase::Finished);
}

#[test]
fn stop_never_signals_a_process_group() {
    let (mut s, a) = stop(Some(0), true).unwrap();
    assert_eq!(a, StopAction::RemovePidFile);
    assert_eq!(s.step(StopEvent::PidFileRemoved), StopAction::Finish { then_start: false });
    let (_, a) = stop(Some(-1), true).unwrap();
    assert_eq!(a, StopAction::RemovePidFile);
}

#[test]
fn stop_ends_early_when_process_vanishes() {
    let (mut s, a) = stop(Some(99), true).unwrap();
    assert_eq!(a, StopAction::Signal(99));
    assert_eq!(s.step(StopEvent::SignalDelivered(true)), StopAction::Sleep);
    assert_eq!(s.step(StopEvent::Slept), StopAction::Signal(99));
    assert_eq!(s.step(StopEvent::SignalDelivered(false)), StopAction::RemovePidFile);
    assert_eq!(s.attempts, 2);
    assert_eq!(
        s.step(StopEvent::PidFileRemoved),
        StopAction::Finish { then_start: false }
    );
}

#[test]
fn stop_gives_up_after_all_attempts() {
    let (mut s, mut a) = stop(Some(99), true).unwrap();
    let mut signals: u32 = 0;
    let mut sleeps: u32 = 0;
    loop {
        match a {
            StopAction::Signal(pid) => {
                assert_eq!(pid, 99);
                signals += 1;
                a = s.step(StopEvent::SignalDelivered(true));
            }
            StopAction::Sleep => {
                sleeps += 1;
                a = s.step(StopEvent::Slept);
            }
            StopAction::RemovePidFile => break,
            StopAction::Finish { .. } => panic!("the PID file must be removed first"),
        }
    }
    assert_eq!(STOP_ATTEMPTS, 360);
    assert_eq!(signals, 360);
    assert_eq!(sleeps, 360);
    assert_eq!(
        s.step(StopEvent::PidFileRemoved),
        StopAction::Finish { then_start: false }
    );
}

#[test]
fn restart_ends_with_start() {
    let (mut s, a) = restart(Some(8), true).unwrap();
    assert_eq!(a, StopAction::Signal(8));
    assert_eq!(s.step(StopEvent::SignalDelivered(false)), StopAction::RemovePidFile);
    assert_eq!(
        s.step(StopEvent::PidFileRemoved),
        StopAction::Finish { then_start: true }
    );
    let (_, a) = restart(None, true).unwrap();
    assert_eq!(a, StopAction::Finish { then_start: true });
}

#[test]
fn log_labels_streams() {
    let out = vec!["started".to_string(), "serving".to_string()];
    let err: Vec<String> = Vec::new();
    assert_eq!(log(&out, &err), vec!["STDOUT>", "started", "serving"]);
    let err = vec!["boom".to_string()];
    assert_eq!(
        log(&out, &err),
        vec!["STDOUT>", "started", "serving", "STDERR>", "boom"]
    );
    assert!(log(&Vec::new(), &Vec::new()).is_empty());
    assert!(log_section("STDOUT>", &Vec::new()).is_empty());
}
