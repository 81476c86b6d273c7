use devicecheck::daemon::{
    after_interrupt, after_task_kill, log, restart, start, status, stop, BootArgs, StartStep,
    StopStep, TaskKillOutcome, SIGNAL_ATTEMPTS,
};
use devicecheck::error::DaemonError;
use devicecheck::paths::{
    get_pid_path, get_pid_path_cross_platform, get_stderr_path_cross_platform,
    get_stdout_path_cross_platform, DaemonPaths, Platform,
};
use devicecheck::pidfile::{pid_from_text, read_pid, write_pid};
use devicecheck::privilege::{check_privilege, check_root};

fn lines(v: &[&str]) -> Vec<String> {
    v.iter().map(|s| s.to_string()).collect()
}

fn args_on(bind: &str) -> BootArgs {
    let mut a = BootArgs::default();
    a.bind = bind.to_string();
    a
}

#[test]
fn default_boot_args() {
    let a = BootArgs::default();
    assert!(!a.debug);
    assert_eq!(a.bind, "0.0.0.0:1080");
    assert_eq!(a.proxy, None);
    assert_eq!(a.cert, "ca/cert.crt");
    assert_eq!(a.key, "ca/key.pem");
}

#[test]
fn pid_text_is_trimmed() {
    assert_eq!(pid_from_text("  1234\n"), "1234");
    assert_eq!(pid_from_text("\u{3000}42\u{a0}\t"), "42");
    assert_eq!(pid_from_text(" \n "), "");
}

#[test]
fn write_then_read_pid() {
    let text = write_pid(4711);
    assert_eq!(text, "4711");
    assert_eq!(write_pid(0), "0");
    assert_eq!(write_pid(u32::MAX), "4294967295");
    let framed = format!(" \t{}\r\n", text);
    assert_eq!(read_pid(Some(framed.into_bytes())), Ok(Some("4711".to_string())));
}

#[test]
fn read_pid_without_file() {
    assert_eq!(read_pid(None), Ok(None));
}

#[test]
fn read_pid_rejects_non_text() {
    assert_eq!(read_pid(Some(vec![0x31, 0xff, 0x32])), Err(DaemonError::PidNotText));
}

#[test]
fn unix_paths_are_fixed() {
    assert_eq!(get_pid_path_cross_platform(Platform::Unix, "/tmp"), "/var/run/auth.pid");
    assert_eq!(get_stdout_path_cross_platform(Platform::Unix, "/tmp"), "/var/run/auth.out");
    assert_eq!(get_stderr_path_cross_platform(Platform::Unix, "/tmp"), "/var/run/auth.err");
}

#[test]
fn windows_paths_use_temp_dir() {
    assert_eq!(get_pid_path("/tmp"), "/tmp/devicecheck.pid");
    assert_eq!(get_pid_path("/tmp/"), "/tmp/devicecheck.pid");
    let p = DaemonPaths::resolve(Platform::Windows, "/var/tmp");
    assert_eq!(p.pid_file, "/var/tmp/devicecheck.pid");
    assert_eq!(p.stdout_log, "/var/tmp/devicecheck.out");
    assert_eq!(p.stderr_log, "/var/tmp/devicecheck.err");
}

#[test]
fn privilege_guard() {
    assert_eq!(check_privilege(Platform::Unix, 0), Ok(()));
    assert_eq!(check_privilege(Platform::Unix, 1000), Err(DaemonError::PermissionDenied));
    assert_eq!(check_privilege(Platform::Windows, 1000), Ok(()));
    assert_eq!(check_root(Platform::Windows), Ok(()));
}

#[test]
fn start_on_clean_system_then_again() {
    let first = start(args_on("0.0.0.0:1080"), Platform::Unix, Ok(()), None).unwrap();
    match first {
        StartStep::Daemonize(a) => assert_eq!(a.bind, "0.0.0.0:1080"),
        _ => panic!("expected to daemonize"),
    }
    let recorded = read_pid(Some(write_pid(1234).into_bytes())).unwrap();
    let second = start(args_on("0.0.0.0:1080"), Platform::Unix, Ok(()), recorded.clone()).unwrap();
    match second {
        StartStep::AlreadyRunning(pid) => assert_eq!(pid, "1234"),
        _ => panic!("expected already running"),
    }
    let mut step = stop(Platform::Unix, Ok(()), recorded).unwrap();
    assert_eq!(step, StopStep::Interrupt { pid: 1234, attempt: 0 });
    let mut sent = 0;
    while let StopStep::Interrupt { pid, attempt } = step {
        sent += 1;
        step = after_interrupt(pid, attempt, sent < 3);
    }
    assert_eq!(step, StopStep::RemovePidFile);
    assert_eq!(sent, 3);
}

#[test]
fn start_on_windows_runs_in_foreground() {
    assert!(matches!(
        start(BootArgs::default(), Platform::Windows, Ok(()), None),
        Ok(StartStep::Foreground(_))
    ));
}

#[test]
fn stop_without_pid_file() {
    assert_eq!(stop(Platform::Unix, Ok(()), None), Ok(StopStep::NotRunning));
    assert_eq!(stop(Platform::Windows, Ok(()), None), Ok(StopStep::NotRunning));
}

#[test]
fn stop_rejects_bad_pid() {
    assert_eq!(stop(Platform::Unix, Ok(()), Some("abc".to_string())), Err(DaemonError::InvalidPid));
    assert_eq!(stop(Platform::Unix, Ok(()), Some("2147483648".to_string())), Err(DaemonError::InvalidPid));
    assert_eq!(stop(Platform::Unix, Ok(()), Some("".to_string())), Err(DaemonError::InvalidPid));
    assert_eq!(stop(Platform::Windows, Ok(()), Some("-5".to_string())), Err(DaemonError::InvalidPid));
}

#[test]
fn stop_parses_signs() {
    assert_eq!(
        stop(Platform::Unix, Ok(()), Some("-5".to_string())),
        Ok(StopStep::Interrupt { pid: -5, attempt: 0 })
    );
    assert_eq!(stop(Platform::Windows, Ok(()), Some("+7".to_string())), Ok(StopStep::TaskKill(7)));
}

#[test]
fn stop_gives_up_after_all_attempts() {
    let mut step = stop(Platform::Unix, Ok(()), Some("99".to_string())).unwrap();
    let mut sent: u32 = 0;
    while let StopStep::Interrupt { pid, attempt } = step {
        sent += 1;
        step = after_interrupt(pid, attempt, true);
    }
    assert_eq!(step, StopStep::RemovePidFile);
    assert_eq!(sent, SIGNAL_ATTEMPTS);
    assert_eq!(sent, 360);
}

#[test]
fn task_kill_outcomes() {
    assert_eq!(after_task_kill(TaskKillOutcome::Succeeded), StopStep::RemovePidFile);
    assert_eq!(after_task_kill(TaskKillOutcome::Failed), StopStep::KeepPidFile);
    assert_eq!(after_task_kill(TaskKillOutcome::NotLaunched), StopStep::KeepPidFile);
}

#[test]
fn status_reports_pid() {
    assert_eq!(status(Some("77".to_string())), Ok("77".to_string()));
    assert_eq!(status(None), Err(DaemonError::NotRunning));
}

#[test]
fn restart_after_stop() {
    assert!(matches!(
        restart(BootArgs::default(), Platform::Unix, Ok(()), Ok(()), None),
        Ok(StartStep::Daemonize(_))
    ));
    assert!(matches!(
        restart(BootArgs::default(), Platform::Unix, Err(DaemonError::InvalidPid), Ok(()), None),
        Err(DaemonError::InvalidPid)
    ));
}

#[test]
fn log_both_streams() {
    let out = log(&lines(&["hello"]), &lines(&["oops"]));
    assert_eq!(out, lines(&["STDOUT>", "hello", "STDERR>", "oops"]));
}

#[test]
fn log_skips_empty_stream() {
    assert_eq!(log(&lines(&[]), &lines(&["e1", "e2"])), lines(&["STDERR>", "e1", "e2"]));
    assert_eq!(log(&lines(&["a"]), &lines(&[])), lines(&["STDOUT>", "a"]));
    assert!(log(&lines(&[]), &lines(&[])).is_empty());
}

#[test]
fn error_messages() {
    assert_eq!(DaemonError::NotRunning.message(), "devicecheck is not running");
    assert_eq!(
        DaemonError::PermissionDenied.message(),
        "You must run this executable with root permissions"
    );
}

#[test]
fn start_refused_without_privilege() {
    let denied: Result<(), DaemonError> = Err(DaemonError::PermissionDenied);
    assert!(matches!(
        start(BootArgs::default(), Platform::Unix, denied, None),
        Err(DaemonError::PermissionDenied)
    ));
    match start(BootArgs::default(), Platform::Unix, denied, Some("12".to_string())) {
        Ok(StartStep::AlreadyRunning(pid)) => assert_eq!(pid, "12"),
        _ => panic!("expected already running"),
    }
}

#[test]
fn stop_refused_without_privilege() {
    let denied: Result<(), DaemonError> = Err(DaemonError::PermissionDenied);
    assert_eq!(stop(Platform::Unix, denied, None), Err(DaemonError::PermissionDenied));
    assert_eq!(
        stop(Platform::Unix, denied, Some("12".to_string())),
        Err(DaemonError::PermissionDenied)
    );
}

#[test]
fn joined_paths_add_one_separator() {
    assert_eq!(get_pid_path(""), "devicecheck.pid");
    assert_eq!(get_pid_path("/"), "/devicecheck.pid");
    assert_eq!(get_pid_path("tmp"), "tmp/devicecheck.pid");
}

#[test]
fn all_error_messages() {
    assert_eq!(DaemonError::PidNotText.message(), "pid file is not utf8");
    assert_eq!(DaemonError::InvalidPid.message(), "pid file does not hold a process id");
}
