use librasp::control::Control;
use librasp::ebpf::{
    ChildStatus, EbpfMode, KillTarget, ReadEvent, ReadStep, WatchStep, READ_ATTEMPTS,
    READ_INTERVAL_SECS, RESPONSE_PATTERN, STARTUP_DELAY_SECS, WATCH_INTERVAL_SECS,
};
use librasp::error::CommError;
use librasp::host::{Command, Settings};
use procfs::sys::kernel::Version;

fn settings() -> Settings {
    Settings {
        ns_enter_bin: "/opt/agent/nsenter".to_string(),
        mount_script_bin: "/opt/agent/NSMount".to_string(),
        server_bin: "/opt/agent/rasp_server".to_string(),
        golang_ebpf_bin: "/opt/agent/golang_ebpf".to_string(),
    }
}

fn mode(major: u8, minor: u8, patch: u16) -> EbpfMode {
    EbpfMode {
        ctrl: Control::new(),
        kernel_version: Version::new(major, minor, patch),
        settings: settings(),
        polls: 0,
    }
}

fn parse(line: &str) -> Result<(i32, bool), CommError> {
    EbpfMode::parse_server_response(&line.to_string())
}

#[test]
fn constants_of_the_protocol() {
    assert_eq!(READ_ATTEMPTS, 10);
    assert_eq!(READ_INTERVAL_SECS, 1);
    assert_eq!(WATCH_INTERVAL_SECS, 10);
    assert_eq!(STARTUP_DELAY_SECS, 2);
    assert_eq!(RESPONSE_PATTERN, r"(\d{1,20}):(succeeded|failed)");
}

#[test]
fn kernel_5_8_0_gets_variant_5_8() {
    assert_eq!(mode(5, 8, 0).switch_bpf_main_process(), Ok("5.8".to_string()));
}

#[test]
fn kernel_5_3_0_gets_variant_5_2() {
    assert_eq!(mode(5, 3, 0).switch_bpf_main_process(), Ok("5.2".to_string()));
}

#[test]
fn kernel_4_15_0_gets_variant_4_14() {
    assert_eq!(mode(4, 15, 0).switch_bpf_main_process(), Ok("4.14".to_string()));
}

#[test]
fn kernel_4_10_0_is_not_supported() {
    assert_eq!(
        mode(4, 10, 0).switch_bpf_main_process(),
        Err(CommError::KernelNotSupported { major: 4, minor: 10 })
    );
}

#[test]
fn variant_brackets_are_closed_below() {
    assert_eq!(mode(4, 14, 0).switch_bpf_main_process(), Ok("4.14".to_string()));
    assert_eq!(mode(4, 15, 65535).switch_bpf_main_process(), Ok("4.14".to_string()));
    assert_eq!(mode(4, 16, 0).switch_bpf_main_process(), Ok("4.16".to_string()));
    assert_eq!(mode(4, 255, 65535).switch_bpf_main_process(), Ok("4.16".to_string()));
    assert_eq!(mode(5, 0, 0).switch_bpf_main_process(), Ok("4.16".to_string()));
    assert_eq!(mode(5, 1, 65535).switch_bpf_main_process(), Ok("4.16".to_string()));
    assert_eq!(mode(5, 2, 0).switch_bpf_main_process(), Ok("5.2".to_string()));
    assert_eq!(mode(5, 7, 65535).switch_bpf_main_process(), Ok("5.2".to_string()));
    assert_eq!(mode(5, 8, 0).switch_bpf_main_process(), Ok("5.8".to_string()));
    assert_eq!(mode(6, 0, 0).switch_bpf_main_process(), Ok("5.8".to_string()));
    assert_eq!(mode(255, 255, 65535).switch_bpf_main_process(), Ok("5.8".to_string()));
}

#[test]
fn kernels_before_4_14_are_not_supported() {
    assert_eq!(
        mode(4, 13, 65535).switch_bpf_main_process(),
        Err(CommError::KernelNotSupported { major: 4, minor: 13 })
    );
    assert_eq!(
        mode(3, 200, 0).switch_bpf_main_process(),
        Err(CommError::KernelNotSupported { major: 3, minor: 200 })
    );
    assert_eq!(
        mode(0, 0, 0).switch_bpf_main_process(),
        Err(CommError::KernelNotSupported { major: 0, minor: 0 })
    );
}

#[test]
fn detect_kernel_version_reads_a_release_string() {
    assert_eq!(EbpfMode::detect_kernel_version("5.8.0"), Ok(Version::new(5, 8, 0)));
    assert_eq!(EbpfMode::detect_kernel_version("5.4.143-generic"), Ok(Version::new(5, 4, 143)));
    assert_eq!(EbpfMode::detect_kernel_version("3.16.0-6-amd64"), Ok(Version::new(3, 16, 0)));
}

#[test]
fn detect_kernel_version_refuses_what_is_no_version() {
    assert_eq!(
        EbpfMode::detect_kernel_version("linux"),
        Err(CommError::KernelVersion { release: "linux".to_string() })
    );
    assert_eq!(
        EbpfMode::detect_kernel_version("5.8"),
        Err(CommError::KernelVersion { release: "5.8".to_string() })
    );
    assert_eq!(
        EbpfMode::detect_kernel_version(""),
        Err(CommError::KernelVersion { release: String::new() })
    );
}

#[test]
fn ebpf_mode_new_checks_the_kernel() {
    let m = EbpfMode::new(Control::new(), "5.10.0-21-amd64", settings()).unwrap();
    assert_eq!(m.kernel_version, Version::new(5, 10, 0));
    assert_eq!(m.settings, settings());
    assert_eq!(m.polls, 0);
    assert!(matches!(
        EbpfMode::new(Control::new(), "4.9.0-8-amd64", settings()),
        Err(CommError::KernelNotSupported { major: 4, minor: 9 })
    ));
    assert!(matches!(
        EbpfMode::new(Control::new(), "unknown", settings()),
        Err(CommError::KernelVersion { .. })
    ));
}

#[test]
fn start_server_names_the_daemon_of_the_variant() {
    let mut m = mode(5, 4, 0);
    m.polls = 7;
    assert_eq!(
        m.start_server(),
        Ok(Command { program: "/opt/agent/golang_ebpf_5.2".to_string(), args: vec![] })
    );
    assert_eq!(m.polls, 0);
    let mut old = mode(4, 4, 0);
    assert_eq!(old.start_server(), Err(CommError::KernelNotSupported { major: 4, minor: 4 }));
}

#[test]
fn golang_ebpf_appends_the_variant() {
    assert_eq!(settings().golang_ebpf("4.16"), "/opt/agent/golang_ebpf_4.16");
}

#[test]
fn response_succeeded_is_parsed() {
    assert_eq!(parse("1234:succeeded\n"), Ok((1234, true)));
}

#[test]
fn response_failed_is_parsed() {
    assert_eq!(parse("1234:failed\n"), Ok((1234, false)));
}

#[test]
fn response_without_digits_is_refused() {
    assert_eq!(
        parse("abc:succeeded"),
        Err(CommError::ResponseNotFound { response: "abc:succeeded".to_string() })
    );
}

#[test]
fn response_with_unknown_outcome_is_refused() {
    assert_eq!(
        parse("1234:unknown"),
        Err(CommError::ResponseNotFound { response: "1234:unknown".to_string() })
    );
}

#[test]
fn response_is_found_anywhere_in_the_line() {
    assert_eq!(parse("attach 77:failed (no such process)"), Ok((77, false)));
    assert_eq!(parse("x:failed 5:succeeded 6:failed"), Ok((5, true)));
    assert_eq!(parse("0:succeeded"), Ok((0, true)));
    assert_eq!(parse("00012:succeeded"), Ok((12, true)));
}

#[test]
fn response_needs_the_whole_outcome_word() {
    assert_eq!(
        parse("1234:succeed"),
        Err(CommError::ResponseNotFound { response: "1234:succeed".to_string() })
    );
    assert_eq!(parse(""), Err(CommError::ResponseNotFound { response: String::new() }));
    assert_eq!(
        parse("1234 succeeded"),
        Err(CommError::ResponseNotFound { response: "1234 succeeded".to_string() })
    );
}

#[test]
fn response_pid_must_fit() {
    assert_eq!(parse("2147483647:failed"), Ok((2147483647, false)));
    assert_eq!(
        parse("2147483648:failed"),
        Err(CommError::ResponsePid { digits: "2147483648".to_string() })
    );
    assert_eq!(
        parse("99999999999999999999:succeeded"),
        Err(CommError::ResponsePid { digits: "99999999999999999999".to_string() })
    );
    assert_eq!(
        parse("١٢٣:succeeded"),
        Err(CommError::ResponsePid { digits: "١٢٣".to_string() })
    );
}

#[test]
fn response_takes_the_last_twenty_digits() {
    assert_eq!(parse("1111100000000000000000042:succeeded"), Ok((42, true)));
}

#[test]
fn interpret_captures_reads_the_groups() {
    let line = "9:failed".to_string();
    let groups = Some(vec![
        Some("9:failed".to_string()),
        Some("9".to_string()),
        Some("failed".to_string()),
    ]);
    assert_eq!(EbpfMode::interpret_captures(&groups, &line), Ok((9, false)));
    let groups = Some(vec![
        Some("9:succeeded".to_string()),
        Some("9".to_string()),
        Some("succeeded".to_string()),
    ]);
    assert_eq!(EbpfMode::interpret_captures(&groups, &line), Ok((9, true)));
}

#[test]
fn interpret_captures_refuses_odd_groups() {
    let line = "line".to_string();
    let format = Err(CommError::ResponseFormat { response: "line".to_string() });
    assert_eq!(
        EbpfMode::interpret_captures(&None, &line),
        Err(CommError::ResponseNotFound { response: "line".to_string() })
    );
    assert_eq!(EbpfMode::interpret_captures(&Some(vec![]), &line), format);
    let two = Some(vec![Some("9:failed".to_string()), Some("9".to_string())]);
    assert_eq!(EbpfMode::interpret_captures(&two, &line), format);
    let four = Some(vec![
        Some("9:failed".to_string()),
        Some("9".to_string()),
        Some("failed".to_string()),
        None,
    ]);
    assert_eq!(EbpfMode::interpret_captures(&four, &line), format);
    let no_pid = Some(vec![Some("9:failed".to_string()), None, Some("failed".to_string())]);
    assert_eq!(EbpfMode::interpret_captures(&no_pid, &line), format);
    let no_outcome = Some(vec![Some("9:failed".to_string()), Some("9".to_string()), None]);
    assert_eq!(EbpfMode::interpret_captures(&no_outcome, &line), format);
    let odd_outcome = Some(vec![
        Some("9:done".to_string()),
        Some("9".to_string()),
        Some("done".to_string()),
    ]);
    assert_eq!(EbpfMode::interpret_captures(&odd_outcome, &line), format);
    let bad_pid = Some(vec![None, Some("x9".to_string()), Some("done".to_string())]);
    assert_eq!(
        EbpfMode::interpret_captures(&bad_pid, &line),
        Err(CommError::ResponsePid { digits: "x9".to_string() })
    );
}

#[test]
fn write_stdin_gives_the_request_line() {
    let m = mode(5, 8, 0);
    assert_eq!(m.write_stdin(1234), "1234\n");
    assert_eq!(m.write_stdin(0), "0\n");
    assert_eq!(m.write_stdin(-1), "-1\n");
    assert_eq!(m.write_stdin(i32::MAX), "2147483647\n");
}

#[test]
fn judge_line_reads_the_verdict() {
    assert_eq!(EbpfMode::judge_line(5, "5:succeeded\n", Ok((5, true))), Ok(String::new()));
    assert_eq!(
        EbpfMode::judge_line(5, "5:failed\n", Ok((5, false))),
        Ok("target pid: 5 attach failed".to_string())
    );
    assert_eq!(
        EbpfMode::judge_line(-5, "line", Ok((-5, false))),
        Ok("target pid: -5 attach failed".to_string())
    );
    assert_eq!(
        EbpfMode::judge_line(5, "6:succeeded\n", Ok((6, true))),
        Err(CommError::PidMismatch { expect: 5, answered: 6 })
    );
    assert_eq!(EbpfMode::judge_line(5, "", Ok((5, true))), Err(CommError::ReadEof));
    assert_eq!(EbpfMode::judge_line(5, "", Err(CommError::Pattern)), Err(CommError::ReadEof));
    assert_eq!(EbpfMode::judge_line(5, "abc", Err(CommError::Pattern)), Err(CommError::Pattern));
}

#[test]
fn silent_daemon_times_out_after_ten_polls() {
    let mut m = mode(5, 8, 0);
    let mut polls = 0;
    let mut slept = 0;
    let mut step = m.read_stdout(42, ReadEvent::Begin);
    let result = loop {
        match step {
            ReadStep::Poll => {
                polls += 1;
                step = m.read_stdout(42, ReadEvent::Buffered { len: 0 });
            }
            ReadStep::Sleep { secs } => {
                slept += secs;
                step = m.read_stdout(42, ReadEvent::Slept);
            }
            ReadStep::ReadLine => panic!("nothing to read"),
            ReadStep::Done(result) => break result,
        }
        assert!(polls + slept < 100);
    };
    assert_eq!(result, Err(CommError::ReadTimeout { pid: 42 }));
    assert_eq!(polls, 10);
    assert_eq!(slept, 10);
}

#[test]
fn late_answer_is_still_read() {
    let mut m = mode(5, 8, 0);
    assert_eq!(m.read_stdout(42, ReadEvent::Begin), ReadStep::Poll);
    for _ in 0..9 {
        assert_eq!(m.read_stdout(42, ReadEvent::Buffered { len: 0 }), ReadStep::Sleep { secs: 1 });
        assert_eq!(m.read_stdout(42, ReadEvent::Slept), ReadStep::Poll);
    }
    assert_eq!(m.polls, 10);
    assert_eq!(m.read_stdout(42, ReadEvent::Buffered { len: 13 }), ReadStep::ReadLine);
    assert_eq!(
        m.read_stdout(42, ReadEvent::Line { text: "42:succeeded\n".to_string() }),
        ReadStep::Done(Ok(String::new()))
    );
}

#[test]
fn begin_starts_the_count_again() {
    let mut m = mode(5, 8, 0);
    m.polls = 10;
    assert_eq!(
        m.read_stdout(1, ReadEvent::Slept),
        ReadStep::Done(Err(CommError::ReadTimeout { pid: 1 }))
    );
    assert_eq!(m.read_stdout(1, ReadEvent::Begin), ReadStep::Poll);
    assert_eq!(m.polls, 1);
    assert_eq!(m.read_stdout(1, ReadEvent::Slept), ReadStep::Poll);
    assert_eq!(m.polls, 2);
}

#[test]
fn read_stdout_judges_the_line() {
    let mut m = mode(5, 8, 0);
    assert_eq!(
        m.read_stdout(7, ReadEvent::Line { text: "7:failed\n".to_string() }),
        ReadStep::Done(Ok("target pid: 7 attach failed".to_string()))
    );
    assert_eq!(
        m.read_stdout(7, ReadEvent::Line { text: "8:failed\n".to_string() }),
        ReadStep::Done(Err(CommError::PidMismatch { expect: 7, answered: 8 }))
    );
    assert_eq!(
        m.read_stdout(7, ReadEvent::Line { text: String::new() }),
        ReadStep::Done(Err(CommError::ReadEof))
    );
    assert_eq!(
        m.read_stdout(7, ReadEvent::Line { text: "hello\n".to_string() }),
        ReadStep::Done(Err(CommError::ResponseNotFound { response: "hello\n".to_string() }))
    );
    assert_eq!(
        m.read_stdout(7, ReadEvent::Failed { reason: "broken pipe".to_string() }),
        ReadStep::Done(Err(CommError::Io { reason: "broken pipe".to_string() }))
    );
}

#[test]
fn attach_reports_the_daemon_verdict() {
    let mut m = mode(5, 8, 0);
    assert_eq!(m.attach(7, Ok(String::new())), Ok(true));
    assert_eq!(m.attach(7, Ok("target pid: 7 attach failed".to_string())), Ok(false));
    assert!(m.ctrl.check());
}

#[test]
fn attach_stops_the_agent_when_the_daemon_is_broken() {
    let fatal = vec![
        CommError::Io { reason: "broken pipe".to_string() },
        CommError::ReadEof,
        CommError::ReadTimeout { pid: 7 },
        CommError::PidMismatch { expect: 7, answered: 8 },
        CommError::NoStdout,
    ];
    for e in fatal {
        let mut m = mode(5, 8, 0);
        let mut observer = m.ctrl.clone();
        let expected = format!("{:?}", e);
        assert!(e.is_fatal());
        let res = m.attach(7, Err(e));
        assert_eq!(format!("{:?}", res.unwrap_err()), expected);
        assert!(!observer.check());
        assert!(!m.ctrl.check());
    }
}

#[test]
fn attach_hands_on_what_concerns_one_request() {
    let soft = vec![
        CommError::ResponseNotFound { response: "x".to_string() },
        CommError::ResponseFormat { response: "x".to_string() },
        CommError::ResponsePid { digits: "99999999999".to_string() },
        CommError::Pattern,
        CommError::WriteFailed { reason: "closed".to_string() },
    ];
    for e in soft {
        let mut m = mode(5, 8, 0);
        let expected = format!("{:?}", e);
        assert!(!e.is_fatal());
        let res = m.attach(7, Err(e));
        assert_eq!(format!("{:?}", res.unwrap_err()), expected);
        assert!(m.ctrl.check());
    }
}

#[test]
fn watchdog_follows_its_rule() {
    assert_eq!(EbpfMode::watch(false, ChildStatus::Running), WatchStep::Kill);
    assert_eq!(EbpfMode::watch(false, ChildStatus::Exited), WatchStep::Kill);
    assert_eq!(EbpfMode::watch(false, ChildStatus::WaitFailed), WatchStep::Kill);
    assert_eq!(EbpfMode::watch(true, ChildStatus::Running), WatchStep::Sleep { secs: 10 });
    assert_eq!(EbpfMode::watch(true, ChildStatus::Exited), WatchStep::Stop);
    assert_eq!(EbpfMode::watch(true, ChildStatus::WaitFailed), WatchStep::Kill);
}

#[test]
fn kill_server_names_group_then_process() {
    assert_eq!(EbpfMode::kill_server(4711), (KillTarget::Group(4711), KillTarget::Process(4711)));
}
