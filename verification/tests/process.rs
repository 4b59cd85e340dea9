use wstunnel_manager::backend::process::{
    classify_spawn_error, file_stamp, is_disk_full, line_stamp, log_file_name, log_line,
    new_log_file_name, parse_cli_args, sanitize_filename, Monitor, MonitorAction, MonitorEvent,
    OutputStream, ProcessInstance, SpawnError, StderrTail, STDERR_TAIL_LIMIT,
};
use wstunnel_manager::backend::types::{ProcessId, Timestamp, TunnelId};

#[test]
fn unsafe_characters_become_underscores() {
    assert_eq!(sanitize_filename("a/b\\c:d*e?f\"g<h>i|j"), "a_b_c_d_e_f_g_h_i_j");
    assert_eq!(sanitize_filename("tab\there"), "tab_here");
    assert_eq!(sanitize_filename("bell\u{7}del\u{7f}c1\u{85}"), "bell_del_c1_");
    assert_eq!(sanitize_filename("plain-name_1.0"), "plain-name_1.0");
}

#[test]
fn sanitized_names_are_trimmed() {
    assert_eq!(sanitize_filename("  my tunnel  "), "my tunnel");
    assert_eq!(sanitize_filename("   "), "");
    assert_eq!(sanitize_filename(""), "");
    assert_eq!(sanitize_filename("\u{3000}x\u{a0}"), "x");
    assert_eq!(sanitize_filename("\n x"), "_ x");
}

#[test]
fn arguments_are_split_at_whitespace() {
    assert_eq!(parse_cli_args("client ws://x"), vec!["client", "ws://x"]);
    assert_eq!(parse_cli_args("  a   b  "), vec!["a", "b"]);
    assert_eq!(parse_cli_args("a\tb\nc"), vec!["a", "b", "c"]);
    assert!(parse_cli_args("").is_empty());
    assert!(parse_cli_args("   ").is_empty());
}

#[test]
fn quotes_protect_whitespace_and_are_dropped() {
    assert_eq!(
        parse_cli_args("client --header \"X-Key: a b\" ws://x"),
        vec!["client", "--header", "X-Key: a b", "ws://x"]
    );
    assert_eq!(parse_cli_args("a\"b c\"d"), vec!["ab cd"]);
    assert_eq!(parse_cli_args("a \"\" b"), vec!["a", "b"]);
    assert_eq!(parse_cli_args("\"unterminated x y"), vec!["unterminated x y"]);
    assert_eq!(parse_cli_args("\" \""), vec![" "]);
}

#[test]
fn log_file_names() {
    let id = TunnelId(0xa1a2a3a4b1b2c1c2d1d2d3d4d5d6d7d8);
    assert_eq!(
        log_file_name("my/tunnel", id, ProcessId(4242), "20240131_235959"),
        "my_tunnel-4242-20240131_235959.log"
    );
    assert_eq!(
        log_file_name("", id, ProcessId(7), "20240131_235959"),
        "TunnelId(a1a2a3a4-b1b2-c1c2-d1d2-d3d4d5d6d7d8)-7-20240131_235959.log"
    );
    assert_eq!(
        log_file_name("   ", id, ProcessId(7), "s"),
        "-7-s.log"
    );
}

#[test]
fn new_log_file_names_carry_a_local_stamp() {
    let id = TunnelId::new();
    let name = new_log_file_name("t1", id, ProcessId(99));
    assert!(name.starts_with("t1-99-"));
    assert!(name.ends_with(".log"));
    let stamp = &name["t1-99-".len()..name.len() - ".log".len()];
    assert_eq!(stamp.len(), 15);
    assert_eq!(stamp.as_bytes()[8], b'_');
    assert!(stamp
        .chars()
        .enumerate()
        .all(|(i, c)| i == 8 || c.is_ascii_digit()));
}

#[test]
fn log_lines() {
    assert_eq!(
        log_line("2024-01-31T23:59:59.123Z", OutputStream::Stdout, "hello"),
        "[2024-01-31T23:59:59.123Z] [STDOUT] hello\n"
    );
    assert_eq!(
        log_line("t", OutputStream::Stderr, ""),
        "[t] [STDERR] \n"
    );
}

#[test]
fn tail_keeps_lines_until_the_limit() {
    let mut tail = StderrTail::new();
    assert_eq!(tail.contents(), "");
    tail.push_line("first");
    tail.push_line("second");
    assert_eq!(tail.contents(), "first\nsecond\n");
}

#[test]
fn tail_drops_the_oldest_content() {
    assert_eq!(STDERR_TAIL_LIMIT, 4096);
    let mut tail = StderrTail::new();
    tail.push_line(&"a".repeat(4095));
    assert_eq!(tail.contents().len(), 4096);
    tail.push_line("bc");
    let text = tail.contents();
    assert_eq!(text.len(), 4096);
    assert!(text.ends_with("a\nbc\n"));
    assert!(text.starts_with("aaa"));
    assert_eq!(text.matches('a').count(), 4096 - 4);
}

#[test]
fn tail_measures_bytes_and_cuts_characters() {
    let mut tail = StderrTail::new();
    tail.push_line(&"é".repeat(3000));
    // 6001 bytes, 3001 characters: over the limit in bytes, under it in characters.
    assert_eq!(tail.contents().chars().count(), 3001);
    tail.push_line(&"é".repeat(2000));
    let text = tail.contents();
    assert_eq!(text.chars().count(), 4096);
    assert!(text.ends_with("é\n"));
}

#[test]
fn disk_full_is_told_from_the_words() {
    assert!(is_disk_full("No space left on device (os error 28)"));
    assert!(is_disk_full("write failed: disk full"));
    assert!(!is_disk_full("Permission denied"));
    assert!(!is_disk_full(""));
}

#[test]
fn spawn_failures_are_classified_in_order() {
    let kind = classify_spawn_error("No such file or directory (os error 2)", "/bin/w");
    assert!(matches!(&kind, SpawnError::BinaryNotFound { path } if path == "/bin/w"));
    assert_eq!(
        kind.message(),
        "wstunnel binary not found at /bin/w. Please verify the binary path."
    );
    let kind = classify_spawn_error("The system cannot find the path specified.", "w.exe");
    assert!(matches!(kind, SpawnError::BinaryNotFound { .. }));
    let kind = classify_spawn_error("Permission denied (os error 13)", "/bin/w");
    assert!(matches!(&kind, SpawnError::PermissionDenied { path } if path == "/bin/w"));
    assert_eq!(
        kind.message(),
        "Permission denied executing wstunnel binary at /bin/w. Check file permissions."
    );
    let kind = classify_spawn_error("Address already in use", "/bin/w");
    assert!(matches!(kind, SpawnError::PortInUse));
    assert_eq!(
        kind.message(),
        "Port is already in use. The tunnel may be using a port that is already bound."
    );
    let kind = classify_spawn_error("exec format error", "/bin/w");
    assert!(matches!(&kind, SpawnError::Other { reason } if reason == "exec format error"));
    assert_eq!(
        kind.message(),
        "Failed to spawn wstunnel process: exec format error"
    );
    let kind = classify_spawn_error("Permission denied: No such file or directory", "/bin/w");
    assert!(matches!(kind, SpawnError::BinaryNotFound { .. }));
}

#[test]
fn other_spawn_messages() {
    assert_eq!(SpawnError::NoPid.message(), "Failed to get process ID");
    assert_eq!(SpawnError::LogDirectory.message(), "Failed to create log directory");
    assert_eq!(SpawnError::LogFile.message(), "Failed to create log file");
    assert_eq!(SpawnError::CaptureStdout.message(), "Failed to capture stdout");
    assert_eq!(SpawnError::CaptureStderr.message(), "Failed to capture stderr");
}

#[test]
fn process_records() {
    let id = TunnelId::new();
    let token = tokio_util::sync::CancellationToken::new();
    let instance = ProcessInstance::new(id, ProcessId(5), "a.log".to_string(), token.clone());
    assert_eq!(instance.pid(), Some(ProcessId(5)));
    assert_eq!(instance.tunnel_id, id);
    assert_eq!(instance.log_path, "a.log");
    assert_eq!(instance.exit_code, None);
    let starting = ProcessInstance::starting(id, token);
    assert_eq!(starting.pid(), None);
    assert_eq!(starting.log_path, "");
}

#[test]
fn monitor_writes_lines_and_keeps_error_output() {
    let mut monitor = Monitor::new();
    let mut tail = StderrTail::new();
    let action = monitor.on_event(
        MonitorEvent::Line {
            stream: OutputStream::Stdout,
            line: "out".to_string(),
        },
        &mut tail,
        "a.log",
    );
    match action {
        MonitorAction::Write { text } => {
            assert!(text.starts_with('['));
            assert!(text.ends_with("] [STDOUT] out\n"));
        }
        other => panic!("unexpected action: {:?}", other),
    }
    assert_eq!(tail.contents(), "");
    let action = monitor.on_event(
        MonitorEvent::Line {
            stream: OutputStream::Stderr,
            line: "err".to_string(),
        },
        &mut tail,
        "a.log",
    );
    assert!(matches!(action, MonitorAction::Write { ref text } if text.ends_with("] [STDERR] err\n")));
    assert_eq!(tail.contents(), "err\n");
    assert!(monitor.watches(OutputStream::Stdout));
    assert!(!monitor.finished);
}

#[test]
fn monitor_ends_on_cancellation_and_on_the_end_of_a_stream() {
    let mut tail = StderrTail::new();
    let mut monitor = Monitor::new();
    let action = monitor.on_event(MonitorEvent::Cancelled, &mut tail, "a.log");
    assert!(matches!(action, MonitorAction::Finish { report: None }));
    assert!(monitor.finished);
    let action = monitor.on_event(
        MonitorEvent::Line {
            stream: OutputStream::Stderr,
            line: "late".to_string(),
        },
        &mut tail,
        "a.log",
    );
    assert!(matches!(action, MonitorAction::Finish { report: None }));
    assert_eq!(tail.contents(), "");
    assert!(!monitor.watches(OutputStream::Stdout));

    let mut monitor = Monitor::new();
    let action = monitor.on_event(
        MonitorEvent::Closed {
            stream: OutputStream::Stdout,
        },
        &mut tail,
        "a.log",
    );
    assert!(matches!(action, MonitorAction::Finish { report: None }));
}

#[test]
fn monitor_gives_up_a_stream_that_cannot_be_read() {
    let mut tail = StderrTail::new();
    let mut monitor = Monitor::new();
    let action = monitor.on_event(
        MonitorEvent::ReadFailed {
            stream: OutputStream::Stdout,
            error: "broken pipe".to_string(),
        },
        &mut tail,
        "a.log",
    );
    assert!(matches!(action, MonitorAction::Continue));
    assert!(!monitor.watches(OutputStream::Stdout));
    assert!(monitor.watches(OutputStream::Stderr));
    let action = monitor.on_event(
        MonitorEvent::ReadFailed {
            stream: OutputStream::Stderr,
            error: "broken pipe".to_string(),
        },
        &mut tail,
        "a.log",
    );
    assert!(matches!(action, MonitorAction::Finish { report: None }));
    assert!(monitor.finished);
}

#[test]
fn monitor_reports_a_log_that_cannot_be_written() {
    let mut tail = StderrTail::new();
    let mut monitor = Monitor::new();
    let action = monitor.on_event(
        MonitorEvent::WriteFailed {
            stream: OutputStream::Stdout,
            error: "No space left on device".to_string(),
        },
        &mut tail,
        "logs/a.log",
    );
    assert!(matches!(
        action,
        MonitorAction::Finish { report: Some(ref note) }
            if note == "Disk full - cannot write to log file: logs/a.log"
    ));
    let mut monitor = Monitor::new();
    let action = monitor.on_event(
        MonitorEvent::WriteFailed {
            stream: OutputStream::Stderr,
            error: "bad descriptor".to_string(),
        },
        &mut tail,
        "logs/a.log",
    );
    assert!(matches!(
        action,
        MonitorAction::Finish { report: Some(ref note) }
            if note == "Failed to write stderr to log: bad descriptor"
    ));
    let mut monitor = Monitor::new();
    let action = monitor.on_event(
        MonitorEvent::WriteFailed {
            stream: OutputStream::Stdout,
            error: "bad descriptor".to_string(),
        },
        &mut tail,
        "logs/a.log",
    );
    assert!(matches!(
        action,
        MonitorAction::Finish { report: Some(ref note) }
            if note == "Failed to write stdout to log: bad descriptor"
    ));
}

#[test]
fn stamps_are_local_times_of_the_instant_given() {
    let at = Timestamp::from_parts(1_700_000_000, 123_456_789).unwrap();
    let stamp = file_stamp(&at);
    assert_eq!(stamp.len(), 15);
    assert_eq!(stamp.as_bytes()[8], b'_');
    assert!(stamp.starts_with("2023111"));
    let stamp = line_stamp(&at);
    assert!(stamp.starts_with("2023-11-1"));
    assert!(stamp.contains(".123"));
    assert_eq!(stamp.as_bytes()[10], b'T');
    let epoch = Timestamp::from_parts(0, 0).unwrap();
    assert_eq!(file_stamp(&epoch).len(), 15);
}

#[test]
fn stamps_are_what_the_local_calendar_prints() {
    let instants: [(u64, u32); 4] = [
        (0, 0),
        (1_700_000_000, 123_456_789),
        (1_518_563_312, 999_999_999),
        (253_402_300_799, 1),
    ];
    for (secs, nanos) in instants {
        let at = Timestamp::from_parts(secs, nanos).unwrap();
        let local = chrono::DateTime::from_timestamp(secs as i64, nanos)
            .unwrap()
            .with_timezone(&chrono::Local);
        assert_eq!(file_stamp(&at), local.format("%Y%m%d_%H%M%S").to_string());
        assert_eq!(
            line_stamp(&at),
            local.to_rfc3339_opts(chrono::SecondsFormat::Millis, true)
        );
    }
}

#[test]
fn instants_without_a_local_time_are_stamped_with_their_seconds() {
    let late = Timestamp::from_parts(253_402_300_800, 5).unwrap();
    assert_eq!(file_stamp(&late), "253402300800");
    assert_eq!(line_stamp(&late), "253402300800");
    let latest = Timestamp::from_parts(u64::MAX, 0).unwrap();
    assert_eq!(file_stamp(&latest), u64::MAX.to_string());
    assert_eq!(line_stamp(&latest), u64::MAX.to_string());
}

#[test]
fn the_tail_is_the_end_of_all_that_was_pushed() {
    let mut tail = StderrTail::new();
    let mut all = String::new();
    for i in 0..400 {
        let line = format!("line {} {}", i, "é".repeat(i % 37));
        tail.push_line(&line);
        all.push_str(&line);
        all.push('\n');
        let kept = tail.contents();
        assert!(all.ends_with(&kept));
        assert!(kept.chars().count() <= STDERR_TAIL_LIMIT);
    }
    assert!(tail.contents().chars().count() > 3000);
    assert!(tail.contents().ends_with("line 399 ééééééééééééééééééééééééééééé\n"));
}
