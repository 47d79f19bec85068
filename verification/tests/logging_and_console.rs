use obc::console::{
    parse_console_line, read_command_line, sequence_after, step_after_wait, ConsoleInput, LineOutcome, LoopStep,
    WaitEvent,
};
use obc::errors::PacketError;
use obc::logger::{
    error_at, error_log_lines, format_timestamp, info, log, log_at, log_file_only, log_line, log_with_offset,
    stamp_for_offset, stamp_or_epoch, warn_at,
};

fn chars(s: &str) -> Vec<char> {
    s.chars().collect()
}

fn shaped(t: &str) -> bool {
    let c: Vec<char> = t.chars().collect();
    let n = c.len();
    n >= 19 && c[2] == '/' && c[5] == '/' && c[n - 9] == '_' && c[n - 6] == ':' && c[n - 3] == ':'
}

#[test]
fn timestamps_have_the_stamp_shape() {
    let t = format_timestamp(1_700_000_000_000);
    assert!(shaped(&t), "{t}");
    assert_ne!(t, "1700000000000");
    assert_ne!(t, "01/01/1970_00:00:00");
    assert!(shaped(&format_timestamp(0)));
}

#[test]
fn out_of_range_instant_gets_epoch_stamp() {
    assert_eq!(format_timestamp(i64::MAX as u64), "01/01/1970_00:00:00");
    assert_eq!(stamp_or_epoch(None), "01/01/1970_00:00:00");
    assert_eq!(stamp_or_epoch(Some("x".to_string())), "x");
}

#[test]
fn log_line_layout() {
    assert_eq!(log_line("01/02/2024_10:00:00", "WARN", "hello"), "[01/02/2024_10:00:00] [WARN] hello");
    let l = info("Mode=Normal", 0);
    assert!(l.starts_with('['));
    assert!(l.ends_with("] [INFO] Mode=Normal"));
    let at = warn_at("Radio disabled", 1_000);
    assert_eq!(at.console, "[WARN] Radio disabled");
    assert!(at.file.ends_with("] [WARN] Radio disabled"));
    let e = log_at("ERROR", "boom", i64::MAX as u64);
    assert_eq!(e.file, "[01/01/1970_00:00:00] [ERROR] boom");
}

#[test]
fn stamps_at_a_fixed_offset() {
    assert_eq!(stamp_for_offset(0, Some(0)), "01/01/1970_00:00:00");
    assert_eq!(stamp_for_offset(0, Some(3600)), "01/01/1970_01:00:00");
    assert_eq!(stamp_for_offset(1_700_000_000_000, Some(0)), "14/11/2023_22:13:20");
    assert_eq!(stamp_for_offset(1_700_000_000_000, Some(-7200)), "14/11/2023_20:13:20");
    assert_eq!(stamp_for_offset(1_700_000_000_000, None), "01/01/1970_00:00:00");
    assert_eq!(stamp_for_offset(1_700_000_000_000, Some(86_400)), "01/01/1970_00:00:00");
    assert_eq!(stamp_for_offset(i64::MAX as u64, Some(0)), "01/01/1970_00:00:00");
}

#[test]
fn log_lines_at_a_fixed_offset() {
    assert_eq!(
        log_with_offset("ERROR", "boom", 1_700_000_000_000, Some(0)),
        "[14/11/2023_22:13:20] [ERROR] boom"
    );
    assert_eq!(log_with_offset("INFO", "up", 0, Some(19_800)), "[01/01/1970_05:30:00] [INFO] up");
}

#[test]
fn file_only_and_level_helpers_write_the_generic_line() {
    let ts = 1_700_000_000_000;
    assert_eq!(log_file_only("INFO", "x", ts), log("INFO", "x", ts));
    let e = error_at("Battery low", ts);
    let g = log_at("ERROR", "Battery low", ts);
    assert_eq!(e.console, g.console);
    assert_eq!(e.file, g.file);
    assert_eq!(format!("[{}] [ERROR] Battery low", format_timestamp(ts)), e.file);
}

#[test]
fn error_dump_selects_warnings_and_errors() {
    let logs = chars("[t] [INFO] a\n[t] [WARN] b\r\n[t] [ERROR] c\n[t] [INFO] [WARN]ish\nplain");
    let lines: Vec<String> = error_log_lines(&logs).into_iter().map(|l| l.into_iter().collect()).collect();
    assert_eq!(lines, vec!["[t] [WARN] b", "[t] [ERROR] c", "[t] [INFO] [WARN]ish"]);
}

#[test]
fn console_lines() {
    assert!(matches!(parse_console_line(&chars("   \t")), ConsoleInput::Blank));
    match parse_console_line(&chars(" 01 01\t00 ")) {
        ConsoleInput::Bytes(b) => assert_eq!(b, vec![0x01, 0x01, 0x00]),
        _ => panic!("expected bytes"),
    }
    match parse_console_line(&chars("+ff 0A 000b")) {
        ConsoleInput::Bytes(b) => assert_eq!(b, vec![0xff, 0x0a, 0x0b]),
        _ => panic!("expected bytes"),
    }
    assert!(matches!(parse_console_line(&chars("01 100")), ConsoleInput::Rejected));
    assert!(matches!(parse_console_line(&chars("01 zz")), ConsoleInput::Rejected));
    assert!(matches!(parse_console_line(&chars("+")), ConsoleInput::Rejected));
    assert!(matches!(parse_console_line(&chars("-1")), ConsoleInput::Rejected));
    assert!(matches!(parse_console_line(&chars("shutdown")), ConsoleInput::Rejected));
}

#[test]
fn command_lines_become_packets() {
    let out = read_command_line(&chars("  01 01 01 \n"), 9, 77);
    match &out {
        LineOutcome::Accepted(p, text) => {
            assert_eq!(p.seq, 9);
            assert_eq!(p.timestamp, 77);
            assert_eq!(p.tlvs[0].val, vec![0x01]);
            assert_eq!(text.iter().collect::<String>(), "01 01 01");
        }
        _ => panic!("expected a packet"),
    }
    assert_eq!(sequence_after(9, &out), 10);
    let refused = read_command_line(&chars("99 00"), u32::MAX, 0);
    assert!(matches!(refused, LineOutcome::Refused(PacketError::UnknownType)));
    assert_eq!(sequence_after(u32::MAX, &refused), 0);
    let blank = read_command_line(&chars("\n"), 4, 0);
    assert!(matches!(blank, LineOutcome::Blank));
    assert_eq!(sequence_after(4, &blank), 4);
    let not_hex = read_command_line(&chars("hello"), 4, 0);
    assert!(matches!(not_hex, LineOutcome::NotHex));
    assert_eq!(sequence_after(4, &not_hex), 4);
}

#[test]
fn runtime_loop_steps() {
    assert!(matches!(step_after_wait(&WaitEvent::Quiet), LoopStep::SaveAndContinue));
    assert!(matches!(step_after_wait(&WaitEvent::Closed), LoopStep::Stop));
    assert!(matches!(step_after_wait(&WaitEvent::Blank), LoopStep::SaveAndContinue));
    assert!(matches!(step_after_wait(&WaitEvent::NotHex), LoopStep::Continue));
    assert!(matches!(step_after_wait(&WaitEvent::Refused), LoopStep::SaveAndContinue));
    assert!(matches!(step_after_wait(&WaitEvent::Handled(true)), LoopStep::SaveAndContinue));
    assert!(matches!(step_after_wait(&WaitEvent::Handled(false)), LoopStep::Stop));
}
