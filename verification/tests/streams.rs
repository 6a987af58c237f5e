use nscb_runner::coordinator::record_spawn;
use nscb_runner::pump::{stderr_chunk_notification, stdout_line_notification};
use nscb_runner::registry::Registry;
use nscb_runner::text::{eq_ignore_ascii_case, is_all_ws, trim_str};
use nscb_runner::watcher::ExitStatus;

#[test]
fn stdout_line_is_trimmed() {
    let n = stdout_line_notification("pack", "  foo bar\r\n").expect("line should be emitted");
    assert_eq!(n.op.as_str(), "pack");
    assert_eq!(n.line.as_str(), "foo bar");
}

#[test]
fn blank_stdout_lines_suppressed() {
    assert!(stdout_line_notification("pack", "").is_none());
    assert!(stdout_line_notification("pack", "\n").is_none());
    assert!(stdout_line_notification("pack", " \t \r\n").is_none());
}

#[test]
fn stderr_chunk_kept_raw() {
    let n = stderr_chunk_notification("pack", b"  warn: x \n").expect("chunk should be emitted");
    assert_eq!(n.op.as_str(), "pack");
    assert_eq!(n.chunk.as_str(), "  warn: x \n");
}

#[test]
fn empty_or_whitespace_stderr_suppressed() {
    assert!(stderr_chunk_notification("pack", b"").is_none());
    assert!(stderr_chunk_notification("pack", b" \t\r\n ").is_none());
}

#[test]
fn invalid_bytes_decoded_tolerantly() {
    let n = stderr_chunk_notification("pack", &[0xff, 0xfe]).expect("chunk should be emitted");
    assert_eq!(n.chunk.as_str(), "\u{fffd}\u{fffd}");
}

#[test]
fn one_line_then_exit_zero() {
    // Child writes "foo\n" to stdout then exits 0: one stdout notification
    // with line "foo", then one terminal notification with code 0.
    let mut registry = Registry::new();
    let watcher = record_spawn(&mut registry, "pack", Some(11)).expect("spawn recorded");
    let out = stdout_line_notification(watcher.op(), "foo\n").expect("line should be emitted");
    assert_eq!(out.line.as_str(), "foo");
    assert_eq!(out.op.as_str(), "pack");
    let done = watcher.finish(&mut registry, ExitStatus::Code(0));
    assert_eq!(done.op.as_str(), "pack");
    assert_eq!(done.code, 0);
    assert_eq!(registry.running_pid(), None);
}

#[test]
fn silent_child_exit_two() {
    // Child writes nothing and exits with code 2: zero stream
    // notifications, one terminal notification with code 2.
    let mut registry = Registry::new();
    let watcher = record_spawn(&mut registry, "verify", Some(12)).expect("spawn recorded");
    let done = watcher.finish(&mut registry, ExitStatus::Code(2));
    assert_eq!(done.op.as_str(), "verify");
    assert_eq!(done.code, 2);
    assert_eq!(registry.running_pid(), None);
}

#[test]
fn unknown_exit_yields_sentinel() {
    let mut registry = Registry::new();
    let watcher = record_spawn(&mut registry, "pack", Some(13)).expect("spawn recorded");
    let done = watcher.finish(&mut registry, ExitStatus::Unknown);
    assert_eq!(done.code, -1);
}

#[test]
fn trim_exact_values() {
    assert_eq!(trim_str("  a b\t\n").as_str(), "a b");
    assert_eq!(trim_str("abc").as_str(), "abc");
    assert_eq!(trim_str("").as_str(), "");
    assert_eq!(trim_str(" \u{a0}\u{3000} ").as_str(), "");
    assert_eq!(trim_str("\u{2000}x\u{200a}").as_str(), "x");
}

#[test]
fn all_ws_exact_values() {
    assert!(is_all_ws(""));
    assert!(is_all_ws(" \t\r\n\u{a0}"));
    assert!(!is_all_ws(" x "));
}

#[test]
fn case_insensitive_comparison() {
    assert!(eq_ignore_ascii_case("NSCB_Rust.EXE", "nscb_rust.exe"));
    assert!(eq_ignore_ascii_case("", ""));
    assert!(!eq_ignore_ascii_case("abc", "abd"));
    assert!(!eq_ignore_ascii_case("abc", "abcd"));
}
