use claude_usage::text::{push_decimal, push_signed_decimal, trim_text};
use claude_usage::usage::{format_countdown, latest_lines, UsageSample};

fn sample(ts: i64) -> UsageSample<f32> {
    UsageSample { session: 0.0, weekly: 0.0, session_reset: 0, weekly_reset: 0, ts }
}

#[test]
fn staleness_boundary() {
    let s = UsageSample { session: 0.0f32, weekly: 0.0, session_reset: 0, weekly_reset: 0, ts: 1000 };
    assert_eq!(s.is_stale(1000 + 600, 600), false); // exactly at limit = fresh
    assert_eq!(s.is_stale(1000 + 601, 600), true);
}

#[test]
fn staleness_with_clock_behind_record() {
    let s = sample(5000);
    assert!(!s.is_stale(4000, 0));
    assert!(s.is_stale(5001, 0));
    assert!(!s.is_stale(5000, 0));
}

#[test]
fn staleness_with_huge_limit() {
    let s = sample(0);
    assert!(!s.is_stale(i64::MAX, u64::MAX));
    assert!(!s.is_stale(i64::MAX, i64::MAX as u64 + 1));
    assert!(!s.is_stale(i64::MAX, i64::MAX as u64));
    assert!(s.is_stale(i64::MAX, i64::MAX as u64 - 1));
}

#[test]
fn countdown_formats() {
    assert_eq!(format_countdown(0), "now");
    assert_eq!(format_countdown(60 * 60 * 2 + 60 * 14), "2h 14m");
    assert_eq!(format_countdown(60 * 45), "45m");
    assert_eq!(format_countdown(60 * 60 * 24 * 4 + 60 * 60 * 3), "4d 3h");
}

#[test]
fn countdown_edges() {
    assert_eq!(format_countdown(-30), "now");
    assert_eq!(format_countdown(i64::MIN), "now");
    assert_eq!(format_countdown(59), "0m");
    assert_eq!(format_countdown(3600), "1h 0m");
    assert_eq!(format_countdown(86_400), "1d 0h");
    assert_eq!(format_countdown(86_399), "23h 59m");
    assert_eq!(format_countdown(i64::MAX), "106751991167300d 15h");
}

#[test]
fn decimal_rendering() {
    let mut s = String::new();
    push_decimal(&mut s, 0);
    assert_eq!(s, "0");
    let mut s = String::from("x=");
    push_decimal(&mut s, u64::MAX);
    assert_eq!(s, "x=18446744073709551615");
    let mut s = String::new();
    push_signed_decimal(&mut s, i64::MIN);
    assert_eq!(s, "-9223372036854775808");
    let mut s = String::new();
    push_signed_decimal(&mut s, -7);
    assert_eq!(s, "-7");
}

#[test]
fn trims_unicode_white_space() {
    assert_eq!(trim_text("  a b \t\r\n"), "a b");
    assert_eq!(trim_text("\u{00A0}\u{3000}x\u{2028}"), "x");
    assert_eq!(trim_text(" \t "), "");
    assert_eq!(trim_text(""), "");
}

#[test]
fn history_lines_newest_first() {
    let content = "{\"a\":1}\n\n  {\"b\":2}  \r\n   \n{\"c\":3}\n";
    assert_eq!(latest_lines(content), vec!["{\"c\":3}", "{\"b\":2}", "{\"a\":1}"]);
}

#[test]
fn history_lines_without_final_newline() {
    assert_eq!(latest_lines("one\ntwo"), vec!["two", "one"]);
}

#[test]
fn history_lines_of_blank_text() {
    assert!(latest_lines("").is_empty());
    assert!(latest_lines("\n \n\t\r\n").is_empty());
}

#[test]
fn history_lines_keep_garbage_for_the_parser() {
    let content = "{\"ts\": 1782580127.5, \"session\": 0.38}\n{garbage\n";
    assert_eq!(latest_lines(content), vec!["{garbage", "{\"ts\": 1782580127.5, \"session\": 0.38}"]);
}
