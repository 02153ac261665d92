use mediadeck::text::{break_message, format_dir, format_index_label, format_percent, initial_index_label, str_eq};
use mediadeck::utils::{format_bytes, format_timecode, format_u64, format_u64_padded2};

#[test]
fn timecode_two_seconds_of_ten() {
    // 48 frames at 24 fps elapsed, 240 frames total.
    assert_eq!(format_timecode(48, 240, 24), "0:02 / 0:10");
}

#[test]
fn timecode_zero() {
    assert_eq!(format_timecode(0, 0, 24), "0:00 / 0:00");
}

#[test]
fn timecode_with_hours() {
    // A full day of frames: the hour form is used for both sides.
    assert_eq!(format_timecode(0, 24 * 3600 * 24, 24), "0:00:00 / 24:00:00");
}

#[test]
fn timecode_elapsed_hours_dropped_when_total_short() {
    // Elapsed beyond an hour while the total is under one: the minute form
    // shows only the minutes within the hour.
    assert_eq!(format_timecode(2 * 3600 * 24 + 5 * 60 * 24, 240, 24), "5:00 / 0:10");
}

#[test]
fn bytes_plain() {
    assert_eq!(format_bytes(0), "0B");
    assert_eq!(format_bytes(1023), "1023B");
}

#[test]
fn bytes_kilo() {
    assert_eq!(format_bytes(1024), "1KB");
    assert_eq!(format_bytes(1536), "1KB");
}

#[test]
fn bytes_mega() {
    assert_eq!(format_bytes(1024 * 1024), "1MB");
    assert_eq!(format_bytes(3 * 1024 * 1024 + 5), "3MB");
}

#[test]
fn bytes_giga() {
    assert_eq!(format_bytes(1024 * 1024 * 1024), "1GB");
    assert_eq!(format_bytes(u64::MAX), "17179869183GB");
}

#[test]
fn decimal_rendering() {
    assert_eq!(format_u64(0), "0");
    assert_eq!(format_u64(7), "7");
    assert_eq!(format_u64(153600), "153600");
    assert_eq!(format_u64(u64::MAX), "18446744073709551615");
}

#[test]
fn padded_rendering() {
    assert_eq!(format_u64_padded2(0), "00");
    assert_eq!(format_u64_padded2(9), "09");
    assert_eq!(format_u64_padded2(10), "10");
    assert_eq!(format_u64_padded2(100), "100");
}

#[test]
fn dir_label_hides_home_component() {
    let dir = vec!["home".to_string(), "yassin".to_string(), "videos".to_string()];
    assert_eq!(format_dir(&dir, &"yassin".to_string()), "/home/videos");
}

#[test]
fn dir_label_root() {
    let dir: Vec<String> = vec![];
    assert_eq!(format_dir(&dir, &"yassin".to_string()), "/");
}

#[test]
fn dir_label_truncated_after_forty_characters() {
    let dir = vec![
        "home".to_string(),
        "someone".to_string(),
        "a-rather-deeply".to_string(),
        "nested-directory".to_string(),
        "with-long-names".to_string(),
    ];
    let label = format_dir(&dir, &"nobody".to_string());
    // Full form: "/home/someone/a-rather-deeply/nested-directory/with-long-names"
    assert_eq!(label.chars().count(), 43);
    assert_eq!(label, "/home/someone/a-rather-deeply/nested-dir...");
}

#[test]
fn message_breaking_inserts_newlines_every_thirty() {
    let msg = "abcdefghijklmnopqrstuvwxyzabcdefghijklmnopqrstuvwxyzabcdefghi";
    let broken = break_message(msg);
    let lines: Vec<&str> = broken.split('\n').collect();
    assert_eq!(lines.len(), 3);
    assert_eq!(lines[0].len(), 30);
    assert_eq!(lines[1].len(), 30);
    assert_eq!(lines[2].len(), 1);
}

#[test]
fn message_breaking_skips_break_at_exact_end() {
    let msg = "abcdefghijklmnopqrstuvwxyzabcd";
    assert_eq!(msg.len(), 30);
    assert_eq!(break_message(msg), msg);
}

#[test]
fn index_labels() {
    assert_eq!(format_index_label(2, 7), "2/7");
    assert_eq!(initial_index_label(0), "0/0");
    assert_eq!(initial_index_label(5), "1/5");
}

#[test]
fn percent_label() {
    assert_eq!(format_percent(0), "0%");
    assert_eq!(format_percent(100), "100%");
}

#[test]
fn string_equality() {
    assert!(str_eq("raw", "raw"));
    assert!(!str_eq("raw", "rgb"));
    assert!(!str_eq("raw", "rawer"));
    assert!(str_eq("", ""));
}
