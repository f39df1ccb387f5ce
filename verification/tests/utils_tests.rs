use reminder_bot::timestamp::Timestamp;
use reminder_bot::utils::{
    format_log, format_log_at, format_log_with_time, signed_text, unsigned_text, LOG_TIME_FORMAT,
};

fn ts(secs: i64, nanos: u32) -> Timestamp {
    Timestamp::new(secs, nanos).unwrap()
}

#[test]
fn numbers_are_written_in_decimal() {
    for n in [0u64, 1, 9, 10, 11, 99, 100, 1_234_567_890, u64::MAX] {
        assert_eq!(unsigned_text(n), n.to_string());
    }
    for n in [0i64, 1, -1, 9, -9, 10, -10, 1_000, -1_000, i64::MAX, i64::MIN, i64::MIN + 1] {
        assert_eq!(signed_text(n), n.to_string());
    }
    assert_eq!(unsigned_text(18_446_744_073_709_551_615), "18446744073709551615");
    assert_eq!(signed_text(-9_223_372_036_854_775_808), "-9223372036854775808");
}

#[test]
fn timestamp_is_written_under_a_format() {
    assert_eq!(LOG_TIME_FORMAT, "%Y-%m-%d %H:%M:%S");
    let t = ts(1_700_000_000, 123);
    assert_eq!(t.format(LOG_TIME_FORMAT), Some("2023-11-14 22:13:20".to_string()));
    assert_eq!(t.format("%d.%m.%Y"), Some("14.11.2023".to_string()));
    assert_eq!(t.format(""), Some(String::new()));
    assert_eq!(t.format("%"), None);
    assert_eq!(t.format("%Q"), None);
}

#[test]
fn log_line_names_time_chat_user_and_action() {
    let t = ts(1_700_000_000, 0);
    assert_eq!(
        format_log_at(&t, -1001234, 42, &Some("alice".to_string()), "start command"),
        "[2023-11-14 22:13:20] chat_id: -1001234, user_id: 42, username: alice, action: start command"
    );
    assert_eq!(
        format_log_at(&t, 7, 0, &None, ""),
        "[2023-11-14 22:13:20] chat_id: 7, user_id: 0, username: unknown, action: "
    );
    assert_eq!(
        format_log_with_time("then", 0, 1, &Some(String::new()), "a: b"),
        "[then] chat_id: 0, user_id: 1, username: , action: a: b"
    );
}

#[test]
fn log_line_of_now_has_the_shape() {
    let line = format_log(5, 6, &None, "drop command");
    assert!(line.starts_with("[20"));
    assert!(line.ends_with("] chat_id: 5, user_id: 6, username: unknown, action: drop command"));
    assert_eq!(line.len(), "[2023-11-14 22:13:20]".len() + " chat_id: 5, user_id: 6, username: unknown, action: drop command".len());
}
