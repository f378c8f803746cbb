//! What depends on the clock, and numbers as text.
use workspace_api::clock::updated_after;
use workspace_api::clock::updated_after_at;
use workspace_api::clock::workspace_name;
use workspace_api::clock::workspace_name_at;
use workspace_api::clock::Timestamp;
use workspace_api::text::decimal_text;
use workspace_api::text::join;

#[test]
fn numbers_are_written_in_decimal() {
    assert_eq!(decimal_text(0), "0");
    assert_eq!(decimal_text(7), "7");
    assert_eq!(decimal_text(-7), "-7");
    assert_eq!(decimal_text(52428800), "52428800");
    assert_eq!(decimal_text(1000000000), "1000000000");
    assert_eq!(decimal_text(i64::MAX), "9223372036854775807");
    assert_eq!(decimal_text(i64::MIN), "-9223372036854775808");
}

#[test]
fn texts_are_joined() {
    assert_eq!(join("a", "b"), "ab");
    assert_eq!(join("", ""), "");
}

#[test]
fn a_named_workspace_keeps_its_name() {
    assert_eq!(workspace_name(Some("mine".to_string())), "mine");
    assert_eq!(workspace_name_at(Some("mine".to_string()), 5), "mine");
    assert_eq!(workspace_name(Some(String::new())), "");
}

#[test]
fn a_workspace_without_a_name_is_named_after_the_time() {
    assert_eq!(workspace_name_at(None, 1731661234), "workspace_1731661234");
    let before = chrono::Utc::now().timestamp();
    let name = workspace_name(None);
    let after = chrono::Utc::now().timestamp();
    let seconds: i64 = name.strip_prefix("workspace_").unwrap().parse().unwrap();
    assert!(before <= seconds && seconds <= after);
}

#[test]
fn updated_rows_are_listed_from_the_time_asked_for() {
    let asked = Timestamp { seconds: -3, nanos: 4 };
    assert!(updated_after(Some(asked)) == asked);
}

#[test]
fn updated_rows_are_listed_for_an_hour_otherwise() {
    let now = Timestamp { seconds: 10_000, nanos: 250 };
    assert!(updated_after_at(None, now) == Timestamp { seconds: 6_400, nanos: 250 });
    let before = chrono::Utc::now().timestamp() - 3600;
    let after = updated_after(None).seconds;
    assert!(before <= after && after <= chrono::Utc::now().timestamp() - 3600);
}
