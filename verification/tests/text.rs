use pg_app_role_manager::text::decimal_string;
use pg_app_role_manager::text::pad_right;
use pg_app_role_manager::text::push_decimal;
use pg_app_role_manager::text::push_repeated;
use pg_app_role_manager::text::same_text;
use pg_app_role_manager::timestamp::format_timestamp;

#[test]
fn decimal_of_small_and_large_numbers() {
    assert_eq!(decimal_string(0), "0");
    assert_eq!(decimal_string(7), "7");
    assert_eq!(decimal_string(10), "10");
    assert_eq!(decimal_string(5432), "5432");
    assert_eq!(decimal_string(65535), "65535");
    assert_eq!(decimal_string(1_000_000), "1000000");
    assert_eq!(decimal_string(u64::MAX), "18446744073709551615");
}

#[test]
fn push_decimal_appends() {
    let mut s = String::from("port=");
    push_decimal(&mut s, 5432);
    assert_eq!(s, "port=5432");
}

#[test]
fn push_repeated_appends_copies() {
    let mut s = String::from("a");
    push_repeated(&mut s, '-', 3);
    assert_eq!(s, "a---");
    push_repeated(&mut s, 'x', 0);
    assert_eq!(s, "a---");
}

#[test]
fn pad_right_fills_with_spaces() {
    assert_eq!(pad_right("ab", 5), "ab   ");
    assert_eq!(pad_right("", 2), "  ");
}

#[test]
fn pad_right_leaves_long_text() {
    assert_eq!(pad_right("abcdef", 3), "abcdef");
    assert_eq!(pad_right("abc", 3), "abc");
}

#[test]
fn pad_right_counts_characters_not_bytes() {
    assert_eq!(pad_right("é", 3), "é  ");
    assert_eq!(pad_right("日本", 4), "日本  ");
}

#[test]
fn same_text_compares_characters() {
    assert!(same_text("abc", "abc"));
    assert!(!same_text("abc", "abd"));
    assert!(!same_text("abc", "ab"));
    assert!(same_text("", ""));
}

#[test]
fn timestamps_are_shown_in_utc() {
    assert_eq!(format_timestamp(0), Some("1970-01-01 00:00:00".to_string()));
    assert_eq!(format_timestamp(1431648000), Some("2015-05-15 00:00:00".to_string()));
    assert_eq!(format_timestamp(1700000000), Some("2023-11-14 22:13:20".to_string()));
    assert_eq!(format_timestamp(-1), Some("1969-12-31 23:59:59".to_string()));
}

#[test]
fn timestamps_out_of_range_are_not_shown() {
    assert_eq!(format_timestamp(i64::MAX), None);
    assert_eq!(format_timestamp(i64::MIN), None);
}
