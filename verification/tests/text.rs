use usage_widget::text::decimal;
use usage_widget::text::text_eq;
use usage_widget::text::text_le;

#[test]
fn dates_are_ordered_as_the_calendar_orders_them() {
    assert!(text_le("2024-03-04", "2024-03-10"));
    assert!(!text_le("2024-03-10", "2024-03-04"));
    assert!(text_le("2023-12-31", "2024-01-01"));
    assert!(text_le("2024-02-29", "2024-03-01"));
    assert!(text_le("2024-03-10", "2024-03-10"));
}

#[test]
fn a_text_is_before_its_extensions() {
    assert!(text_le("", ""));
    assert!(text_le("", "a"));
    assert!(!text_le("a", ""));
    assert!(text_le("2024-03", "2024-03-01"));
    assert!(!text_le("2024-03-01", "2024-03"));
}

#[test]
fn order_goes_by_code_point() {
    assert!(text_le("Z", "a"));
    assert!(text_le("a", "\u{e9}"));
    assert!(text_le("\u{e9}", "\u{4e2d}"));
    assert!(text_le("\u{ffff}", "\u{10000}"));
    assert!(!text_le("\u{10000}", "\u{ffff}"));
    assert_eq!(text_le("\u{ffff}", "\u{10000}"), "\u{ffff}" <= "\u{10000}");
}

#[test]
fn text_order_agrees_with_std() {
    let samples = ["", "0", "2024-03-10", "2024-03-1", "2024-3-10", "a", "ab", "b", "\u{e9}t\u{e9}"];
    for a in samples {
        for b in samples {
            assert_eq!(text_le(a, b), a <= b);
            assert_eq!(text_eq(a, b), a == b);
        }
    }
}

#[test]
fn equal_texts() {
    assert!(text_eq("", ""));
    assert!(text_eq("accessToken", "accessToken"));
    assert!(!text_eq("accessToken", "accessToken "));
    assert!(!text_eq("accessToken", "accesstoken"));
    assert!(!text_eq("a", ""));
}

#[test]
fn decimal_writes_numbers() {
    assert_eq!(decimal(0), "0");
    assert_eq!(decimal(7), "7");
    assert_eq!(decimal(10), "10");
    assert_eq!(decimal(401), "401");
    assert_eq!(decimal(1234567890), "1234567890");
    assert_eq!(decimal(-1), "-1");
    assert_eq!(decimal(-25300), "-25300");
    assert_eq!(decimal(i64::MAX), "9223372036854775807");
    assert_eq!(decimal(i64::MIN), "-9223372036854775808");
}
