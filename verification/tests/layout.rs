use ltr::ui::layout::{format_number, format_time, get_column_with_margin, Rect};

#[test]
fn test_format_timer_zero() {
    let expected = "00:00";

    let result = format_time(0);

    assert_eq!(result, expected);
}

#[test]
fn test_format_timer_single_digit() {
    let expected = "00:03";

    let result = format_time(3);

    assert_eq!(result, expected);
}

#[test]
fn test_format_timer_double_digit() {
    let expected = "00:49";

    let result = format_time(49);

    assert_eq!(result, expected);
}

#[test]
fn test_format_timer_with_munutes() {
    let expected = "02:28";

    let result = format_time(148);

    assert_eq!(result, expected);
}

#[test]
fn test_col_with_margin_above() {
    let given = Rect::new(0, 0, 120, 20);
    let expected = Rect::new(6, 0, 108, 20);

    let result = get_column_with_margin(given, 10, 50);

    assert_eq!(result, expected);
}

#[test]
fn test_col_with_margin_below() {
    let given = Rect::new(0, 0, 100, 20);
    let expected = Rect::new(0, 0, 100, 20);

    let result = get_column_with_margin(given, 10, 150);

    assert_eq!(result, expected);
}

#[test]
fn format_number_pads_to_two_digits() {
    assert_eq!(format_number(0), "00");
    assert_eq!(format_number(9), "09");
    assert_eq!(format_number(10), "10");
    assert_eq!(format_number(123), "123");
}

#[test]
fn format_time_of_long_durations() {
    assert_eq!(format_time(59), "00:59");
    assert_eq!(format_time(60), "01:00");
    assert_eq!(format_time(3600), "60:00");
    assert_eq!(format_time(6001), "100:01");
}
