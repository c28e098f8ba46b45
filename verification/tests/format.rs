use tui_player::format::{format_duration, format_progress};

#[test]
fn duration_zero() {
    assert_eq!(format_duration(0), "0:00:00");
}

#[test]
fn duration_one_hour_one_minute_one_second() {
    assert_eq!(format_duration(3661), "1:01:01");
}

#[test]
fn duration_sentinel_value_still_formats_as_pure_function() {
    assert_eq!(format_duration(36000), "10:00:00");
}

#[test]
fn duration_under_one_minute() {
    assert_eq!(format_duration(59), "0:00:59");
}

#[test]
fn duration_exact_hour() {
    assert_eq!(format_duration(3600), "1:00:00");
}

#[test]
fn duration_just_below_sentinel() {
    assert_eq!(format_duration(35999), "9:59:59");
}

#[test]
fn duration_large() {
    assert_eq!(format_duration(360000), "100:00:00");
}

#[test]
fn progress_at_start() {
    // filled = 0 * 10 / 100 = 0: the cursor at position 0, ten empties after.
    assert_eq!(format_progress(0, 100, 10), ">----------");
}

#[test]
fn progress_halfway_25() {
    // filled = 50 * 25 / 100 = 12 fill chars, one cursor, then
    // length - filled = 13 empties; total rendered length is length + 1.
    let bar = format_progress(50, 100, 25);
    assert_eq!(bar, "============>-------------");
    assert_eq!(bar.len(), 26);
}

#[test]
fn progress_unknown_duration_is_indeterminate() {
    assert_eq!(format_progress(123, 36000, 25), "============/============");
}

#[test]
fn progress_complete() {
    assert_eq!(format_progress(100, 100, 10), "==========>");
}

#[test]
fn progress_floor_truncation() {
    // 33 * 10 / 100 = 3 by floor division.
    assert_eq!(format_progress(33, 100, 10), "===>-------");
}
