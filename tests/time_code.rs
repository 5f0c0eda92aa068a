use tmux_status::time_code::format_time;

#[test]
fn format_time_zero() {
    assert_eq!(format_time(0), "00:00");
}

#[test]
fn format_time_minute_and_seconds() {
    assert_eq!(format_time(65), "01:05");
}

#[test]
fn format_time_has_no_hour_rollover() {
    assert_eq!(format_time(3600), "60:00");
    assert_eq!(format_time(7500), "125:00");
}

#[test]
fn format_time_pads_each_field() {
    assert_eq!(format_time(9), "00:09");
    assert_eq!(format_time(600), "10:00");
    assert_eq!(format_time(185), "03:05");
}

#[test]
fn format_time_large_values() {
    assert_eq!(format_time(59 * 60 + 59), "59:59");
    assert_eq!(format_time(100_000 * 60 + 7), "100000:07");
}
