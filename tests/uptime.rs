use sysfacts::uptime::{format_uptime, get_sys_uptime};

#[test]
fn uptime_under_a_minute() {
    assert_eq!(format_uptime(0), "0 min");
    assert_eq!(format_uptime(59), "0 min");
}

#[test]
fn uptime_minutes_only() {
    assert_eq!(format_uptime(60), "1 min");
    assert_eq!(format_uptime(3599), "59 min");
}

#[test]
fn uptime_hours_and_minutes() {
    assert_eq!(format_uptime(3600), "1 hrs, 0 min");
    assert_eq!(format_uptime(7 * 3600 + 5 * 60 + 9), "7 hrs, 5 min");
}

#[test]
fn uptime_days_without_hours() {
    assert_eq!(format_uptime(86400), "1 days, 0 min");
    assert_eq!(format_uptime(3 * 86400 + 42 * 60), "3 days, 42 min");
}

#[test]
fn uptime_days_hours_minutes() {
    assert_eq!(format_uptime(2 * 86400 + 3 * 3600 + 4 * 60), "2 days, 3 hrs, 4 min");
    assert_eq!(format_uptime(12 * 86400 + 23 * 3600 + 59 * 60 + 59), "12 days, 23 hrs, 59 min");
}

#[test]
fn uptime_largest_value() {
    assert_eq!(format_uptime(u64::MAX), "213503982334601 days, 7 hrs, 0 min");
}

#[test]
fn system_uptime_has_minutes() {
    if let Ok(text) = get_sys_uptime() {
        assert!(text.ends_with(" min"));
    }
}
