use backup_tool::schedule::{next_sleep_seconds, parse_schedule_time, seconds_until, ClockTime, TimeOfDay, DAY_SECS};

fn clock(hour: u32, minute: u32, second: u32) -> ClockTime {
    ClockTime { hour, minute, second }
}

#[test]
fn parses_times_of_day() {
    assert_eq!(parse_schedule_time("07:15").unwrap(), TimeOfDay { hour: 7, minute: 15 });
    assert_eq!(parse_schedule_time("23:59").unwrap(), TimeOfDay { hour: 23, minute: 59 });
    assert_eq!(parse_schedule_time("00:00").unwrap(), TimeOfDay { hour: 0, minute: 0 });
}

#[test]
fn rejects_bad_times() {
    assert_eq!(parse_schedule_time("24:00").unwrap_err().time, "24:00");
    assert!(parse_schedule_time("17:60").is_err());
    assert!(parse_schedule_time("noon").is_err());
    assert!(parse_schedule_time("").is_err());
}

#[test]
fn five_minutes_ahead_is_five_minutes() {
    assert_eq!(seconds_until(clock(10, 0, 0), TimeOfDay { hour: 10, minute: 5 }), 300);
    assert_eq!(seconds_until(clock(23, 58, 0), TimeOfDay { hour: 0, minute: 3 }), 300);
}

#[test]
fn passed_time_rolls_to_tomorrow() {
    assert_eq!(seconds_until(clock(10, 0, 1), TimeOfDay { hour: 10, minute: 0 }), DAY_SECS - 1);
    assert_eq!(seconds_until(clock(10, 0, 0), TimeOfDay { hour: 10, minute: 0 }), DAY_SECS);
    assert_eq!(seconds_until(clock(12, 0, 0), TimeOfDay { hour: 6, minute: 30 }), 18 * 3600 + 1800);
}

#[test]
fn sleep_from_now_is_within_a_day() {
    let s = next_sleep_seconds(TimeOfDay { hour: 3, minute: 0 });
    assert!(s > 0 && s <= DAY_SECS);
}
