use std::time::Duration;

use backup_tool::timer::{calc_time, elapsed_seconds, format_hhmmss, DurationFormatter};

#[test]
fn test_duration_format() {
    assert_eq!("01:01:01", Duration::from_secs(60 * 60 + 60 + 1).to_hhmmss());
}

#[test]
fn hhmmss_of_zero_and_large_values() {
    assert_eq!(format_hhmmss(0), "00:00:00");
    assert_eq!(format_hhmmss(59), "00:00:59");
    assert_eq!(format_hhmmss(3599), "00:59:59");
    assert_eq!(format_hhmmss(86399), "23:59:59");
    assert_eq!(format_hhmmss(360000), "100:00:00");
    assert_eq!(Duration::from_secs(36 * 3600 + 5).to_hhmmss(), "36:00:05");
}

#[test]
fn elapsed_never_negative() {
    assert_eq!(elapsed_seconds(3, 10), 7);
    assert_eq!(elapsed_seconds(10, 3), 0);
    assert_eq!(elapsed_seconds(i64::MIN, i64::MAX), u64::MAX);
}

fn halve(x: &u32) -> Result<u32, String> {
    if x % 2 == 0 {
        Ok(x / 2)
    } else {
        Err(format!("{} is odd", x))
    }
}

#[test]
fn calc_time_hands_back_the_result() {
    match calc_time(halve, &8) {
        Ok((v, _)) => assert_eq!(v, 4),
        Err(_) => panic!("expected success"),
    }
    match calc_time(halve, &7) {
        Ok(_) => panic!("expected failure"),
        Err((e, _)) => assert_eq!(e, "7 is odd"),
    }
}
