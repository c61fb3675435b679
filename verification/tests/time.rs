use batrun::time::{decimal_string, TimeInterval};

#[test]
fn test_hms() {
    let hms = 3661;
    assert_eq!(batrun::time::format(hms), "1h 1m 1s");
}

#[test]
fn test_ms() {
    let ms = 61;
    assert_eq!(batrun::time::format(ms), "1m 1s");
}

#[test]
fn test_s() {
    let s = 1;
    assert_eq!(batrun::time::format(s), "1s");
}

#[test]
fn test_format_zero() {
    assert_eq!(batrun::time::format(0), "0s");
}

#[test]
fn test_format_whole_hour() {
    assert_eq!(batrun::time::format(3600), "1h 0m 0s");
}

#[test]
fn test_format_large() {
    assert_eq!(batrun::time::format(2 * 3600 + 35 * 60 + 59), "2h 35m 59s");
}

#[test]
fn test_decimal_string() {
    assert_eq!(decimal_string(0), "0");
    assert_eq!(decimal_string(7), "7");
    assert_eq!(decimal_string(10), "10");
    assert_eq!(decimal_string(90210), "90210");
    assert_eq!(decimal_string(u64::MAX), "18446744073709551615");
}

#[test]
fn test_interval_stops() {
    let mut interval = TimeInterval::new();
    assert!(interval.elapsed().is_none());
    let span = interval.stop();
    let elapsed = interval.elapsed().expect("stopped interval has a span");
    assert!(elapsed >= span);
}
