use imgsize::utils::{human_time, time_to_human_time};
use std::time::Instant;

#[test]
fn clock_pads_to_two_digits() {
    assert_eq!(human_time(0), "00:00:00");
    assert_eq!(human_time(3725), "01:02:05");
    assert_eq!(human_time(59), "00:00:59");
}

#[test]
fn clock_hours_are_not_wrapped() {
    assert_eq!(human_time(360_000), "100:00:00");
    assert_eq!(human_time(86_399), "23:59:59");
}

#[test]
fn clock_since_now_is_short() {
    let text = time_to_human_time(Instant::now());
    assert_eq!(text.len(), 8);
    assert!(text.starts_with("00:00:0"));
}
