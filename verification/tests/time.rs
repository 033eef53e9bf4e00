use uniedge::time::{delay_ms, now_millis, uptime_millis, Delay};

#[test]
fn uptime_divides_scaled_counter_by_frequency() {
    assert_eq!(uptime_millis(62_500_000, 62_500_000), 1000);
    assert_eq!(uptime_millis(5000, 1000), 5000);
    assert_eq!(uptime_millis(1, 3), 333);
}

#[test]
fn uptime_with_zero_frequency_takes_one_hertz() {
    assert_eq!(uptime_millis(7, 0), 7000);
}

#[test]
fn uptime_saturates_the_scaled_counter() {
    assert_eq!(uptime_millis(u64::MAX, 1), u64::MAX);
    assert_eq!(uptime_millis(u64::MAX / 999, 1000), u64::MAX / 1000);
}

#[test]
fn uptime_is_monotonic_in_the_counter() {
    let f = 62_500_000;
    let mut last = 0;
    for c in [0u64, 1, 62_499, 62_500, 10_000_000, u64::MAX / 2, u64::MAX] {
        let u = uptime_millis(c, f);
        assert!(u >= last);
        last = u;
    }
}

#[test]
fn now_millis_reinterprets_as_i64() {
    assert_eq!(now_millis(62_500_000, 62_500_000), 1000);
    assert_eq!(now_millis(u64::MAX, 1), -1);
}

#[test]
fn delay_ticks_per_millisecond() {
    let d = delay_ms(70, 62_500_000, 100);
    assert_eq!(d.start, 100);
    assert_eq!(d.wait_ticks, 62_500 * 70);
}

#[test]
fn delay_below_one_khz_counts_one_tick_per_millisecond() {
    assert_eq!(delay_ms(70, 999, 0).wait_ticks, 70);
    assert_eq!(delay_ms(70, 0, 0).wait_ticks, 70);
}

#[test]
fn delay_ticks_saturate() {
    assert_eq!(delay_ms(u64::MAX, 1_000_000, 0).wait_ticks, u64::MAX);
}

#[test]
fn zero_delay_is_done_at_once() {
    let d = delay_ms(0, 62_500_000, 12345);
    assert!(d.is_done(12345));
}

#[test]
fn delay_is_done_exactly_after_its_ticks() {
    let d = Delay { start: 1000, wait_ticks: 50 };
    assert!(!d.is_done(1000));
    assert!(!d.is_done(1049));
    assert!(d.is_done(1050));
    assert!(d.is_done(5000));
}

#[test]
fn delay_survives_counter_wraparound() {
    let d = Delay { start: u64::MAX - 9, wait_ticks: 20 };
    assert!(!d.is_done(u64::MAX));
    assert!(!d.is_done(9));
    assert!(d.is_done(10));
}
