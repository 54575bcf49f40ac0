use mountain_mqtt_embassy::time::{Duration, Instant, TICK_HZ};

#[test]
fn tick_rate_is_that_of_the_clock() {
    assert_eq!(TICK_HZ, embassy_time::TICK_HZ);
}

#[test]
fn durations_count_ticks() {
    assert_eq!(Duration::from_secs(10).ticks, 10_000_000);
    assert_eq!(Duration::from_millis(100).ticks, 100_000);
    assert_eq!(Duration::from_millis(u64::MAX / 1_000).ticks, u64::MAX / 1_000 * 1_000);
    assert_eq!(Duration::from_secs(0).ticks, 0);
}

#[test]
fn milliseconds_are_rounded_down() {
    assert_eq!(Duration { ticks: 5_000_999 }.as_millis(), 5_000);
    assert_eq!(Duration { ticks: 999 }.as_millis(), 0);
    assert_eq!(Duration { ticks: u64::MAX }.as_millis(), 18_446_744_073_709_551);
}

#[test]
fn instants_add_and_subtract() {
    let start = Instant { ticks: 7 };
    let later = start.after(Duration { ticks: 35 });
    assert_eq!(later, Instant { ticks: 42 });
    assert_eq!(later.duration_since(start), Duration { ticks: 35 });
    assert_eq!(later.duration_since(later), Duration { ticks: 0 });
    assert_eq!(start.after(Duration { ticks: u64::MAX - 7 }), Instant { ticks: u64::MAX });
}

#[test]
fn comparisons_are_strict() {
    let a = Instant { ticks: 1 };
    let b = Instant { ticks: 2 };
    assert!(a.is_before(b));
    assert!(!b.is_before(b));
    assert!(!b.is_before(a));
    assert!(Duration { ticks: 2 }.exceeds(Duration { ticks: 1 }));
    assert!(!Duration { ticks: 2 }.exceeds(Duration { ticks: 2 }));
}
