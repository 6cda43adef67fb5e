//! Countdown behavior over a caller-supplied millisecond clock.

use rixel_dodge::timing::Countdown;

#[test]
fn elapsed_counts_from_start() {
    let c = Countdown::new(2000, 100);
    assert_eq!(c.elapsed(100), 0);
    assert_eq!(c.elapsed(150), 50);
    assert_eq!(c.elapsed(2100), 2000);
}

#[test]
fn elapsed_is_zero_before_start() {
    let c = Countdown::new(2000, 100);
    assert_eq!(c.elapsed(50), 0);
}

#[test]
fn done_strictly_after_duration() {
    let c = Countdown::new(2000, 100);
    assert!(!c.is_done(100));
    assert!(!c.is_done(2100));
    assert!(c.is_done(2101));
    assert!(c.is_done(1_000_000));
}
