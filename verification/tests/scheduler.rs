//! Spawn-scheduler behavior: the exact interval values of the inverse
//! cube-root curve, its monotone difficulty ramp, and the integer cube root
//! it is built on.

use rixel_dodge::sched::{cube_root, obstacle_spawn_interval};

#[test]
fn cube_root_small_values() {
    assert_eq!(cube_root(0), 0);
    assert_eq!(cube_root(1), 1);
    assert_eq!(cube_root(7), 1);
    assert_eq!(cube_root(8), 2);
    assert_eq!(cube_root(26), 2);
    assert_eq!(cube_root(27), 3);
    assert_eq!(cube_root(216_000_000_000), 6000);
}

#[test]
fn cube_root_is_the_floor_root() {
    for n in (0..5_000_000u64).step_by(98_765) {
        let c = cube_root(n) as u128;
        let n = n as u128;
        assert!(c * c * c <= n);
        assert!(n < (c + 1) * (c + 1) * (c + 1));
    }
    let c = cube_root(u64::MAX) as u128;
    assert!(c * c * c <= u64::MAX as u128);
    assert!((u64::MAX as u128) < (c + 1) * (c + 1) * (c + 1));
}

#[test]
fn interval_exact_values() {
    // At the minimum effective score the curve gives (6 - 1.2) seconds.
    assert_eq!(obstacle_spawn_interval(100), 4800);
    // Scores below 100 are raised to 100.
    assert_eq!(obstacle_spawn_interval(0), 4800);
    assert_eq!(obstacle_spawn_interval(99), 4800);
    // 21_600_000_000_000 / 800 is exactly 3000 cubed.
    assert_eq!(obstacle_spawn_interval(800), 1800);
    assert_eq!(obstacle_spawn_interval(10_000), 92);
}

#[test]
fn interval_is_harder_at_higher_score() {
    assert!(obstacle_spawn_interval(100) > obstacle_spawn_interval(10_000));
    let mut prev = obstacle_spawn_interval(0);
    for score in [1u32, 50, 100, 200, 500, 1000, 5000, 10_000, 100_000, u32::MAX] {
        let ms = obstacle_spawn_interval(score);
        assert!(ms <= prev, "interval grew at score {}", score);
        prev = ms;
    }
}

#[test]
fn interval_never_negative_floors_at_zero() {
    // From score 12_500 on, the curve dips to (or below) the subtraction
    // constant and the interval floors at zero instead of going negative.
    assert_eq!(obstacle_spawn_interval(12_500), 0);
    assert_eq!(obstacle_spawn_interval(u32::MAX), 0);
}
