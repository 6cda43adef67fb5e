//! The spawn scheduler: decides, from the player's score, how long the wait
//! for the next obstacle should be. The interval follows an inverse
//! cube-root curve of the score, so the game speeds up with a ramp that
//! approaches a floor, and it is computed exactly in integer milliseconds.

use vstd::prelude::*;
use vstd::arithmetic::div_mod::lemma_div_is_ordered_by_denominator;

use crate::consts::{SPAWN_RATE_CUBE_NUMERATOR, SPAWN_RATE_SUBTRACT_MS};

verus! {

/// `c` is the integer cube root of `n`, rounded down.
pub open spec fn is_cube_root(c: int, n: int) -> bool {
    c * c * c <= n < (c + 1) * (c + 1) * (c + 1)
}

/// The integer cube root of `n`, rounded down.
pub open spec fn cube_root_floor(n: int) -> int {
    choose|c: int| 0 <= c && #[trigger] is_cube_root(c, n)
}

/// The integer cube root is unique.
pub proof fn lemma_cube_root_unique(c1: int, c2: int, n: int)
    requires
        0 <= c1,
        0 <= c2,
        is_cube_root(c1, n),
        is_cube_root(c2, n),
    ensures
        c1 == c2,
{
    if c1 < c2 {
        assert((c1 + 1) * (c1 + 1) * (c1 + 1) <= c2 * c2 * c2) by (nonlinear_arith)
            requires
                0 <= c1 + 1 <= c2,
        ;
    }
    if c2 < c1 {
        assert((c2 + 1) * (c2 + 1) * (c2 + 1) <= c1 * c1 * c1) by (nonlinear_arith)
            requires
                0 <= c2 + 1 <= c1,
        ;
    }
}

/// Every nonnegative integer has an integer cube root.
pub proof fn lemma_cube_root_exists(n: int)
    requires
        0 <= n,
    ensures
        exists|c: int| 0 <= c && #[trigger] is_cube_root(c, n),
    decreases n,
{
    if n == 0 {
        assert(0 <= 0 && is_cube_root(0, 0));
    } else {
        lemma_cube_root_exists(n - 1);
        let c = choose|c: int| 0 <= c && #[trigger] is_cube_root(c, n - 1);
        if (c + 1) * (c + 1) * (c + 1) <= n {
            assert((c + 1) + 1 >= 1);
            assert((c + 2) * (c + 2) * (c + 2) > (c + 1) * (c + 1) * (c + 1)) by (nonlinear_arith)
                requires
                    0 <= c,
            ;
            assert(0 <= c + 1 && is_cube_root(c + 1, n));
        } else {
            assert(0 <= c && is_cube_root(c, n));
        }
    }
}

/// The integer cube root, rounded down, computed by binary search.
pub fn cube_root(n: u64) -> (c: u64)
    ensures
        is_cube_root(c as int, n as int),
        c == cube_root_floor(n as int),
{
    let mut lo: u64 = 0;
    let mut hi: u64 = 2_642_246;
    assert(n < 2_642_246 * 2_642_246 * 2_642_246);
    while hi - lo > 1
        invariant
            0 <= lo < hi <= 2_642_246,
            (lo as int) * (lo as int) * (lo as int) <= n,
            (n as int) < (hi as int) * (hi as int) * (hi as int),
        decreases hi - lo,
    {
        let mid = lo + (hi - lo) / 2;
        assert(mid * mid <= 2_642_245 * 2_642_245) by (nonlinear_arith)
            requires
                0 <= mid <= 2_642_245,
        ;
        assert(mid * mid * mid <= 2_642_245 * 2_642_245 * 2_642_245) by (nonlinear_arith)
            requires
                0 <= mid <= 2_642_245,
        ;
        let cube = mid * mid * mid;
        if cube <= n {
            lo = mid;
        } else {
            hi = mid;
        }
    }
    proof {
        assert(is_cube_root(lo as int, n as int));
        lemma_cube_root_unique(cube_root_floor(n as int), lo as int, n as int);
    }
    lo
}

/// The score the spawn-rate curve is evaluated at: never below 100.
pub open spec fn effective_score(score: u32) -> int {
    if score < 100 {
        100
    } else {
        score as int
    }
}

/// The wait before the next obstacle spawns, in milliseconds: the cube root
/// of the curve numerator divided by the effective score, less the fixed
/// subtraction, floored at zero so the interval is never negative.
pub open spec fn spawn_interval_spec(score: u32) -> int {
    let c = cube_root_floor((SPAWN_RATE_CUBE_NUMERATOR as int) / effective_score(score));
    if c > SPAWN_RATE_SUBTRACT_MS {
        c - SPAWN_RATE_SUBTRACT_MS
    } else {
        0
    }
}

/// Given the player's current score value, decide how long the wait for the
/// next obstacle to spawn should be, in milliseconds.
pub fn obstacle_spawn_interval(score: u32) -> (ms: u64)
    ensures
        ms == spawn_interval_spec(score),
{
    let s: u64 = if score < 100 {
        100
    } else {
        score as u64
    };
    let q = SPAWN_RATE_CUBE_NUMERATOR / s;
    let c = cube_root(q);
    if c > SPAWN_RATE_SUBTRACT_MS {
        c - SPAWN_RATE_SUBTRACT_MS
    } else {
        0
    }
}

/// Law: the spawn interval never grows with the score — a higher score
/// always means obstacles spawn at least as fast.
pub proof fn lemma_spawn_interval_antitone(s1: u32, s2: u32)
    requires
        s1 <= s2,
    ensures
        spawn_interval_spec(s2) <= spawn_interval_spec(s1),
{
    let e1 = effective_score(s1);
    let e2 = effective_score(s2);
    let num = SPAWN_RATE_CUBE_NUMERATOR as int;
    let q1 = num / e1;
    let q2 = num / e2;
    lemma_div_is_ordered_by_denominator(num, e1, e2);
    lemma_cube_root_exists(q1);
    lemma_cube_root_exists(q2);
    let c1 = cube_root_floor(q1);
    let c2 = cube_root_floor(q2);
    if c2 > c1 {
        assert((c1 + 1) * (c1 + 1) * (c1 + 1) <= c2 * c2 * c2) by (nonlinear_arith)
            requires
                0 <= c1 + 1 <= c2,
        ;
    }
}

} // verus!
