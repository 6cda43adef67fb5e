//! Obstacles: value types whose current rectangle and warning indicator are
//! derived purely from a perimeter spawn coordinate and a lifetime counter.
//!
//! An obstacle's `lifetime` starts negative (the pre-spawn warning phase),
//! increases by one per tick, is in `[0, total_lifetime]` while the obstacle
//! crosses the field, and beyond that while the warning indicator recedes,
//! until the despawn rule removes the obstacle.

use vstd::prelude::*;
use rand::rngs::ThreadRng;

use crate::consts::{
    FIELD_EDGE_LENGTH, OBSTACLE_HIDE_DELAY_TICKS, OBSTACLE_LENGTH, OBSTACLE_LIFETIME_CAP,
    OBSTACLE_MAX_WIDTH, OBSTACLE_MIN_WIDTH, OBSTACLE_PRE_SPAWN_WARN_TICKS, OBSTACLE_SPEED,
    OBSTACLE_WARNING_MOVE_SPEED, OBSTACLE_WARNING_WIDTH,
};
use crate::geom::{
    lemma_mod_in_block, lemma_opposite_involution, opposite, opposite_spec, positioned_rect_model,
    positioned_rectangle, valid_rixel, RectModel, Rectangle,
};
use crate::rng::rand_range;

verus! {

/// An obstacle, fully described by its spawn coordinate, dimensions, speed
/// and current lifetime.
#[derive(Clone, Copy, Debug, PartialEq, Eq, Structural)]
pub struct Obstacle {
    /// Where the obstacle comes from: a perimeter coordinate, fixed at
    /// spawn.
    pub rixel: i64,
    /// Distance the leading edge advances per tick.
    pub speed: i64,
    /// Extent across the travel axis.
    pub width: i64,
    /// Nominal (full) extent along the travel axis.
    pub length: i64,
    /// Ticks since the obstacle became active; negative during the warning
    /// phase.
    pub lifetime: i64,
}

impl Obstacle {
    /// Well-formedness: the dimensions and speed are the game constants,
    /// the width is even (so its half is exact), the spawn coordinate is a
    /// valid rixel far enough from the corners for the full width to fit on
    /// its edge, and the lifetime is within its machine-limit range.
    pub open spec fn wf(self) -> bool {
        let m = (self.rixel as int) % (FIELD_EDGE_LENGTH as int);
        &&& self.speed == OBSTACLE_SPEED
        &&& self.length == OBSTACLE_LENGTH
        &&& self.width % 2 == 0
        &&& OBSTACLE_MIN_WIDTH <= self.width < OBSTACLE_MAX_WIDTH
        &&& valid_rixel(self.rixel as int)
        &&& self.width / 2 <= m < FIELD_EDGE_LENGTH - self.width / 2
        &&& -OBSTACLE_PRE_SPAWN_WARN_TICKS <= self.lifetime <= OBSTACLE_LIFETIME_CAP
    }

    /// Randomly generate a new obstacle: a uniformly random side, an even
    /// width drawn uniformly from the allowed range, and a uniformly random
    /// offset within the side's span that keeps the full width inside the
    /// edge. The new obstacle's lifetime starts at the beginning of the
    /// warning phase.
    pub fn spawn(rng: &mut ThreadRng) -> (ob: Obstacle)
        ensures
            ob.wf(),
            ob.lifetime == -OBSTACLE_PRE_SPAWN_WARN_TICKS,
    {
        let half_width = rand_range(rng, OBSTACLE_MIN_WIDTH / 2, OBSTACLE_MAX_WIDTH / 2);
        let width = half_width * 2;
        let side = rand_range(rng, 0, 4);
        let offset = rand_range(rng, half_width, FIELD_EDGE_LENGTH - half_width);
        let rixel = if side == 0 {
            offset
        } else if side == 1 {
            FIELD_EDGE_LENGTH + offset
        } else if side == 2 {
            2 * FIELD_EDGE_LENGTH + offset
        } else {
            3 * FIELD_EDGE_LENGTH + offset
        };
        proof {
            let l = FIELD_EDGE_LENGTH as int;
            if side == 0 {
                lemma_mod_in_block(rixel as int, l, 0);
            } else if side == 1 {
                lemma_mod_in_block(rixel as int, l, 1);
            } else if side == 2 {
                lemma_mod_in_block(rixel as int, l, 2);
            } else {
                lemma_mod_in_block(rixel as int, l, 3);
            }
        }
        Obstacle {
            rixel,
            speed: OBSTACLE_SPEED,
            width,
            length: OBSTACLE_LENGTH,
            lifetime: -OBSTACLE_PRE_SPAWN_WARN_TICKS,
        }
    }

    /// The lifetime value, in whole ticks rounded down, at which this
    /// obstacle has moved completely off the field. The exact crossing point
    /// is generally between two ticks; comparisons in the update rules are
    /// made on travel distances (`lifetime * speed`), which is exact.
    pub fn total_lifetime(&self) -> (r: i64)
        requires
            self.wf(),
        ensures
            r == total_lifetime_spec(*self),
    {
        (FIELD_EDGE_LENGTH + self.length) / self.speed
    }

    /// Get this obstacle's current rectangle, derived purely from its
    /// lifetime.
    pub fn rectangle(&self) -> (r: Rectangle)
        requires
            self.wf(),
        ensures
            r@ == rect_model(*self, self.lifetime as int),
    {
        let travel = self.lifetime * self.speed;
        let distance = if travel > FIELD_EDGE_LENGTH {
            FIELD_EDGE_LENGTH
        } else {
            travel
        };
        let len = if self.lifetime < 0 || travel > FIELD_EDGE_LENGTH + self.length {
            0
        } else if travel < self.length {
            travel
        } else if travel > FIELD_EDGE_LENGTH {
            self.length - (travel - FIELD_EDGE_LENGTH)
        } else {
            self.length
        };
        positioned_rectangle(self.rixel, distance, len, self.width)
    }

    /// Get this obstacle's current warning-indicator rectangle: a thin line
    /// that grows inward from the spawn point before the obstacle spawns,
    /// stays at full field length while the obstacle is active, and finally
    /// recedes from the diametrically opposite perimeter point.
    pub fn warning_rectangle(&self) -> (r: Rectangle)
        requires
            self.wf(),
        ensures
            r@ == warning_rect_model(*self, self.lifetime as int),
    {
        if self.lifetime < 0 {
            let grown = OBSTACLE_WARNING_MOVE_SPEED * (self.lifetime + OBSTACLE_PRE_SPAWN_WARN_TICKS);
            let dist = if grown > FIELD_EDGE_LENGTH {
                FIELD_EDGE_LENGTH
            } else {
                grown
            };
            positioned_rectangle(self.rixel, dist, dist, OBSTACLE_WARNING_WIDTH)
        } else if self.lifetime * self.speed < FIELD_EDGE_LENGTH + self.length + self.speed
            * OBSTACLE_HIDE_DELAY_TICKS {
            positioned_rectangle(
                self.rixel,
                FIELD_EDGE_LENGTH,
                FIELD_EDGE_LENGTH,
                OBSTACLE_WARNING_WIDTH,
            )
        } else {
            let receded = ((self.lifetime - OBSTACLE_HIDE_DELAY_TICKS) * self.speed
                - (FIELD_EDGE_LENGTH + self.length)) * OBSTACLE_WARNING_MOVE_SPEED / self.speed;
            let dist = FIELD_EDGE_LENGTH - receded;
            proof {
                lemma_opposite_involution(self.rixel as int);
            }
            positioned_rectangle(opposite(self.rixel), dist, dist, OBSTACLE_WARNING_WIDTH)
        }
    }
}

/// The lifetime, rounded down to whole ticks, after which the obstacle has
/// fully left the field.
pub open spec fn total_lifetime_spec(ob: Obstacle) -> int {
    (FIELD_EDGE_LENGTH + ob.length) / (ob.speed as int)
}

/// How far the obstacle's leading edge has advanced inward at the given
/// lifetime, clamped at the far edge of the field.
pub open spec fn travel_distance(ob: Obstacle, lifetime: int) -> int {
    if lifetime * ob.speed > FIELD_EDGE_LENGTH {
        FIELD_EDGE_LENGTH as int
    } else {
        lifetime * ob.speed
    }
}

/// The obstacle's visible length at the given lifetime: zero outside the
/// active phase, growing as the obstacle enters, pinned at the nominal
/// length on the plateau, and shrinking as the trailing edge exits. The
/// cutoff `lifetime * speed > FIELD_EDGE_LENGTH + length` states, in exact
/// travel distances, that the lifetime has passed the total lifetime.
pub open spec fn visible_length(ob: Obstacle, lifetime: int) -> int {
    let travel = lifetime * ob.speed;
    if lifetime < 0 || travel > FIELD_EDGE_LENGTH + ob.length {
        0
    } else if travel < ob.length {
        travel
    } else if travel > FIELD_EDGE_LENGTH {
        ob.length - (travel - FIELD_EDGE_LENGTH)
    } else {
        ob.length as int
    }
}

/// The obstacle's body rectangle at the given lifetime.
pub open spec fn rect_model(ob: Obstacle, lifetime: int) -> RectModel {
    positioned_rect_model(
        ob.rixel as int,
        travel_distance(ob, lifetime),
        visible_length(ob, lifetime),
        ob.width as int,
    )
}

/// The warning-indicator rectangle at the given lifetime: a line whose
/// length and anchor point depend on the phase. While growing or static it
/// is anchored at the obstacle's own spawn point; while receding it is
/// anchored at the diametrically opposite perimeter point.
pub open spec fn warning_rect_model(ob: Obstacle, lifetime: int) -> RectModel {
    let l = FIELD_EDGE_LENGTH as int;
    if lifetime < 0 {
        let grown = OBSTACLE_WARNING_MOVE_SPEED * (lifetime + OBSTACLE_PRE_SPAWN_WARN_TICKS);
        let dist = if grown > l {
            l
        } else {
            grown
        };
        positioned_rect_model(ob.rixel as int, dist, dist, OBSTACLE_WARNING_WIDTH as int)
    } else if lifetime * ob.speed < l + ob.length + ob.speed * OBSTACLE_HIDE_DELAY_TICKS {
        positioned_rect_model(ob.rixel as int, l, l, OBSTACLE_WARNING_WIDTH as int)
    } else {
        let receded = ((lifetime - OBSTACLE_HIDE_DELAY_TICKS) * ob.speed - (l + ob.length))
            * OBSTACLE_WARNING_MOVE_SPEED / (ob.speed as int);
        let dist = l - receded;
        positioned_rect_model(opposite_spec(ob.rixel as int), dist, dist, OBSTACLE_WARNING_WIDTH as int)
    }
}

/// Whether the despawn rule keeps the obstacle at the given lifetime: it is
/// kept until it has fully crossed the field and its warning line has fully
/// receded.
pub open spec fn keep_at(ob: Obstacle, lifetime: int) -> bool {
    lifetime * ob.speed < crate::consts::OBSTACLE_DESPAWN_TRAVEL
}

/// Law: for whole-tick lifetimes, having passed the total lifetime — whose
/// exact crossing point generally falls between two ticks — is precisely the
/// travel-distance comparison the lifecycle rules use: `lifetime` is past
/// `total_lifetime` if and only if `lifetime * speed` exceeds the field edge
/// plus the nominal length.
pub proof fn lemma_total_lifetime_cutoff(ob: Obstacle, lifetime: int)
    requires
        ob.wf(),
    ensures
        (lifetime > total_lifetime_spec(ob)) == (lifetime * ob.speed > FIELD_EDGE_LENGTH
            + ob.length),
{
    assert(lifetime * ob.speed == 3000 * lifetime) by (nonlinear_arith)
        requires
            ob.speed == 3000,
    ;
    assert((800000int) / (3000int) == 266);
}

/// Law: the visible length is zero before spawn and once the total lifetime
/// has passed, equals the travel distance while the obstacle grows in,
/// equals the nominal length over the whole plateau, shrinks linearly while
/// the obstacle exits, and is never negative or longer than the nominal
/// length.
pub proof fn lemma_visible_length_phases(ob: Obstacle, lifetime: int)
    requires
        ob.wf(),
    ensures
        lifetime < 0 ==> visible_length(ob, lifetime) == 0,
        lifetime * ob.speed > FIELD_EDGE_LENGTH + ob.length ==> visible_length(ob, lifetime) == 0,
        0 <= lifetime * ob.speed <= ob.length ==> visible_length(ob, lifetime) == lifetime
            * ob.speed,
        ob.length <= lifetime * ob.speed <= FIELD_EDGE_LENGTH ==> visible_length(ob, lifetime)
            == ob.length,
        FIELD_EDGE_LENGTH <= lifetime * ob.speed <= FIELD_EDGE_LENGTH + ob.length
            ==> visible_length(ob, lifetime) == ob.length - (lifetime * ob.speed
            - FIELD_EDGE_LENGTH),
        0 <= visible_length(ob, lifetime) <= ob.length,
{
}

/// Law: the visible length is a continuous function of the lifetime: from
/// one tick to the next it never jumps by more than the distance the
/// obstacle travels in one tick, at every phase boundary included.
pub proof fn lemma_visible_length_continuous(ob: Obstacle, lifetime: int)
    requires
        ob.wf(),
    ensures
        -ob.speed <= visible_length(ob, lifetime + 1) - visible_length(ob, lifetime) <= ob.speed,
{
}

} // verus!
