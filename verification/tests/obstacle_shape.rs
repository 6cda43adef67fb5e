//! Obstacle lifecycle behavior: the body rectangle's growth, plateau and
//! shrink phases, and the warning indicator's three phases.

use rixel_dodge::consts::{FIELD_EDGE_LENGTH, SUBUNITS_PER_PIXEL};
use rixel_dodge::geom::Rectangle;
use rixel_dodge::obstacle::Obstacle;

const L: i64 = FIELD_EDGE_LENGTH;

fn mid_north(lifetime: i64) -> Obstacle {
    Obstacle {
        rixel: L / 2,
        speed: 3 * SUBUNITS_PER_PIXEL,
        width: 10 * SUBUNITS_PER_PIXEL,
        length: 300 * SUBUNITS_PER_PIXEL,
        lifetime,
    }
}

#[test]
fn total_lifetime_in_ticks() {
    // (500 + 300) / 3 pixels per tick, rounded down.
    assert_eq!(mid_north(0).total_lifetime(), 266);
}

#[test]
fn body_is_empty_before_spawn() {
    let r = mid_north(-1).rectangle();
    assert_eq!(r.h, 0);
    let r = mid_north(-40).rectangle();
    assert_eq!(r.h, 0);
}

#[test]
fn body_grows_while_entering() {
    // At lifetime 50 the obstacle has traveled 150 pixels and is 150 long.
    let r = mid_north(50).rectangle();
    assert_eq!(
        r,
        Rectangle {
            x: 245 * SUBUNITS_PER_PIXEL,
            y: 0,
            w: 10 * SUBUNITS_PER_PIXEL,
            h: 150 * SUBUNITS_PER_PIXEL,
        }
    );
}

#[test]
fn body_at_half_total_lifetime_is_mid_field() {
    // The mid-North obstacle at half its total lifetime: horizontally
    // centered, at full width and nominal length, its leading edge
    // lifetime * speed below the top edge.
    let ob = mid_north(133);
    let r = ob.rectangle();
    assert_eq!(
        r,
        Rectangle {
            x: 245 * SUBUNITS_PER_PIXEL,
            y: 99 * SUBUNITS_PER_PIXEL,
            w: 10 * SUBUNITS_PER_PIXEL,
            h: 300 * SUBUNITS_PER_PIXEL,
        }
    );
    // Centered on the field's vertical midline.
    assert_eq!(r.x + r.w / 2, L / 2);
    // Leading edge exactly at the traveled distance.
    assert_eq!(r.y + r.h, 133 * 3 * SUBUNITS_PER_PIXEL);
}

#[test]
fn body_shrinks_while_exiting() {
    // At lifetime 200 the leading edge has exited (600 > 500 pixels), so the
    // visible length is 300 - 100 = 200 pixels, pinned at the far edge.
    let r = mid_north(200).rectangle();
    assert_eq!(
        r,
        Rectangle {
            x: 245 * SUBUNITS_PER_PIXEL,
            y: 300 * SUBUNITS_PER_PIXEL,
            w: 10 * SUBUNITS_PER_PIXEL,
            h: 200 * SUBUNITS_PER_PIXEL,
        }
    );
}

#[test]
fn body_is_empty_after_total_lifetime() {
    // 267 * 3 = 801 > 800 pixels: just past the total lifetime.
    assert_eq!(mid_north(267).rectangle().h, 0);
    // 266 * 3 = 798: still (barely) visible.
    assert_eq!(mid_north(266).rectangle().h, 2 * SUBUNITS_PER_PIXEL);
}

#[test]
fn body_length_is_continuous_across_phases() {
    let mut prev = mid_north(-41).rectangle().h;
    for lt in -40..320 {
        let h = mid_north(lt).rectangle().h;
        assert!(
            (h - prev).abs() <= 3 * SUBUNITS_PER_PIXEL,
            "jump at lifetime {}: {} -> {}",
            lt,
            prev,
            h
        );
        prev = h;
    }
}

#[test]
fn warning_grows_from_spawn_point() {
    // At the very start of the warning phase the line has zero length.
    let r = mid_north(-40).warning_rectangle();
    assert_eq!(r, Rectangle { x: L / 2 - 500, y: 0, w: 1000, h: 0 });
    // Half-grown after 10 ticks: 10 * 25 = 250 pixels.
    let r = mid_north(-30).warning_rectangle();
    assert_eq!(
        r,
        Rectangle { x: L / 2 - 500, y: 0, w: 1000, h: 250 * SUBUNITS_PER_PIXEL }
    );
    // Fully grown by the finish-wait part of the phase.
    let r = mid_north(-20).warning_rectangle();
    assert_eq!(r, Rectangle { x: L / 2 - 500, y: 0, w: 1000, h: L });
}

#[test]
fn warning_stays_full_while_active() {
    for lt in [0, 100, 266, 286] {
        let r = mid_north(lt).warning_rectangle();
        assert_eq!(r, Rectangle { x: L / 2 - 500, y: 0, w: 1000, h: L }, "lifetime {}", lt);
    }
}

#[test]
fn warning_recedes_from_opposite_side() {
    // At lifetime 287 the recession has just begun: the line is anchored at
    // the opposite (South) point and has receded by floor(1000 * 25 / 3)
    // subunits.
    let r = mid_north(287).warning_rectangle();
    assert_eq!(r, Rectangle { x: L / 2 - 500, y: 8_333, w: 1000, h: 491_667 });
}
