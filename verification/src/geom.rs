//! Perimeter geometry: pure functions mapping a one-dimensional perimeter
//! coordinate ("rixel") to a side of the playfield and to an axis-aligned
//! rectangle in playfield-local coordinates (origin at the playfield's
//! top-left corner, `+x` right, `+y` down).
//!
//! A rixel is a position along the playfield's perimeter, walked clockwise
//! from the top-left corner; one unit is one coordinate subunit of linear
//! distance along an edge. Each edge spans one `FIELD_EDGE_LENGTH`-wide
//! interval: `[0, L)` is North, `[L, 2L)` East, `[2L, 3L)` South and
//! `[3L, 4L)` West. A rixel that is exactly `0`, negative, or at least `4L`
//! is invalid.

use vstd::prelude::*;
use vstd::arithmetic::div_mod::{lemma_mod_multiples_vanish, lemma_small_mod};

use crate::consts::{FIELD_EDGE_BORDER_WIDTH, FIELD_EDGE_LENGTH, WIN_HEIGHT, WIN_WIDTH};

verus! {

/// Coordinate magnitude accepted by the geometry functions; generous enough
/// for every value the game produces while keeping all sums within `i64`.
pub const GEOM_BOUND: i64 = 1_000_000_000_000_000;

/// The side of the playfield an obstacle comes from.
#[derive(Clone, Copy, Debug, PartialEq, Eq, Structural)]
pub enum Direction {
    North,
    East,
    South,
    West,
}

/// A gameplay error: a perimeter coordinate outside the valid range, which
/// is a programming-invariant violation rather than an expected runtime
/// condition.
#[derive(Clone, Copy, Debug, PartialEq, Eq, Structural)]
pub enum Error {
    ObstacleRixelOutOfBounds(i64),
}

/// An axis-aligned rectangle in subunit coordinates.
#[derive(Clone, Copy, Debug, PartialEq, Eq, Structural)]
pub struct Rectangle {
    pub x: i64,
    pub y: i64,
    pub w: i64,
    pub h: i64,
}

/// The mathematical model of a rectangle: the same four components as
/// unbounded integers.
pub struct RectModel {
    pub x: int,
    pub y: int,
    pub w: int,
    pub h: int,
}

impl View for Rectangle {
    type V = RectModel;

    open spec fn view(&self) -> RectModel {
        RectModel { x: self.x as int, y: self.y as int, w: self.w as int, h: self.h as int }
    }
}

/// All four components of the model lie within `GEOM_BOUND`.
pub open spec fn rect_bounded(r: RectModel) -> bool {
    &&& -GEOM_BOUND <= r.x <= GEOM_BOUND
    &&& -GEOM_BOUND <= r.y <= GEOM_BOUND
    &&& -GEOM_BOUND <= r.w <= GEOM_BOUND
    &&& -GEOM_BOUND <= r.h <= GEOM_BOUND
}

/// Two rectangles overlap when they share interior area: touching edges do
/// not count.
pub open spec fn overlaps(a: RectModel, b: RectModel) -> bool {
    &&& a.x < b.x + b.w
    &&& a.x + a.w > b.x
    &&& a.y < b.y + b.h
    &&& a.y + a.h > b.y
}

/// Translation that centers the fixed-size playfield in the fixed-size
/// window.
pub open spec fn on_playfield_model(r: RectModel) -> RectModel {
    RectModel {
        x: r.x + (WIN_WIDTH - FIELD_EDGE_LENGTH) / 2,
        y: r.y + (WIN_HEIGHT - FIELD_EDGE_LENGTH) / 2,
        w: r.w,
        h: r.h,
    }
}

impl Rectangle {
    /// Whether this rectangle shares interior area with `other`.
    pub fn overlaps_rectangle(&self, other: &Rectangle) -> (r: bool)
        requires
            rect_bounded(self@),
            rect_bounded(other@),
        ensures
            r == overlaps(self@, other@),
    {
        self.x < other.x + other.w && self.x + self.w > other.x && self.y < other.y + other.h
            && self.y + self.h > other.y
    }

    /// Converts playfield-local coordinates to window coordinates, assuming
    /// the playfield sits centered in the window.
    pub fn on_playfield(&self) -> (r: Rectangle)
        requires
            rect_bounded(self@),
        ensures
            r@ == on_playfield_model(self@),
    {
        Rectangle {
            x: self.x + (WIN_WIDTH - FIELD_EDGE_LENGTH) / 2,
            y: self.y + (WIN_HEIGHT - FIELD_EDGE_LENGTH) / 2,
            w: self.w,
            h: self.h,
        }
    }
}

/// The playfield itself: the square the game is played on.
pub fn field_rectangle() -> (r: Rectangle)
    ensures
        r == (Rectangle { x: 0, y: 0, w: FIELD_EDGE_LENGTH, h: FIELD_EDGE_LENGTH }),
{
    Rectangle { x: 0, y: 0, w: FIELD_EDGE_LENGTH, h: FIELD_EDGE_LENGTH }
}

/// The border frame drawn behind the playfield: the field extended by one
/// border width on every side.
pub fn field_border_rectangle() -> (r: Rectangle)
    ensures
        r.x == -FIELD_EDGE_BORDER_WIDTH,
        r.y == -FIELD_EDGE_BORDER_WIDTH,
        r.w == FIELD_EDGE_BORDER_WIDTH * 2 + FIELD_EDGE_LENGTH,
        r.h == FIELD_EDGE_BORDER_WIDTH * 2 + FIELD_EDGE_LENGTH,
{
    Rectangle {
        x: -FIELD_EDGE_BORDER_WIDTH,
        y: -FIELD_EDGE_BORDER_WIDTH,
        w: FIELD_EDGE_BORDER_WIDTH * 2 + FIELD_EDGE_LENGTH,
        h: FIELD_EDGE_BORDER_WIDTH * 2 + FIELD_EDGE_LENGTH,
    }
}

/// A rixel is valid when it lies strictly between `0` and `4L`. Note that
/// `0` itself, though it lies on the North edge, is rejected.
pub open spec fn valid_rixel(rixel: int) -> bool {
    0 < rixel < 4 * FIELD_EDGE_LENGTH
}

/// The side a valid rixel lies on (meaningful only for valid rixels).
pub open spec fn direction_of(rixel: int) -> Direction {
    if rixel < FIELD_EDGE_LENGTH {
        Direction::North
    } else if rixel < 2 * FIELD_EDGE_LENGTH {
        Direction::East
    } else if rixel < 3 * FIELD_EDGE_LENGTH {
        Direction::South
    } else {
        Direction::West
    }
}

/// Classifies a rixel by the four half-open side intervals; every rixel in
/// `(0, L)` is North, `[L, 2L)` East, `[2L, 3L)` South, `[3L, 4L)` West, and
/// everything else — including exactly `0` — is out of bounds.
pub fn rixel_to_direction(rixel: i64) -> (r: Result<Direction, Error>)
    ensures
        valid_rixel(rixel as int) ==> r == Ok::<Direction, Error>(direction_of(rixel as int)),
        !valid_rixel(rixel as int) ==> r == Err::<Direction, Error>(
            Error::ObstacleRixelOutOfBounds(rixel),
        ),
{
    if rixel > 0 && rixel < FIELD_EDGE_LENGTH {
        Ok(Direction::North)
    } else if rixel > 0 && rixel < 2 * FIELD_EDGE_LENGTH {
        Ok(Direction::East)
    } else if rixel > 0 && rixel < 3 * FIELD_EDGE_LENGTH {
        Ok(Direction::South)
    } else if rixel > 0 && rixel < 4 * FIELD_EDGE_LENGTH {
        Ok(Direction::West)
    } else {
        Err(Error::ObstacleRixelOutOfBounds(rixel))
    }
}

/// Distance along the perimeter from `rixel` to the next corner clockwise.
pub open spec fn rixels_to_next_corner_spec(rixel: int) -> int {
    FIELD_EDGE_LENGTH - rixel % (FIELD_EDGE_LENGTH as int)
}

/// Calculates the distance in rixels from the given rixel to the next
/// corner.
pub fn rixels_to_next_corner(rixel: i64) -> (r: i64)
    requires
        0 <= rixel,
    ensures
        r == rixels_to_next_corner_spec(rixel as int),
{
    FIELD_EDGE_LENGTH - rixel % FIELD_EDGE_LENGTH
}

/// The rectangle for a shape of the given `length` and `width` whose leading
/// edge has traveled `distance` inward from the perimeter point `rixel`.
///
/// The shape's long axis points inward: North/South shapes get dimensions
/// `(width, length)`, East/West shapes `(length, width)`. As `distance` grows
/// from `0` to `L`, the leading edge moves from the spawn perimeter to the
/// opposite edge.
pub open spec fn positioned_rect_model(rixel: int, distance: int, length: int, width: int)
    -> RectModel {
    let l = FIELD_EDGE_LENGTH as int;
    let distance_back = l - rixels_to_next_corner_spec(rixel);
    match direction_of(rixel) {
        Direction::North => RectModel {
            x: rixel - width / 2,
            y: -length + distance,
            w: width,
            h: length,
        },
        Direction::East => RectModel {
            x: l - distance,
            y: rixel - l - width / 2,
            w: length,
            h: width,
        },
        Direction::South => RectModel {
            x: rixel - distance_back * 2 - l - width / 2,
            y: l - distance,
            w: width,
            h: length,
        },
        Direction::West => RectModel {
            x: -length + distance,
            y: 4 * l - rixel - width / 2,
            w: length,
            h: width,
        },
    }
}

/// Like [`positioning_to_rectangle`], for a rixel already known to be valid.
pub fn positioned_rectangle(rixel: i64, distance: i64, length: i64, width: i64) -> (r: Rectangle)
    requires
        valid_rixel(rixel as int),
        width % 2 == 0,
        0 <= width <= FIELD_EDGE_LENGTH,
        -GEOM_BOUND <= distance <= GEOM_BOUND,
        -GEOM_BOUND <= length <= GEOM_BOUND,
    ensures
        r@ == positioned_rect_model(rixel as int, distance as int, length as int, width as int),
{
    let l = FIELD_EDGE_LENGTH;
    let half_width = width / 2;
    let distance_back = l - rixels_to_next_corner(rixel);
    let dir = match rixel_to_direction(rixel) {
        Ok(dir) => dir,
        // Impossible: the rixel is valid.
        Err(_) => vstd::pervasive::unreached(),
    };
    match dir {
        Direction::North => Rectangle {
            x: rixel - half_width,
            y: -length + distance,
            w: width,
            h: length,
        },
        Direction::East => Rectangle {
            x: l - distance,
            y: rixel - l - half_width,
            w: length,
            h: width,
        },
        Direction::South => Rectangle {
            x: rixel - distance_back * 2 - l - half_width,
            y: l - distance,
            w: width,
            h: length,
        },
        Direction::West => Rectangle {
            x: -length + distance,
            y: 4 * l - rixel - half_width,
            w: length,
            h: width,
        },
    }
}

/// Convert obstacle positioning data (rixel, distance traveled inward from
/// the edge, and shape dimensions) to a rectangle; fails exactly when the
/// rixel is invalid.
pub fn positioning_to_rectangle(rixel: i64, distance: i64, length: i64, width: i64) -> (r: Result<
    Rectangle,
    Error,
>)
    requires
        width % 2 == 0,
        0 <= width <= FIELD_EDGE_LENGTH,
        -GEOM_BOUND <= distance <= GEOM_BOUND,
        -GEOM_BOUND <= length <= GEOM_BOUND,
    ensures
        valid_rixel(rixel as int) ==> (r matches Ok(rect) && rect@ == positioned_rect_model(
            rixel as int,
            distance as int,
            length as int,
            width as int,
        )),
        !valid_rixel(rixel as int) ==> r == Err::<Rectangle, Error>(
            Error::ObstacleRixelOutOfBounds(rixel),
        ),
{
    if rixel > 0 && rixel < 4 * FIELD_EDGE_LENGTH {
        Ok(positioned_rectangle(rixel, distance, length, width))
    } else {
        Err(Error::ObstacleRixelOutOfBounds(rixel))
    }
}

/// The perimeter point diametrically opposite `rixel`.
pub open spec fn opposite_spec(rixel: int) -> int {
    let l = FIELD_EDGE_LENGTH as int;
    (rixel + 2 * rixels_to_next_corner_spec(rixel) + l) % (4 * l)
}

/// Reflects a perimeter coordinate to the diametrically opposite point on
/// the perimeter.
pub fn opposite(rixel: i64) -> (r: i64)
    requires
        0 <= rixel < 4 * FIELD_EDGE_LENGTH,
    ensures
        r == opposite_spec(rixel as int),
{
    let to_next_corner = rixels_to_next_corner(rixel);
    (rixel + to_next_corner + FIELD_EDGE_LENGTH + to_next_corner) % (4 * FIELD_EDGE_LENGTH)
}

/// For `x` in the `k`-th block of `m` values, `x % m` is the offset into
/// that block.
pub(crate) proof fn lemma_mod_in_block(x: int, m: int, k: int)
    requires
        m > 0,
        k * m <= x < k * m + m,
    ensures
        x % m == x - k * m,
{
    lemma_mod_multiples_vanish(k, x - k * m, m);
    lemma_small_mod((x - k * m) as nat, m as nat);
}

/// Law: reflecting a perimeter coordinate to the opposite side twice gives
/// back the original coordinate, for every valid rixel that does not sit
/// exactly on a corner; the reflection itself is again a valid non-corner
/// rixel. (A corner coordinate such as `FIELD_EDGE_LENGTH` itself reflects
/// onto the excluded coordinate `0`, so corners are left out.)
pub proof fn lemma_opposite_involution(rixel: int)
    requires
        valid_rixel(rixel),
        rixel % (FIELD_EDGE_LENGTH as int) != 0,
    ensures
        valid_rixel(opposite_spec(rixel)),
        opposite_spec(rixel) % (FIELD_EDGE_LENGTH as int) != 0,
        opposite_spec(opposite_spec(rixel)) == rixel,
{
    let l = FIELD_EDGE_LENGTH as int;
    if rixel < l {
        lemma_mod_in_block(rixel, l, 0);
        lemma_mod_in_block(3 * l - rixel, 4 * l, 0);
        lemma_mod_in_block(3 * l - rixel, l, 2);
        lemma_mod_in_block(4 * l + rixel, 4 * l, 1);
    } else if rixel < 2 * l {
        lemma_mod_in_block(rixel, l, 1);
        lemma_mod_in_block(5 * l - rixel, 4 * l, 0);
        lemma_mod_in_block(5 * l - rixel, l, 3);
        lemma_mod_in_block(4 * l + rixel, 4 * l, 1);
    } else if rixel < 3 * l {
        lemma_mod_in_block(rixel, l, 2);
        lemma_mod_in_block(7 * l - rixel, 4 * l, 1);
        lemma_mod_in_block(3 * l - rixel, l, 0);
        lemma_mod_in_block(rixel, 4 * l, 0);
    } else {
        lemma_mod_in_block(rixel, l, 3);
        lemma_mod_in_block(9 * l - rixel, 4 * l, 1);
        lemma_mod_in_block(5 * l - rixel, l, 1);
        lemma_mod_in_block(rixel, 4 * l, 0);
    }
}

/// How far the given rectangle's leading edge has traveled inward from the
/// side `dir`'s perimeter line.
pub open spec fn inward_depth(dir: Direction, r: RectModel) -> int {
    match dir {
        Direction::North => r.y + r.h,
        Direction::East => FIELD_EDGE_LENGTH - r.x,
        Direction::South => FIELD_EDGE_LENGTH - r.y,
        Direction::West => r.x + r.w,
    }
}

/// Law: for every valid rixel, the positioned rectangle's leading edge sits
/// exactly `distance` inward from the spawn perimeter. In particular, at
/// `distance == 0` the leading edge lies on the perimeter and at
/// `distance == FIELD_EDGE_LENGTH` it lies on the opposite edge.
pub proof fn lemma_positioned_depth(rixel: int, distance: int, length: int, width: int)
    requires
        valid_rixel(rixel),
    ensures
        inward_depth(
            direction_of(rixel),
            positioned_rect_model(rixel, distance, length, width),
        ) == distance,
{
}

} // verus!
