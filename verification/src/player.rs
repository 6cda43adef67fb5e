//! The player: a fixed-size square avatar with a score and a larger
//! "collector" zone centered on it that scores points on overlap without
//! being lethal.

use vstd::prelude::*;

use crate::consts::{COLLECTOR_EDGE_LENGTH, FIELD_EDGE_LENGTH, PLAYER_EDGE_LENGTH};
use crate::geom::{RectModel, Rectangle};

verus! {

/// Offset from the player's top-left corner to the collector's top-left
/// corner: half the difference of the two edge lengths, so the two squares
/// share a center.
pub const COLLECTOR_OFFSET: i64 = -15 * crate::consts::SUBUNITS_PER_PIXEL;

/// Tracks information about the player and their avatar.
#[derive(Clone, Copy, Debug, PartialEq, Eq, Structural)]
pub struct Player {
    /// The avatar's solid square, in playfield-local coordinates.
    pub rect: Rectangle,
    /// The running score.
    pub score: u32,
}

/// The player in its initial state: at the field's top-left corner with a
/// zero score.
pub open spec fn initial_player() -> Player {
    Player {
        rect: Rectangle { x: 0, y: 0, w: PLAYER_EDGE_LENGTH, h: PLAYER_EDGE_LENGTH },
        score: 0,
    }
}

/// The collector zone: a `COLLECTOR_EDGE_LENGTH` square centered on the
/// player's rectangle.
pub open spec fn collector_model(p: Player) -> RectModel {
    RectModel {
        x: p.rect.x + COLLECTOR_OFFSET,
        y: p.rect.y + COLLECTOR_OFFSET,
        w: COLLECTOR_EDGE_LENGTH as int,
        h: COLLECTOR_EDGE_LENGTH as int,
    }
}

impl Player {
    /// Well-formedness: the avatar is the fixed-size square and sits inside
    /// the playfield.
    pub open spec fn wf(self) -> bool {
        &&& self.rect.w == PLAYER_EDGE_LENGTH
        &&& self.rect.h == PLAYER_EDGE_LENGTH
        &&& 0 <= self.rect.x <= FIELD_EDGE_LENGTH - PLAYER_EDGE_LENGTH
        &&& 0 <= self.rect.y <= FIELD_EDGE_LENGTH - PLAYER_EDGE_LENGTH
    }

    /// A fresh player in the initial state.
    pub fn new() -> (p: Player)
        ensures
            p == initial_player(),
            p.wf(),
    {
        Player {
            rect: Rectangle { x: 0, y: 0, w: PLAYER_EDGE_LENGTH, h: PLAYER_EDGE_LENGTH },
            score: 0,
        }
    }

    /// The collector zone, recomputed from the avatar's current position.
    pub fn collector_rectangle(&self) -> (r: Rectangle)
        requires
            self.wf(),
        ensures
            r@ == collector_model(*self),
    {
        Rectangle {
            x: self.rect.x + COLLECTOR_OFFSET,
            y: self.rect.y + COLLECTOR_OFFSET,
            w: COLLECTOR_EDGE_LENGTH,
            h: COLLECTOR_EDGE_LENGTH,
        }
    }
}

} // verus!
