//! The game state and its per-tick update pipeline. Each tick runs, in a
//! fixed order: input handling, collision detection and scoring, spawning,
//! despawning, and the reset check. The host loop supplies the pressed-key
//! snapshot and a monotonic millisecond clock reading; everything else is
//! computed here.
//!
//! Each stage's effect is captured by an `..._applied` relation between the
//! state before and after the stage; [`GameState::update`] chains them. The
//! relations say nothing about the random source, whose draws are covered by
//! the well-formedness facts the relations do state.

use vstd::prelude::*;
use rand::rngs::ThreadRng;

use crate::consts::{
    DODGE_SCORE, FIELD_EDGE_LENGTH, INITIAL_SPAWN_INTERVAL_MS, OBSTACLE_DESPAWN_TRAVEL,
    OBSTACLE_PRE_SPAWN_WARN_TICKS, PLAYER_SLOWMO_SPEED, PLAYER_SPEED, RESET_COUNTDOWN_MS,
};
use crate::geom::{overlaps, RectModel};
use crate::obstacle::{keep_at, rect_model, Obstacle};
use crate::player::{collector_model, initial_player, Player};
use crate::rng::fresh_rng;
use crate::sched::{obstacle_spawn_interval, spawn_interval_spec};
use crate::timing::Countdown;

verus! {

/// A snapshot of the pressed state of the game's keys, taken once per tick
/// by the host input source.
#[derive(Clone, Copy, Debug, PartialEq, Eq, Structural)]
pub struct InputState {
    pub left: bool,
    pub down: bool,
    pub up: bool,
    pub right: bool,
    pub slow: bool,
    pub quit: bool,
}

/// The root game state: the obstacle collection, the player, the random
/// source, spawn-timing bookkeeping, the running flag and the optional
/// reset countdown.
pub struct GameState {
    pub obstacles: Vec<Obstacle>,
    pub player: Player,
    pub rng: ThreadRng,
    /// Clock reading of the last spawn; `None` until the first spawn.
    pub last_spawned_ms: Option<u64>,
    /// Current wait between spawns, recomputed from the score at each spawn.
    pub spawn_interval_ms: u64,
    /// Cleared when the quit key is seen; the host loop then terminates.
    pub is_running: bool,
    /// `Some` while a loss animation runs; movement and scoring are frozen.
    pub reset_countdown: Option<Countdown>,
}

/// Every obstacle in the sequence is well-formed.
pub open spec fn obstacles_wf(obs: Seq<Obstacle>) -> bool {
    forall|i: int| 0 <= i < obs.len() ==> (#[trigger] obs[i]).wf()
}

/// Every obstacle in the sequence is still within its despawn bound.
pub open spec fn obstacles_live(obs: Seq<Obstacle>) -> bool {
    forall|i: int| 0 <= i < obs.len() ==> keep_at(#[trigger] obs[i], obs[i].lifetime as int)
}

/// The despawn rule, as a predicate usable with sequence filtering.
pub open spec fn keep_pred() -> spec_fn(Obstacle) -> bool {
    |ob: Obstacle| keep_at(ob, ob.lifetime as int)
}

/// `a` clamped into `[0, u32::MAX]`; the score arithmetic saturates there.
pub open spec fn sat_u32(a: int) -> int {
    if a > u32::MAX {
        u32::MAX as int
    } else {
        a
    }
}

/// A coordinate clamped so a shape of the given size stays inside the
/// field; the far edge is checked first, as the movement rules do.
pub open spec fn clamp_coord(v: int, size: int) -> int {
    if v + size > FIELD_EDGE_LENGTH {
        FIELD_EDGE_LENGTH - size
    } else if v < 0 {
        0
    } else {
        v
    }
}

/// Where the movement rules put the player's rectangle for the given input:
/// one step in the first pressed direction (left, down, up, right, in that
/// order of precedence; none while a reset countdown runs), then clamped
/// into the field on both axes.
pub open spec fn moved_player_model(pre: GameState, input: InputState) -> RectModel {
    let speed = if input.slow {
        PLAYER_SLOWMO_SPEED as int
    } else {
        PLAYER_SPEED as int
    };
    let r = pre.player.rect@;
    let (mx, my): (int, int) = if pre.reset_countdown is Some {
        (r.x, r.y)
    } else if input.left {
        (r.x - speed, r.y)
    } else if input.down {
        (r.x, r.y + speed)
    } else if input.up {
        (r.x, r.y - speed)
    } else if input.right {
        (r.x + speed, r.y)
    } else {
        (r.x, r.y)
    };
    RectModel { x: clamp_coord(mx, r.w), y: clamp_coord(my, r.h), w: r.w, h: r.h }
}

/// The input stage: the player moves and is clamped, the quit key clears
/// the running flag, and nothing else changes.
pub open spec fn input_applied(pre: GameState, input: InputState, post: GameState) -> bool {
    &&& post.player.rect@ == moved_player_model(pre, input)
    &&& post.player.score == pre.player.score
    &&& post.obstacles@ == pre.obstacles@
    &&& post.last_spawned_ms == pre.last_spawned_ms
    &&& post.spawn_interval_ms == pre.spawn_interval_ms
    &&& post.reset_countdown == pre.reset_countdown
    &&& post.is_running == (pre.is_running && !input.quit)
}

/// The obstacle with its lifetime advanced by one tick.
pub open spec fn advanced(ob: Obstacle) -> Obstacle {
    Obstacle { lifetime: (ob.lifetime + 1) as i64, ..ob }
}

/// Whether the `i`-th obstacle, once advanced this tick, overlaps the
/// player's solid rectangle.
pub open spec fn lethal_hit(pre: GameState, i: int) -> bool {
    overlaps(pre.player.rect@, rect_model(pre.obstacles@[i], pre.obstacles@[i].lifetime + 1))
}

/// Whether the `i`-th obstacle, once advanced this tick, scores: it misses
/// the player's solid rectangle but overlaps the collector zone.
pub open spec fn collects(pre: GameState, i: int) -> bool {
    &&& !lethal_hit(pre, i)
    &&& overlaps(
        collector_model(pre.player),
        rect_model(pre.obstacles@[i], pre.obstacles@[i].lifetime + 1),
    )
}

/// How many of the first `n` obstacles score this tick.
pub open spec fn collect_count(pre: GameState, n: int) -> int
    decreases n,
{
    if n <= 0 {
        0
    } else {
        collect_count(pre, n - 1) + if collects(pre, n - 1) {
            1int
        } else {
            0int
        }
    }
}

/// Whether any obstacle, once advanced this tick, hits the player.
pub open spec fn any_hit(pre: GameState) -> bool {
    exists|i: int| 0 <= i < pre.obstacles@.len() && #[trigger] lethal_hit(pre, i)
}

/// All gameplay fields are unchanged (the random source is not compared).
pub open spec fn same_gameplay(pre: GameState, post: GameState) -> bool {
    &&& post.obstacles@ == pre.obstacles@
    &&& post.player == pre.player
    &&& post.last_spawned_ms == pre.last_spawned_ms
    &&& post.spawn_interval_ms == pre.spawn_interval_ms
    &&& post.is_running == pre.is_running
    &&& post.reset_countdown == pre.reset_countdown
}

/// The collision stage: skipped entirely while a reset countdown runs.
/// Otherwise every obstacle's lifetime advances by one; the score grows by
/// one for each obstacle that touches the collector zone but not the player;
/// and a reset countdown starts exactly when some obstacle touches the
/// player. The countdown guard is checked once, before the loop, so the
/// first collision does not suppress the lifetime and score processing of
/// the obstacles after it in the same tick.
pub open spec fn collisions_applied(pre: GameState, now_ms: u64, post: GameState) -> bool {
    if pre.reset_countdown is Some {
        same_gameplay(pre, post)
    } else {
        let n = pre.obstacles@.len() as int;
        &&& post.obstacles@.len() == n
        &&& (forall|i: int| 0 <= i < n ==> post.obstacles@[i] == advanced(
            #[trigger] pre.obstacles@[i],
        ))
        &&& post.player.rect == pre.player.rect
        &&& post.player.score == sat_u32(pre.player.score + collect_count(pre, n))
        &&& post.reset_countdown == (if any_hit(pre) {
            Some(Countdown { start_ms: now_ms, duration_ms: RESET_COUNTDOWN_MS })
        } else {
            None::<Countdown>
        })
        &&& post.last_spawned_ms == pre.last_spawned_ms
        &&& post.spawn_interval_ms == pre.spawn_interval_ms
        &&& post.is_running == pre.is_running
    }
}

/// Milliseconds from `last` to `now`; zero if the clock reads earlier.
pub open spec fn elapsed_since(last: u64, now: u64) -> int {
    if now >= last {
        now - last
    } else {
        0
    }
}

/// A new obstacle spawns when none has ever spawned, or when more than the
/// current spawn interval has passed since the last spawn.
pub open spec fn should_spawn(pre: GameState, now_ms: u64) -> bool {
    match pre.last_spawned_ms {
        None => true,
        Some(last) => elapsed_since(last, now_ms) > pre.spawn_interval_ms,
    }
}

/// The spawn stage: when due, one well-formed obstacle at the start of its
/// warning phase is appended, the spawn time is recorded, and the next
/// interval is recomputed from the current score; otherwise nothing changes.
/// Which obstacle is appended depends on the random source, so only its
/// well-formedness is stated.
pub open spec fn spawn_applied(pre: GameState, now_ms: u64, post: GameState) -> bool {
    if should_spawn(pre, now_ms) {
        &&& post.obstacles@.len() == pre.obstacles@.len() + 1
        &&& post.obstacles@.subrange(0, pre.obstacles@.len() as int) == pre.obstacles@
        &&& post.obstacles@.last().wf()
        &&& post.obstacles@.last().lifetime == -OBSTACLE_PRE_SPAWN_WARN_TICKS
        &&& post.player == pre.player
        &&& post.last_spawned_ms == Some(now_ms)
        &&& post.spawn_interval_ms == spawn_interval_spec(pre.player.score)
        &&& post.is_running == pre.is_running
        &&& post.reset_countdown == pre.reset_countdown
    } else {
        same_gameplay(pre, post)
    }
}

/// The despawn stage: obstacles past their despawn bound are removed, in
/// order, and each removal awards the dodge bonus; everything else is
/// unchanged.
pub open spec fn despawn_applied(pre: GameState, post: GameState) -> bool {
    let kept = pre.obstacles@.filter(keep_pred());
    &&& post.obstacles@ == kept
    &&& post.player.score == sat_u32(
        pre.player.score + DODGE_SCORE * (pre.obstacles@.len() - kept.len()),
    )
    &&& post.player.rect == pre.player.rect
    &&& post.last_spawned_ms == pre.last_spawned_ms
    &&& post.spawn_interval_ms == pre.spawn_interval_ms
    &&& post.is_running == pre.is_running
    &&& post.reset_countdown == pre.reset_countdown
}

/// The reset stage: once a running countdown has elapsed past its duration,
/// the obstacles are cleared, the player returns to its initial state, the
/// countdown is cleared, and the final score is reported; otherwise nothing
/// changes and nothing is reported.
pub open spec fn reset_applied(
    pre: GameState,
    now_ms: u64,
    post: GameState,
    lost: Option<u32>,
) -> bool {
    match pre.reset_countdown {
        Some(c) => if c.done_spec(now_ms) {
            &&& post.obstacles@ == Seq::<Obstacle>::empty()
            &&& post.player == initial_player()
            &&& post.reset_countdown is None
            &&& post.last_spawned_ms == pre.last_spawned_ms
            &&& post.spawn_interval_ms == pre.spawn_interval_ms
            &&& post.is_running == pre.is_running
            &&& lost == Some(pre.player.score)
        } else {
            same_gameplay(pre, post) && lost is None
        },
        None => same_gameplay(pre, post) && lost is None,
    }
}

/// Law: whatever keys are held and however long they are held, the input
/// stage leaves the player's square clamped inside the field on both axes.
pub proof fn lemma_player_stays_in_field(pre: GameState, input: InputState, post: GameState)
    requires
        pre.player.wf(),
        input_applied(pre, input, post),
    ensures
        0 <= post.player.rect@.x <= FIELD_EDGE_LENGTH - crate::consts::PLAYER_EDGE_LENGTH,
        0 <= post.player.rect@.y <= FIELD_EDGE_LENGTH - crate::consts::PLAYER_EDGE_LENGTH,
{
}

/// Law: a collision starts the reset countdown, and every obstacle — those
/// after the colliding one included — still gets its lifetime advance and
/// collector scoring that same tick: the countdown guard is checked only
/// once, before the loop.
pub proof fn lemma_collision_starts_countdown(pre: GameState, now_ms: u64, post: GameState)
    requires
        pre.reset_countdown is None,
        collisions_applied(pre, now_ms, post),
        any_hit(pre),
    ensures
        post.reset_countdown == Some(
            Countdown { start_ms: now_ms, duration_ms: RESET_COUNTDOWN_MS },
        ),
        forall|i: int|
            0 <= i < pre.obstacles@.len() ==> post.obstacles@[i] == advanced(
                #[trigger] pre.obstacles@[i],
            ),
        post.player.score == sat_u32(
            pre.player.score + collect_count(pre, pre.obstacles@.len() as int),
        ),
{
}

/// Law: once its countdown has elapsed, the reset stage clears every
/// obstacle, returns the player — score included — to the initial state,
/// clears the countdown, and reports the final score. This is the sole
/// transition back to the initial state.
pub proof fn lemma_reset_restores_initial(
    pre: GameState,
    now_ms: u64,
    post: GameState,
    lost: Option<u32>,
)
    requires
        reset_applied(pre, now_ms, post, lost),
        pre.reset_countdown matches Some(c) && c.done_spec(now_ms),
    ensures
        post.obstacles@.len() == 0,
        post.player == initial_player(),
        post.player.score == 0,
        post.reset_countdown is None,
        lost == Some(pre.player.score),
{
}

/// Law: the despawn stage awards exactly the dodge bonus for each removed
/// obstacle, every kept obstacle is still within its despawn bound, and an
/// obstacle within its bound is never removed — so it never contributes the
/// bonus.
pub proof fn lemma_despawn_scoring(pre: GameState, post: GameState)
    requires
        despawn_applied(pre, post),
    ensures
        post.player.score == sat_u32(
            pre.player.score + DODGE_SCORE * (pre.obstacles@.len() - post.obstacles@.len()),
        ),
        obstacles_live(post.obstacles@),
        forall|i: int|
            0 <= i < pre.obstacles@.len() && keep_pred()(#[trigger] pre.obstacles@[i])
                ==> post.obstacles@.contains(pre.obstacles@[i]),
{
    assert forall|i: int|
        0 <= i < post.obstacles@.len() implies keep_at(
        #[trigger] post.obstacles@[i],
        post.obstacles@[i].lifetime as int,
    ) by {
        pre.obstacles@.lemma_filter_pred(keep_pred(), i);
    }
    assert forall|i: int|
        0 <= i < pre.obstacles@.len() && keep_pred()(
            #[trigger] pre.obstacles@[i],
        ) implies post.obstacles@.contains(pre.obstacles@[i]) by {
        pre.obstacles@.lemma_filter_contains(keep_pred(), i);
    }
}

/// The spawn stage preserves obstacle well-formedness: the old obstacles
/// are untouched and the appended one is well-formed.
pub proof fn lemma_spawn_preserves_wf(pre: GameState, now_ms: u64, post: GameState)
    requires
        spawn_applied(pre, now_ms, post),
        obstacles_wf(pre.obstacles@),
    ensures
        obstacles_wf(post.obstacles@),
{
    if should_spawn(pre, now_ms) {
        assert forall|i: int|
            0 <= i < post.obstacles@.len() implies (#[trigger] post.obstacles@[i]).wf() by {
            if i < pre.obstacles@.len() {
                assert(post.obstacles@.subrange(0, pre.obstacles@.len() as int)[i]
                    == pre.obstacles@[i]);
            } else {
                assert(post.obstacles@[i] == post.obstacles@.last());
            }
        }
    }
}

impl GameState {
    /// The state invariant: the player is well-formed and inside the field,
    /// and every obstacle is well-formed and within its despawn bound. It
    /// holds after every full tick.
    pub open spec fn inv(self) -> bool {
        &&& self.player.wf()
        &&& obstacles_wf(self.obstacles@)
        &&& obstacles_live(self.obstacles@)
    }

    /// A fresh game: no obstacles, the player in its initial state, nothing
    /// spawned yet, running, with no reset countdown.
    pub fn new() -> (s: GameState)
        ensures
            s.inv(),
            s.obstacles@ == Seq::<Obstacle>::empty(),
            s.player == initial_player(),
            s.last_spawned_ms is None,
            s.spawn_interval_ms == INITIAL_SPAWN_INTERVAL_MS,
            s.is_running,
            s.reset_countdown is None,
    {
        GameState {
            obstacles: Vec::new(),
            player: Player::new(),
            rng: fresh_rng(),
            last_spawned_ms: None,
            spawn_interval_ms: INITIAL_SPAWN_INTERVAL_MS,
            is_running: true,
            reset_countdown: None,
        }
    }

    /// Input handling: moves the player (frozen while a reset countdown
    /// runs), clamps it into the field, and honors the quit key.
    pub fn update_handle_input(&mut self, input: &InputState)
        requires
            old(self).player.wf(),
        ensures
            input_applied(*old(self), *input, *final(self)),
            final(self).player.wf(),
            final(self).rng == old(self).rng,
    {
        let movespeed = if input.slow {
            PLAYER_SLOWMO_SPEED
        } else {
            PLAYER_SPEED
        };

        if self.reset_countdown.is_none() {
            if input.left {
                self.player.rect.x = self.player.rect.x - movespeed;
            } else if input.down {
                self.player.rect.y = self.player.rect.y + movespeed;
            } else if input.up {
                self.player.rect.y = self.player.rect.y - movespeed;
            } else if input.right {
                self.player.rect.x = self.player.rect.x + movespeed;
            }
        }

        if self.player.rect.x + self.player.rect.w > FIELD_EDGE_LENGTH {
            self.player.rect.x = FIELD_EDGE_LENGTH - self.player.rect.w;
        } else if self.player.rect.x < 0 {
            self.player.rect.x = 0;
        }
        if self.player.rect.y + self.player.rect.h > FIELD_EDGE_LENGTH {
            self.player.rect.y = FIELD_EDGE_LENGTH - self.player.rect.h;
        } else if self.player.rect.y < 0 {
            self.player.rect.y = 0;
        }

        if input.quit {
            self.is_running = false;
        }
    }

    /// Collision detection and scoring: advances every obstacle's lifetime
    /// and checks it against the player's solid rectangle and collector
    /// zone. Skipped entirely while a reset countdown runs. The countdown
    /// guard is only checked once, before the loop, so obstacles after the
    /// first collision in a tick are still processed in full.
    pub fn update_check_collisions(&mut self, now_ms: u64)
        requires
            old(self).player.wf(),
            obstacles_wf(old(self).obstacles@),
            obstacles_live(old(self).obstacles@),
        ensures
            collisions_applied(*old(self), now_ms, *final(self)),
            final(self).player.wf(),
            obstacles_wf(final(self).obstacles@),
            final(self).rng == old(self).rng,
    {
        if self.reset_countdown.is_none() {
            let n = self.obstacles.len();
            let mut i: usize = 0;
            while i < n
                invariant
                    i <= n,
                    n == old(self).obstacles@.len(),
                    self.obstacles@.len() == n,
                    old(self).reset_countdown is None,
                    old(self).player.wf(),
                    obstacles_wf(old(self).obstacles@),
                    obstacles_live(old(self).obstacles@),
                    forall|j: int|
                        0 <= j < i ==> self.obstacles@[j] == advanced(
                            #[trigger] old(self).obstacles@[j],
                        ),
                    forall|j: int| i <= j < n ==> self.obstacles@[j] == old(self).obstacles@[j],
                    self.player.rect == old(self).player.rect,
                    self.player.score == sat_u32(
                        old(self).player.score + collect_count(*old(self), i as int),
                    ),
                    self.reset_countdown == (if (exists|j: int|
                        0 <= j < i && #[trigger] lethal_hit(*old(self), j)) {
                        Some(Countdown { start_ms: now_ms, duration_ms: RESET_COUNTDOWN_MS })
                    } else {
                        None::<Countdown>
                    }),
                    self.last_spawned_ms == old(self).last_spawned_ms,
                    self.spawn_interval_ms == old(self).spawn_interval_ms,
                    self.is_running == old(self).is_running,
                    self.rng == old(self).rng,
                decreases n - i,
            {
                let mut ob = self.obstacles[i];
                proof {
                    assert(old(self).obstacles@[i as int].wf());
                    assert(keep_at(
                        old(self).obstacles@[i as int],
                        old(self).obstacles@[i as int].lifetime as int,
                    ));
                }
                ob.lifetime = ob.lifetime + 1;
                self.obstacles.set(i, ob);
                proof {
                    assert(ob == advanced(old(self).obstacles@[i as int]));
                    assert(ob.wf());
                }
                let body = ob.rectangle();
                proof {
                    crate::obstacle::lemma_visible_length_phases(ob, ob.lifetime as int);
                    assert(crate::geom::rect_bounded(body@));
                }
                if self.player.rect.overlaps_rectangle(&body) {
                    self.reset_countdown = Some(Countdown::new(RESET_COUNTDOWN_MS, now_ms));
                    proof {
                        assert(lethal_hit(*old(self), i as int));
                    }
                } else if self.player.collector_rectangle().overlaps_rectangle(&body) {
                    self.player.score = self.player.score.saturating_add(1);
                    proof {
                        assert(collects(*old(self), i as int));
                    }
                } else {
                    proof {
                        assert(!lethal_hit(*old(self), i as int));
                        assert(!collects(*old(self), i as int));
                    }
                }
                i = i + 1;
            }
            proof {
                assert forall|j: int|
                    0 <= j < self.obstacles@.len() implies (#[trigger] self.obstacles@[j]).wf() by {
                    assert(old(self).obstacles@[j].wf());
                    assert(keep_at(
                        old(self).obstacles@[j],
                        old(self).obstacles@[j].lifetime as int,
                    ));
                }
            }
        }
    }

    /// Spawning: when due, appends one freshly drawn obstacle, records the
    /// spawn time and recomputes the interval from the current score.
    pub fn update_spawn_obstacles(&mut self, now_ms: u64)
        ensures
            spawn_applied(*old(self), now_ms, *final(self)),
    {
        let spawn_now = match self.last_spawned_ms {
            None => true,
            Some(last) => {
                let elapsed = if now_ms >= last {
                    now_ms - last
                } else {
                    0
                };
                elapsed > self.spawn_interval_ms
            },
        };
        if spawn_now {
            self.last_spawned_ms = Some(now_ms);
            let ob = Obstacle::spawn(&mut self.rng);
            self.obstacles.push(ob);
            self.spawn_interval_ms = obstacle_spawn_interval(self.player.score);
            proof {
                assert(self.obstacles@.subrange(0, old(self).obstacles@.len() as int)
                    =~= old(self).obstacles@);
            }
        }
    }

    /// Despawning: removes every obstacle past its despawn bound, awarding
    /// the dodge bonus for each.
    pub fn update_despawn_obstacles(&mut self)
        requires
            obstacles_wf(old(self).obstacles@),
        ensures
            despawn_applied(*old(self), *final(self)),
            obstacles_wf(final(self).obstacles@),
            obstacles_live(final(self).obstacles@),
            final(self).rng == old(self).rng,
    {
        let n = self.obstacles.len();
        let mut kept: Vec<Obstacle> = Vec::new();
        let mut i: usize = 0;
        while i < n
            invariant
                i <= n,
                n == old(self).obstacles@.len(),
                self.obstacles@ == old(self).obstacles@,
                obstacles_wf(old(self).obstacles@),
                kept@ == old(self).obstacles@.subrange(0, i as int).filter(keep_pred()),
                kept@.len() <= i,
                obstacles_wf(kept@),
                obstacles_live(kept@),
                self.player.rect == old(self).player.rect,
                self.player.score == sat_u32(
                    old(self).player.score + DODGE_SCORE * (i - kept@.len())),
                self.last_spawned_ms == old(self).last_spawned_ms,
                self.spawn_interval_ms == old(self).spawn_interval_ms,
                self.is_running == old(self).is_running,
                self.reset_countdown == old(self).reset_countdown,
                self.rng == old(self).rng,
            decreases n - i,
        {
            let ob = self.obstacles[i];
            proof {
                assert(old(self).obstacles@.subrange(0, i as int).push(ob) =~= old(
                    self,
                ).obstacles@.subrange(0, i as int + 1));
                old(self).obstacles@.subrange(0, i as int).lemma_filter_push(ob, keep_pred());
            }
            if ob.lifetime * ob.speed < OBSTACLE_DESPAWN_TRAVEL {
                kept.push(ob);
            } else {
                self.player.score = self.player.score.saturating_add(DODGE_SCORE);
            }
            i = i + 1;
        }
        proof {
            assert(old(self).obstacles@.subrange(0, n as int) =~= old(self).obstacles@);
        }
        self.obstacles = kept;
    }

    /// The reset check: once a running countdown is done, clears the
    /// obstacles, restores the player to its initial state and clears the
    /// countdown, reporting the final score; the caller emits the loss
    /// diagnostic.
    pub fn update_reset_game(&mut self, now_ms: u64) -> (lost: Option<u32>)
        ensures
            reset_applied(*old(self), now_ms, *final(self), lost),
            final(self).rng == old(self).rng,
    {
        match self.reset_countdown {
            Some(c) => {
                if c.is_done(now_ms) {
                    let score = self.player.score;
                    self.obstacles = Vec::new();
                    self.player = Player::new();
                    self.reset_countdown = None;
                    Some(score)
                } else {
                    None
                }
            },
            None => None,
        }
    }

    /// One full update tick, in the fixed order: input, collisions and
    /// scoring, spawning, despawning, reset check. Returns the final score
    /// when this tick's reset fired, for the host to report.
    pub fn update(&mut self, input: &InputState, now_ms: u64) -> (lost: Option<u32>)
        requires
            old(self).inv(),
        ensures
            final(self).inv(),
            final(self).is_running == (old(self).is_running && !input.quit),
            exists|s1: GameState, s2: GameState, s3: GameState, s4: GameState|
                {
                    &&& #[trigger] input_applied(*old(self), *input, s1)
                    &&& #[trigger] collisions_applied(s1, now_ms, s2)
                    &&& #[trigger] spawn_applied(s2, now_ms, s3)
                    &&& #[trigger] despawn_applied(s3, s4)
                    &&& reset_applied(s4, now_ms, *final(self), lost)
                },
    {
        self.update_handle_input(input);
        let ghost s1 = *self;
        self.update_check_collisions(now_ms);
        let ghost s2 = *self;
        self.update_spawn_obstacles(now_ms);
        let ghost s3 = *self;
        proof {
            lemma_spawn_preserves_wf(s2, now_ms, s3);
        }
        self.update_despawn_obstacles();
        let ghost s4 = *self;
        let lost = self.update_reset_game(now_ms);
        proof {
            assert(input_applied(*old(self), *input, s1));
            assert(collisions_applied(s1, now_ms, s2));
            assert(spawn_applied(s2, now_ms, s3));
            assert(despawn_applied(s3, s4));
            assert(reset_applied(s4, now_ms, *self, lost));
        }
        lost
    }
}

} // verus!
