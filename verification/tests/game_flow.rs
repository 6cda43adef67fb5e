//! End-to-end update-pipeline behavior: movement clamping, collision and
//! scoring, the reset countdown, spawning, and despawn scoring.

use rixel_dodge::consts::{FIELD_EDGE_LENGTH, PLAYER_EDGE_LENGTH, SUBUNITS_PER_PIXEL};
use rixel_dodge::game::{GameState, InputState};
use rixel_dodge::geom::Rectangle;
use rixel_dodge::obstacle::Obstacle;
use rixel_dodge::player::Player;
use rixel_dodge::timing::Countdown;

const L: i64 = FIELD_EDGE_LENGTH;

fn no_keys() -> InputState {
    InputState { left: false, down: false, up: false, right: false, slow: false, quit: false }
}

fn test_obstacle(rixel: i64, lifetime: i64) -> Obstacle {
    Obstacle {
        rixel,
        speed: 3 * SUBUNITS_PER_PIXEL,
        width: 10 * SUBUNITS_PER_PIXEL,
        length: 300 * SUBUNITS_PER_PIXEL,
        lifetime,
    }
}

fn state_with(obstacles: Vec<Obstacle>, player: Player) -> GameState {
    GameState {
        obstacles,
        player,
        rng: rand::thread_rng(),
        last_spawned_ms: Some(0),
        spawn_interval_ms: 1_000_000,
        is_running: true,
        reset_countdown: None,
    }
}

#[test]
fn fresh_game_initial_state() {
    let s = GameState::new();
    assert!(s.obstacles.is_empty());
    assert_eq!(s.player.rect, Rectangle { x: 0, y: 0, w: PLAYER_EDGE_LENGTH, h: PLAYER_EDGE_LENGTH });
    assert_eq!(s.player.score, 0);
    assert!(s.last_spawned_ms.is_none());
    assert_eq!(s.spawn_interval_ms, 4000);
    assert!(s.is_running);
    assert!(s.reset_countdown.is_none());
}

#[test]
fn player_stays_clamped_at_corners() {
    let mut s = GameState::new();
    let press = |left, down, up, right| InputState { left, down, up, right, slow: false, quit: false };
    // Push into the top-left corner for many ticks: never leaves (0, 0).
    for _ in 0..50 {
        s.update_handle_input(&press(true, false, false, false));
        s.update_handle_input(&press(false, false, true, false));
        assert_eq!((s.player.rect.x, s.player.rect.y), (0, 0));
    }
    // Hold right and down until the far corner, then keep pushing.
    for _ in 0..200 {
        s.update_handle_input(&press(false, false, false, true));
        assert!(s.player.rect.x <= L - PLAYER_EDGE_LENGTH);
        assert!(s.player.rect.x >= 0);
    }
    assert_eq!(s.player.rect.x, L - PLAYER_EDGE_LENGTH);
    for _ in 0..200 {
        s.update_handle_input(&press(false, true, false, false));
    }
    assert_eq!(
        (s.player.rect.x, s.player.rect.y),
        (L - PLAYER_EDGE_LENGTH, L - PLAYER_EDGE_LENGTH)
    );
}

#[test]
fn player_moves_base_and_slow_speed() {
    let mut s = GameState::new();
    let mut input = no_keys();
    input.right = true;
    s.update_handle_input(&input);
    assert_eq!(s.player.rect.x, 5 * SUBUNITS_PER_PIXEL);
    input.slow = true;
    s.update_handle_input(&input);
    // The base speed divided by the slow-motion factor 2.2, in whole
    // subunits.
    assert_eq!(s.player.rect.x, 5 * SUBUNITS_PER_PIXEL + 2272);
}

#[test]
fn quit_key_clears_running_flag() {
    let mut s = GameState::new();
    let mut input = no_keys();
    input.quit = true;
    s.update_handle_input(&input);
    assert!(!s.is_running);
    // The flag stays cleared on later ticks without the key.
    s.update_handle_input(&no_keys());
    assert!(!s.is_running);
}

#[test]
fn collision_starts_countdown_and_still_scores_later_obstacles() {
    // Obstacle 0 will hit the player's solid square this tick; obstacle 1
    // only touches the collector zone. The collision must not suppress the
    // lifetime advance or the collector scoring of obstacle 1.
    let hit = test_obstacle(25 * SUBUNITS_PER_PIXEL, 10);
    let collect = test_obstacle(60 * SUBUNITS_PER_PIXEL, 10);
    let mut s = state_with(vec![hit, collect], Player::new());
    s.update_check_collisions(1000);
    assert_eq!(s.obstacles[0].lifetime, 11);
    assert_eq!(s.obstacles[1].lifetime, 11);
    assert_eq!(s.player.score, 1);
    assert_eq!(s.reset_countdown, Some(Countdown { start_ms: 1000, duration_ms: 2000 }));

    // While the countdown runs, collision processing is frozen.
    s.update_check_collisions(1500);
    assert_eq!(s.obstacles[0].lifetime, 11);
    assert_eq!(s.player.score, 1);

    // Before the countdown elapses, the reset stage does nothing.
    assert_eq!(s.update_reset_game(2500), None);
    assert_eq!(s.obstacles.len(), 2);

    // Once it has elapsed (strictly past 2000 ms), everything resets.
    let lost = s.update_reset_game(3001);
    assert_eq!(lost, Some(1));
    assert!(s.obstacles.is_empty());
    assert_eq!(s.player.score, 0);
    assert_eq!(s.player.rect, Rectangle { x: 0, y: 0, w: PLAYER_EDGE_LENGTH, h: PLAYER_EDGE_LENGTH });
    assert!(s.reset_countdown.is_none());
}

#[test]
fn collector_scores_every_tick_while_overlapping() {
    let collect = test_obstacle(60 * SUBUNITS_PER_PIXEL, 10);
    let mut s = state_with(vec![collect], Player::new());
    s.update_check_collisions(0);
    s.update_check_collisions(0);
    s.update_check_collisions(0);
    assert_eq!(s.player.score, 3);
    assert!(s.reset_countdown.is_none());
}

#[test]
fn despawn_awards_bonus_only_for_timed_out_obstacles() {
    // 306 * 3 = 918 pixels: still within the despawn bound (920). The two
    // others are past it.
    let staying = test_obstacle(L / 2, 306);
    let gone_a = test_obstacle(L / 2, 307);
    let gone_b = test_obstacle(L + L / 2, 400);
    let mut player = Player::new();
    player.score = 5;
    let mut s = state_with(vec![gone_a, staying, gone_b], player);
    s.update_despawn_obstacles();
    assert_eq!(s.player.score, 205);
    assert_eq!(s.obstacles.len(), 1);
    assert_eq!(s.obstacles[0], staying);
    // A second pass removes nothing and awards nothing.
    s.update_despawn_obstacles();
    assert_eq!(s.player.score, 205);
    assert_eq!(s.obstacles.len(), 1);
}

#[test]
fn update_spawns_when_due() {
    let mut s = GameState::new();
    // Nothing has ever spawned, so the first tick spawns one obstacle.
    let lost = s.update(&no_keys(), 0);
    assert_eq!(lost, None);
    assert_eq!(s.obstacles.len(), 1);
    let ob = s.obstacles[0];
    assert_eq!(ob.lifetime, -40);
    assert_eq!(s.last_spawned_ms, Some(0));
    // Score 0 is raised to the minimum effective score: 4.8 s interval.
    assert_eq!(s.spawn_interval_ms, 4800);
    // Not due again one millisecond later.
    s.update(&no_keys(), 1);
    assert_eq!(s.obstacles.len(), 1);
    assert_eq!(s.obstacles[0].lifetime, -39);
    // Due again strictly after the interval has passed.
    s.update(&no_keys(), 4800);
    assert_eq!(s.obstacles.len(), 1);
    s.update(&no_keys(), 4801);
    assert_eq!(s.obstacles.len(), 2);
}

#[test]
fn spawned_obstacles_are_well_formed() {
    let mut rng = rand::thread_rng();
    for _ in 0..200 {
        let ob = Obstacle::spawn(&mut rng);
        assert_eq!(ob.speed, 3 * SUBUNITS_PER_PIXEL);
        assert_eq!(ob.length, 300 * SUBUNITS_PER_PIXEL);
        assert_eq!(ob.lifetime, -40);
        assert!(ob.width % 2 == 0);
        assert!((6 * SUBUNITS_PER_PIXEL..14 * SUBUNITS_PER_PIXEL).contains(&ob.width));
        assert!(0 < ob.rixel && ob.rixel < 4 * L);
        let offset = ob.rixel % L;
        assert!(offset >= ob.width / 2);
        assert!(offset < L - ob.width / 2);
        // The spawned rectangle derives without panicking and sits on its
        // edge.
        let r = ob.rectangle();
        assert_eq!(r.h.min(r.w), 0);
    }
}
