use invaders::game::{Game, Intent, Outcome, Sound};
use invaders::invaders::Invader;
use invaders::player::Player;
use invaders::shot::Shot;
use invaders::timer::Timer;
use invaders::{EXPLOSION_MS, INVADER_STEP_MS, NUM_COLS, NUM_ROWS, SHOT_STEP_MS};

#[test]
fn timer_counts_down_and_saturates() {
    let mut t = Timer::new(100);
    assert!(!t.finished());
    t.tick(40);
    assert_eq!(t.remaining_ms, 60);
    t.tick(1000);
    assert_eq!(t.remaining_ms, 0);
    assert!(t.finished());
    t.reset();
    assert_eq!(t.remaining_ms, 100);
}

#[test]
fn invader_descends_once_per_interval() {
    let mut inv = Invader::new_at(3);
    assert_eq!((inv.x, inv.y), (3, 0));
    inv.update(INVADER_STEP_MS - 1);
    assert_eq!(inv.y, 0);
    inv.update(1);
    assert_eq!(inv.y, 1);
    assert_eq!(inv.timer.remaining_ms, INVADER_STEP_MS);
    inv.update(INVADER_STEP_MS);
    assert_eq!(inv.y, 2);
}

#[test]
fn exploding_invader_does_not_move() {
    let mut inv = Invader::new_at(3);
    inv.explode();
    assert_eq!(inv.timer.remaining_ms, EXPLOSION_MS);
    inv.update(INVADER_STEP_MS);
    assert_eq!(inv.y, 0);
    assert!(inv.dead());
}

#[test]
fn invader_stops_at_sentinel_row() {
    let mut inv = Invader::new_at(0);
    inv.y = NUM_ROWS - 1;
    inv.move_down();
    assert_eq!(inv.y, NUM_ROWS);
    assert!(inv.dead());
    inv.move_down();
    assert_eq!(inv.y, NUM_ROWS);
}

#[test]
fn random_invader_is_on_grid() {
    for _ in 0..100 {
        let inv = Invader::new();
        assert!(inv.x < NUM_COLS);
        assert_eq!(inv.y, 0);
        assert!(!inv.exploding);
    }
}

#[test]
fn shot_climbs_and_dies_at_top() {
    let mut s = Shot::new(4, 2);
    s.update(SHOT_STEP_MS);
    assert_eq!(s.y, 1);
    assert!(!s.dead());
    s.update(SHOT_STEP_MS);
    assert_eq!(s.y, 0);
    assert!(s.dead());
}

#[test]
fn player_movement_clamps_to_grid() {
    let mut p = Player::new();
    assert_eq!(p.x, NUM_COLS / 2);
    assert_eq!(p.y, NUM_ROWS - 1);
    for _ in 0..NUM_COLS + 5 {
        p.move_left();
    }
    assert_eq!(p.x, 0);
    p.move_left();
    assert_eq!(p.x, 0);
    for _ in 0..NUM_COLS + 5 {
        p.move_right();
    }
    assert_eq!(p.x, NUM_COLS - 1);
}

#[test]
fn at_most_one_shot_in_flight() {
    let mut p = Player::new();
    assert!(p.shoot());
    assert!(!p.shoot());
    assert_eq!(p.shots.len(), 1);
    assert_eq!(p.shots[0].x, p.x);
    assert_eq!(p.shots[0].y, p.y - 1);
}

#[test]
fn second_shoot_intent_in_one_tick_is_ignored() {
    let mut game = Game::new();
    let r = game.tick_with_spawn(0, &vec![Intent::Shoot, Intent::Shoot], None);
    assert_eq!(game.player.shots.len(), 1);
    assert_eq!(r.sounds, vec![Sound::Pew]);
    assert_eq!(r.outcome, None);
}

#[test]
fn quit_aborts_the_tick() {
    let mut game = Game::new();
    let x0 = game.player.x;
    let r = game.tick_with_spawn(
        0,
        &vec![Intent::Shoot, Intent::Quit, Intent::MoveLeft],
        None,
    );
    assert_eq!(r.outcome, Some(Outcome::Quit));
    assert_eq!(r.sounds, vec![Sound::Pew, Sound::Lose]);
    assert_eq!(game.player.x, x0);
    assert_eq!(game.player.shots.len(), 1);
}

#[test]
fn spawn_draw_appends_invader() {
    let mut game = Game::new();
    assert!(!game.ever_spawned);
    let r = game.tick_with_spawn(0, &vec![], Some(7));
    assert_eq!(game.invaders.len(), 1);
    assert_eq!((game.invaders[0].x, game.invaders[0].y), (7, 0));
    assert!(game.ever_spawned);
    assert_eq!(r.outcome, None);
}

#[test]
fn adjacent_invader_explodes_with_player() {
    let mut game = Game::new();
    game.player = Player::new_at(5, 10);
    let mut inv = Invader::new_at(5);
    inv.y = 9;
    game.add_invader(inv);
    let r = game.tick_with_spawn(0, &vec![], None);
    assert!(game.player.exploding);
    assert!(game.invaders[0].exploding);
    assert_eq!(r.sounds, vec![Sound::Explode]);
    assert_eq!(r.outcome, None);
}

#[test]
fn invader_two_rows_above_does_not_collide() {
    let mut game = Game::new();
    game.player = Player::new_at(5, 10);
    let mut inv = Invader::new_at(5);
    inv.y = 8;
    game.add_invader(inv);
    let r = game.tick_with_spawn(0, &vec![], None);
    assert!(!game.player.exploding);
    assert!(!game.invaders[0].exploding);
    assert!(r.sounds.is_empty());
    assert_eq!(r.outcome, None);
}

#[test]
fn shot_explodes_invader_directly_above() {
    let mut game = Game::new();
    game.player = Player::new_at(5, 10);
    let mut inv = Invader::new_at(5);
    inv.y = 3;
    game.add_invader(inv);
    let r = game.tick_with_spawn(0, &vec![Intent::Shoot], None);
    assert_eq!(r.sounds, vec![Sound::Pew]);
    game.player.shots[0].y = 2;
    let r2 = game.tick_with_spawn(0, &vec![], None);
    assert_eq!(r2.sounds, vec![Sound::Explode]);
    assert!(game.player.shots[0].exploding);
    assert!(game.invaders[0].exploding);
    assert_eq!(r2.outcome, None);
}

#[test]
fn no_win_without_any_spawn() {
    let mut game = Game::new();
    let r = game.tick_with_spawn(100, &vec![], None);
    assert_eq!(r.outcome, None);
    assert!(r.sounds.is_empty());
}

#[test]
fn reaping_the_last_invader_wins() {
    let mut game = Game::new();
    let mut inv = Invader::new_at(3);
    inv.explode();
    game.add_invader(inv);
    let r = game.tick_with_spawn(EXPLOSION_MS, &vec![], None);
    assert!(game.invaders.is_empty());
    assert_eq!(r.outcome, Some(Outcome::Won));
    assert_eq!(r.sounds, vec![Sound::Win]);
}

#[test]
fn shot_then_reap_cycle_wins_the_round() {
    let mut game = Game::new();
    game.player = Player::new_at(5, 10);
    let mut inv = Invader::new_at(5);
    inv.y = 3;
    game.add_invader(inv);
    let r1 = game.tick_with_spawn(0, &vec![Intent::Shoot], None);
    assert_eq!(r1.sounds, vec![Sound::Pew]);
    game.player.shots[0].y = 2;
    let r2 = game.tick_with_spawn(0, &vec![], None);
    assert_eq!(r2.sounds, vec![Sound::Explode]);
    let r3 = game.tick_with_spawn(EXPLOSION_MS, &vec![], None);
    assert!(game.invaders.is_empty());
    assert!(game.player.shots.is_empty());
    assert_eq!(r3.outcome, Some(Outcome::Won));
    assert_eq!(r3.sounds, vec![Sound::Win]);
}

#[test]
fn invader_reaching_bottom_is_reaped_without_a_crash() {
    let mut game = Game::new();
    let mut inv = Invader::new_at(2);
    inv.y = NUM_ROWS - 1;
    inv.timer.remaining_ms = 10;
    game.add_invader(inv);
    game.add_invader(Invader::new_at(7));
    let r = game.tick_with_spawn(10, &vec![], None);
    assert_eq!(game.invaders.len(), 1);
    assert_eq!(game.invaders[0].x, 7);
    assert_eq!(r.outcome, None);
    let r2 = game.tick_with_spawn(10, &vec![], None);
    assert_eq!(r2.outcome, None);
}

#[test]
fn player_explosion_expiry_loses_the_round() {
    let mut game = Game::new();
    game.add_invader(Invader::new_at(0));
    game.player.explode();
    assert_eq!(game.player.timer.remaining_ms, EXPLOSION_MS);
    let r = game.tick_with_spawn(EXPLOSION_MS, &vec![], None);
    assert!(game.player.dead());
    assert_eq!(r.outcome, Some(Outcome::Lost));
    assert_eq!(r.sounds, vec![Sound::Lose]);
}

#[test]
fn spawn_rate_converges_to_configured_probability() {
    let mut game = Game::new();
    let ticks = 100_000;
    let mut spawns = 0usize;
    let intents: Vec<Intent> = Vec::new();
    for _ in 0..ticks {
        let before = game.invaders.len();
        let _ = game.tick(0, &intents);
        if game.invaders.len() > before {
            spawns += 1;
        }
    }
    // Expected spawns: ticks / SPAWN_ODDS = 100; the bounds are seven
    // standard deviations wide, so a correct generator virtually never
    // trips them.
    assert!(
        spawns >= 40 && spawns <= 180,
        "spawn count {} is far from the configured rate",
        spawns
    );
}
