use rusty_rocketeer::game::{
    GameState, GameStatus, Hud, Key, KeyResponse, TickReport, FULL_TANK, PLATFORM_SIZE,
    PLATFORM_X, PLATFORM_Y, START_GRAVITY, START_X, SUBUNITS,
};
use rusty_rocketeer::hitbox::Hitbox;

const W: u32 = 50;
const H: u32 = 54;

fn quiet() -> TickReport {
    TickReport { fuel_ran_out: false, touched_down: false }
}

/// A state whose rocket is `gap` sub-units above touching the platform,
/// falling at `vel` sub-units per tick.
fn above_platform(gap: i64, vel: i64) -> GameState {
    let mut s = GameState::new(W, H);
    s.pos_y = PLATFORM_Y - H as i64 * SUBUNITS - gap;
    s.vel = vel;
    s
}

#[test]
fn new_game_starts_at_rest_with_full_tank() {
    let s = GameState::new(W, H);
    assert_eq!(s.pos_x, START_X);
    assert_eq!(s.pos_x, 175 * SUBUNITS);
    assert_eq!(s.pos_y, 0);
    assert_eq!(s.vel, 0);
    assert_eq!(s.acl, 0);
    assert_eq!(s.gravity, START_GRAVITY);
    assert_eq!(s.fuel, FULL_TANK);
    assert!(s.has_fuel);
    assert_eq!(s.power, 0);
    assert_eq!(s.game_status, GameStatus::Playing);
    assert_eq!(s.planet.pos_x, 100 * SUBUNITS);
    assert_eq!(s.planet.pos_y, 750 * SUBUNITS);
    assert_eq!(s.planet.size, 200 * SUBUNITS);
    assert_eq!((s.rocket_width, s.rocket_height), (W, H));
}

#[test]
fn hundred_idle_ticks_fall_under_gravity_alone() {
    let mut s = GameState::new(W, H);
    for _ in 0..100 {
        assert_eq!(s.tick(), quiet());
    }
    // 100 * 2.5 / 60 px per tick, in sub-units.
    assert_eq!(s.vel, 500);
    assert_eq!(s.hud().velocity, 4);
    // 5 + 10 + ... + 500 sub-units.
    assert_eq!(s.pos_y, 25250);
    assert_eq!(s.fuel, FULL_TANK);
    assert!(s.has_fuel);
    assert_eq!(s.game_status, GameStatus::Playing);
}

#[test]
fn full_throttle_burns_until_the_tank_runs_dry() {
    let mut s = GameState::new(W, H);
    for _ in 0..3 {
        assert_eq!(s.handle_key(Key::Up, false), KeyResponse::ThrottledUp);
    }
    assert_eq!(s.power, 3);
    for _ in 0..165 {
        assert_eq!(s.tick(), quiet());
    }
    // Each burn: +5 from gravity, -12 from thrust; 0.6 litres.
    assert_eq!(s.vel, -7 * 165);
    assert_eq!(s.fuel, 10);
    assert_eq!(s.acl, 720);
    assert_eq!(s.power, 3);
    assert!(s.has_fuel);
    let report = s.tick();
    assert_eq!(report, TickReport { fuel_ran_out: true, touched_down: false });
    assert_eq!(s.fuel, 4);
    assert_eq!(s.vel, -7 * 166);
    assert!(!s.has_fuel);
    assert_eq!(s.power, 0);
}

#[test]
fn throttle_without_enough_fuel_leaves_gravity_alone() {
    let mut s = GameState::new(W, H);
    s.fuel = 4;
    s.has_fuel = false;
    for _ in 0..3 {
        s.handle_key(Key::Up, false);
    }
    let vel = s.vel;
    assert_eq!(s.tick(), quiet());
    assert_eq!(s.vel, vel + 5);
    assert_eq!(s.fuel, 4);
    assert_eq!(s.power, 3);
    assert_eq!(s.acl, 0);
}

#[test]
fn each_throttle_level_needs_its_own_fuel() {
    for (level, cost) in [(1, 1), (2, 3), (3, 6)] {
        let mut s = GameState::new(W, H);
        s.has_fuel = false;
        s.power = level;
        s.fuel = cost - 1;
        s.tick();
        assert_eq!(s.fuel, cost - 1);
        assert_eq!(s.vel, 5);

        let mut t = GameState::new(W, H);
        t.has_fuel = false;
        t.power = level;
        t.fuel = cost;
        t.tick();
        assert_eq!(t.fuel, 0);
        assert_eq!(t.acl, 120 * cost);
        assert_eq!(t.vel, 5 - 2 * cost);
    }
}

#[test]
fn depletion_flag_falls_only_once() {
    let mut s = GameState::new(W, H);
    s.fuel = 11;
    s.power = 2;
    assert_eq!(s.tick().fuel_ran_out, true);
    assert_eq!(s.fuel, 8);
    assert_eq!(s.power, 0);
    s.power = 2;
    assert_eq!(s.tick().fuel_ran_out, false);
    assert_eq!(s.fuel, 5);
    assert_eq!(s.power, 2);
    assert!(!s.has_fuel);
}

#[test]
fn throttle_stays_within_its_range() {
    let mut s = GameState::new(W, H);
    assert_eq!(s.handle_key(Key::Down, false), KeyResponse::EngineOff);
    assert_eq!(s, GameState::new(W, H));
    for _ in 0..3 {
        s.handle_key(Key::Up, false);
    }
    let before = s;
    assert_eq!(s.handle_key(Key::Up, false), KeyResponse::MaxThrottle);
    assert_eq!(s, before);
    assert_eq!(s.handle_key(Key::Down, false), KeyResponse::ThrottledDown);
    assert_eq!(s.power, 2);
}

#[test]
fn repeated_presses_are_ignored() {
    let mut s = GameState::new(W, H);
    for key in [Key::Up, Key::Down, Key::Left, Key::Right, Key::Reset, Key::Quit] {
        assert_eq!(s.handle_key(key, true), KeyResponse::Ignored);
    }
    assert_eq!(s, GameState::new(W, H));
}

#[test]
fn sideways_steps_are_five_pixels() {
    let mut s = GameState::new(W, H);
    assert_eq!(s.handle_key(Key::Right, false), KeyResponse::Moved);
    assert_eq!(s.pos_x, 180 * SUBUNITS);
    for _ in 0..40 {
        s.handle_key(Key::Left, false);
    }
    assert_eq!(s.pos_x, -20 * SUBUNITS);
}

#[test]
fn quit_changes_nothing() {
    let mut s = GameState::new(W, H);
    assert_eq!(s.handle_key(Key::Quit, false), KeyResponse::QuitRequested);
    assert_eq!(s, GameState::new(W, H));
}

#[test]
fn soft_touchdown_wins() {
    let mut s = above_platform(100, 100);
    let report = s.tick();
    assert_eq!(report, TickReport { fuel_ran_out: false, touched_down: true });
    assert_eq!(s.game_status, GameStatus::Win);
    assert_eq!(s.vel, 0);
    assert_eq!(s.gravity, 0);
    assert_eq!(s.power, 0);
}

#[test]
fn touchdown_at_exactly_two_pixels_per_tick_wins() {
    let mut s = above_platform(200, 235);
    assert!(s.tick().touched_down);
    assert_eq!(s.game_status, GameStatus::Win);
}

#[test]
fn hard_touchdown_is_game_over() {
    // 240 + 5 from gravity - 2 from a level-1 burn.
    let mut s = above_platform(200, 240);
    s.power = 1;
    assert!(s.tick().touched_down);
    assert_eq!(s.game_status, GameStatus::GameOver);
    assert_eq!(s.vel, 0);
    assert_eq!(s.gravity, 0);
    assert_eq!(s.power, 0);
}

#[test]
fn missing_the_platform_keeps_falling() {
    let mut s = above_platform(100, 300);
    s.pos_x = PLATFORM_X + PLATFORM_SIZE + 1;
    assert_eq!(s.tick(), quiet());
    assert_eq!(s.game_status, GameStatus::Playing);
    assert_eq!(s.vel, 305);
}

#[test]
fn finished_games_do_not_tick() {
    let mut s = above_platform(100, 100);
    s.tick();
    let done = s;
    for _ in 0..10 {
        assert_eq!(s.tick(), quiet());
    }
    assert_eq!(s, done);
}

#[test]
fn reset_restores_the_start() {
    let mut s = above_platform(200, 236);
    s.tick();
    s.fuel = 3;
    s.has_fuel = false;
    s.pos_x = 5;
    s.acl = 360;
    assert_eq!(s.handle_key(Key::Reset, false), KeyResponse::Restarted);
    assert_eq!(s, GameState::new(W, H));
    assert_eq!(s.pos_x, 175 * SUBUNITS);
    assert_eq!(s.gravity, 300);
    assert_eq!(s.fuel, 1000);
    assert!(s.has_fuel);
    s.pos_y = 99;
    s.reset_game();
    assert_eq!(s, GameState::new(W, H));
}

#[test]
fn hud_rounds_each_readout() {
    let mut s = GameState::new(W, H);
    assert_eq!(
        s.hud(),
        Hud { fuel: 100, velocity: 0, throttle: 0, landing: 696 }
    );
    s.fuel = 995;
    s.vel = -60;
    s.power = 2;
    s.pos_y = 59;
    // 99.5 l, -0.5 px per tick, 696 - 59/120 px.
    assert_eq!(s.hud(), Hud { fuel: 100, velocity: -1, throttle: 2, landing: 696 });
    s.fuel = 994;
    s.vel = 59;
    s.pos_y = 60;
    assert_eq!(s.hud(), Hud { fuel: 99, velocity: 0, throttle: 2, landing: 696 });
    s.pos_y = 61;
    assert_eq!(s.hud().landing, 695);
}

#[test]
fn boxes_overlap_when_edges_meet() {
    let a = Hitbox { x: 0, y: 0, w: 10, h: 10 };
    assert!(a.overlaps(&Hitbox { x: 10, y: 10, w: 5, h: 5 }));
    assert!(a.overlaps(&Hitbox { x: -5, y: 3, w: 5, h: 1 }));
    assert!(!a.overlaps(&Hitbox { x: 11, y: 0, w: 5, h: 5 }));
    assert!(!a.overlaps(&Hitbox { x: 0, y: -6, w: 5, h: 5 }));
}

#[test]
fn extreme_speeds_saturate() {
    let mut s = GameState::new(W, H);
    s.pos_x = PLATFORM_X + PLATFORM_SIZE + 1;
    s.vel = i64::MAX - 1;
    s.pos_y = i64::MAX - 3;
    s.tick();
    assert_eq!(s.vel, i64::MAX);
    assert_eq!(s.pos_y, i64::MAX);
    s.pos_x = i64::MAX - 1;
    s.handle_key(Key::Right, false);
    assert_eq!(s.pos_x, i64::MAX);
}

#[test]
fn validity_follows_the_ranges() {
    let mut s = GameState::new(W, H);
    assert!(s.is_valid());
    s.power = 4;
    assert!(!s.is_valid());
    s.power = 3;
    s.fuel = 9;
    assert!(!s.is_valid());
    s.has_fuel = false;
    assert!(s.is_valid());
    s.gravity = -1;
    assert!(!s.is_valid());
}
