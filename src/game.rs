use vstd::prelude::*;

use crate::arith::{
    clamp_i64, rounded, rounded_quotient, saturating_difference, saturating_sum,
};
use crate::hitbox::Hitbox;

verus! {

/// Sub-units per pixel; positions and speeds are counted in sub-units.
pub const SUBUNITS: i64 = 120;

/// Simulation ticks per second.
pub const FPS: u32 = 60;

/// Horizontal start position: 175 px.
pub const START_X: i64 = 21000;

/// Gravity at start: 2.5 px per tick, gained per second.
pub const START_GRAVITY: i64 = 300;

/// A full tank: 100 litres, in tenths of a litre.
pub const FULL_TANK: i64 = 1000;

/// Below this much fuel (1 litre) the tank counts as empty.
pub const LOW_FUEL: i64 = 10;

/// The fastest touchdown that still lands safely: 2 px per tick.
pub const SAFE_LANDING_SPEED: i64 = 240;

/// One sideways step of the rocket: 5 px.
pub const SIDE_STEP: i64 = 600;

/// The strongest thrust, that of throttle level 3: 6 px per tick per second.
pub const MAX_THRUST: i64 = 720;

/// The highest throttle level.
pub const MAX_THROTTLE: i32 = 3;

/// Left edge of the platform: 100 px.
pub const PLATFORM_X: i64 = 12000;

/// Top edge of the platform: 750 px.
pub const PLATFORM_Y: i64 = 90000;

/// Side of the platform's square hitbox: 200 px.
pub const PLATFORM_SIZE: i64 = 24000;

/// How far above the platform's top the rocket's top rests on touchdown: 54 px.
pub const LANDING_OFFSET: i64 = 6480;

#[derive(Clone, Copy, Debug, PartialEq, Eq, Structural)]
pub enum GameStatus {
    Playing,
    Win,
    GameOver,
}

/// The landing platform; it does not move.
#[derive(Clone, Copy, Debug, PartialEq, Eq, Structural)]
pub struct Planet {
    pub pos_x: i64,
    pub pos_y: i64,
    pub size: i64,
}

/// The keys the simulation reacts to.
#[derive(Clone, Copy, Debug, PartialEq, Eq, Structural)]
pub enum Key {
    Up,
    Down,
    Left,
    Right,
    Reset,
    Quit,
}

/// What a key press did, for the host to report or act on.
#[derive(Clone, Copy, Debug, PartialEq, Eq, Structural)]
pub enum KeyResponse {
    /// An auto-repeated press: nothing happens.
    Ignored,
    ThrottledUp,
    /// Throttle already at its highest level: nothing changes.
    MaxThrottle,
    ThrottledDown,
    /// Throttle already at zero: nothing changes.
    EngineOff,
    Moved,
    Restarted,
    /// The host is asked to end the game loop.
    QuitRequested,
}

/// What happened during one tick.
#[derive(Clone, Copy, Debug, PartialEq, Eq, Structural)]
pub struct TickReport {
    /// The fuel dropped below `LOW_FUEL` for the first time this run.
    pub fuel_ran_out: bool,
    /// The rocket met the platform; the status says how.
    pub touched_down: bool,
}

/// The numbers shown on screen, each rounded to a whole unit.
#[derive(Clone, Copy, Debug, PartialEq, Eq, Structural)]
pub struct Hud {
    /// Litres left.
    pub fuel: i64,
    /// Pixels per tick, downwards.
    pub velocity: i64,
    pub throttle: i32,
    /// Pixels left until touchdown.
    pub landing: i64,
}

/// The whole simulation. Lengths and speeds are in sub-units, fuel in tenths
/// of a litre; the sprite's size is in pixels.
#[derive(Clone, Copy, Debug, PartialEq, Eq, Structural)]
pub struct GameState {
    pub rocket_width: u32,
    pub rocket_height: u32,
    pub pos_x: i64,
    pub pos_y: i64,
    /// Downward speed, per tick.
    pub vel: i64,
    /// Thrust of the last burn, per tick gained per second.
    pub acl: i64,
    /// Per tick gained per second.
    pub gravity: i64,
    pub fuel: i64,
    pub has_fuel: bool,
    /// Throttle level.
    pub power: i32,
    pub planet: Planet,
    pub game_status: GameStatus,
}

/// Fuel burnt by one tick of thrust at a throttle level.
pub open spec fn fuel_cost(level: int) -> int {
    if level == 1 {
        1
    } else if level == 2 {
        3
    } else if level == 3 {
        6
    } else {
        0
    }
}

/// Thrust of a throttle level, per tick gained per second (1, 3 and 6 px).
pub open spec fn thrust_of(level: int) -> int {
    if level == 1 {
        120
    } else if level == 2 {
        360
    } else if level == 3 {
        720
    } else {
        0
    }
}

/// The speed gained in one tick from a rate gained per second.
pub open spec fn per_tick(rate: int) -> int {
    rate / (FPS as int)
}

fn burn_of(level: i32) -> (r: i64)
    ensures
        r == fuel_cost(level as int),
{
    if level == 1 {
        1
    } else if level == 2 {
        3
    } else if level == 3 {
        6
    } else {
        0
    }
}

fn thrust_for(level: i32) -> (r: i64)
    ensures
        r == thrust_of(level as int),
{
    if level == 1 {
        120
    } else if level == 2 {
        360
    } else if level == 3 {
        720
    } else {
        0
    }
}

pub open spec fn platform() -> Planet {
    Planet { pos_x: PLATFORM_X, pos_y: PLATFORM_Y, size: PLATFORM_SIZE }
}

/// The state of a new run for a sprite of the given size.
pub open spec fn initial_state(rocket_width: u32, rocket_height: u32, planet: Planet) -> GameState {
    GameState {
        rocket_width,
        rocket_height,
        pos_x: START_X,
        pos_y: 0,
        vel: 0,
        acl: 0,
        gravity: START_GRAVITY,
        fuel: FULL_TANK,
        has_fuel: true,
        power: 0,
        planet,
        game_status: GameStatus::Playing,
    }
}

impl Planet {
    pub open spec fn bounds(self) -> Hitbox {
        Hitbox { x: self.pos_x, y: self.pos_y, w: self.size, h: self.size }
    }

    pub fn hitbox(&self) -> (r: Hitbox)
        ensures
            r == self.bounds(),
    {
        Hitbox { x: self.pos_x, y: self.pos_y, w: self.size, h: self.size }
    }
}

impl GameState {
    /// The throttle, fuel, gravity and thrust stay in their ranges, and a tank
    /// below `LOW_FUEL` has been declared empty.
    pub open spec fn wf(self) -> bool {
        &&& 0 <= self.power <= MAX_THROTTLE
        &&& 0 <= self.fuel <= FULL_TANK
        &&& 0 <= self.gravity <= START_GRAVITY
        &&& 0 <= self.acl <= MAX_THRUST
        &&& self.fuel < LOW_FUEL ==> !self.has_fuel
    }

    pub open spec fn is_playing_spec(self) -> bool {
        self.game_status == GameStatus::Playing
    }

    /// The rocket's box with its top edge at `y`.
    pub open spec fn rocket_box_at(self, y: i64) -> Hitbox {
        Hitbox {
            x: self.pos_x,
            y,
            w: (self.rocket_width * SUBUNITS) as i64,
            h: (self.rocket_height * SUBUNITS) as i64,
        }
    }

    /// Whether the throttle is open and the tank holds enough for one burn.
    pub open spec fn thrusts(self) -> bool {
        1 <= self.power <= MAX_THROTTLE && self.fuel >= fuel_cost(self.power as int)
    }

    /// Speed after gravity has acted for one tick.
    pub open spec fn falling_speed(self) -> int {
        clamp_i64(self.vel + per_tick(self.gravity as int))
    }

    /// Speed after gravity and, where the engine burns, thrust.
    pub open spec fn speed_after_thrust(self) -> int {
        if self.thrusts() {
            clamp_i64(self.falling_speed() - per_tick(thrust_of(self.power as int)))
        } else {
            self.falling_speed()
        }
    }

    pub open spec fn fuel_after_thrust(self) -> int {
        if self.thrusts() {
            self.fuel - fuel_cost(self.power as int)
        } else {
            self.fuel as int
        }
    }

    /// Height after one tick's move.
    pub open spec fn next_y(self) -> int {
        clamp_i64(self.pos_y + self.speed_after_thrust())
    }

    /// The tank empties this tick.
    pub open spec fn runs_dry(self) -> bool {
        self.has_fuel && self.fuel_after_thrust() < LOW_FUEL
    }

    /// The rocket meets the platform this tick.
    pub open spec fn lands(self) -> bool {
        self.rocket_box_at(self.next_y() as i64).touches(self.planet.bounds())
    }

    /// The state after one tick.
    pub open spec fn ticked(self) -> GameState {
        if !self.is_playing_spec() {
            self
        } else {
            let speed = self.speed_after_thrust();
            let lands = self.lands();
            GameState {
                pos_y: self.next_y() as i64,
                vel: if lands { 0 } else { speed as i64 },
                acl: if self.thrusts() { thrust_of(self.power as int) as i64 } else { self.acl },
                gravity: if lands { 0 } else { self.gravity },
                fuel: self.fuel_after_thrust() as i64,
                has_fuel: self.has_fuel && !self.runs_dry(),
                power: if self.runs_dry() || lands { 0 } else { self.power },
                game_status: if !lands {
                    GameStatus::Playing
                } else if speed <= SAFE_LANDING_SPEED {
                    GameStatus::Win
                } else {
                    GameStatus::GameOver
                },
                ..self
            }
        }
    }

    pub open spec fn tick_report(self) -> TickReport {
        if !self.is_playing_spec() {
            TickReport { fuel_ran_out: false, touched_down: false }
        } else {
            TickReport { fuel_ran_out: self.runs_dry(), touched_down: self.lands() }
        }
    }

    /// The state after a reset: a new run, with the same sprite and platform.
    pub open spec fn restarted(self) -> GameState {
        initial_state(self.rocket_width, self.rocket_height, self.planet)
    }

    /// The state after a key press.
    pub open spec fn after_key(self, key: Key, repeat: bool) -> GameState {
        if repeat {
            self
        } else {
            match key {
                Key::Up => if self.power < MAX_THROTTLE {
                    GameState { power: (self.power + 1) as i32, ..self }
                } else {
                    self
                },
                Key::Down => if self.power > 0 {
                    GameState { power: (self.power - 1) as i32, ..self }
                } else {
                    self
                },
                Key::Right => GameState { pos_x: clamp_i64(self.pos_x + SIDE_STEP) as i64, ..self },
                Key::Left => GameState { pos_x: clamp_i64(self.pos_x - SIDE_STEP) as i64, ..self },
                Key::Reset => self.restarted(),
                Key::Quit => self,
            }
        }
    }

    pub open spec fn key_response(self, key: Key, repeat: bool) -> KeyResponse {
        if repeat {
            KeyResponse::Ignored
        } else {
            match key {
                Key::Up => if self.power < MAX_THROTTLE {
                    KeyResponse::ThrottledUp
                } else {
                    KeyResponse::MaxThrottle
                },
                Key::Down => if self.power > 0 {
                    KeyResponse::ThrottledDown
                } else {
                    KeyResponse::EngineOff
                },
                Key::Right | Key::Left => KeyResponse::Moved,
                Key::Reset => KeyResponse::Restarted,
                Key::Quit => KeyResponse::QuitRequested,
            }
        }
    }

    /// A new run, with the platform in its place, for a rocket sprite of
    /// `rocket_width` by `rocket_height` pixels.
    pub fn new(rocket_width: u32, rocket_height: u32) -> (r: GameState)
        ensures
            r == initial_state(rocket_width, rocket_height, platform()),
            r.wf(),
    {
        GameState {
            rocket_width,
            rocket_height,
            pos_x: START_X,
            pos_y: 0,
            vel: 0,
            acl: 0,
            gravity: START_GRAVITY,
            fuel: FULL_TANK,
            has_fuel: true,
            power: 0,
            planet: Planet { pos_x: PLATFORM_X, pos_y: PLATFORM_Y, size: PLATFORM_SIZE },
            game_status: GameStatus::Playing,
        }
    }

    /// Starts a new run; the sprite and the platform stay.
    pub fn reset_game(&mut self)
        ensures
            *final(self) == old(self).restarted(),
            final(self).wf(),
    {
        self.pos_x = START_X;
        self.pos_y = 0;
        self.vel = 0;
        self.acl = 0;
        self.gravity = START_GRAVITY;
        self.fuel = FULL_TANK;
        self.has_fuel = true;
        self.power = 0;
        self.game_status = GameStatus::Playing;
    }

    /// Whether the state meets the invariant that ticks and key presses need.
    pub fn is_valid(&self) -> (r: bool)
        ensures
            r == self.wf(),
    {
        0 <= self.power && self.power <= MAX_THROTTLE && 0 <= self.fuel && self.fuel <= FULL_TANK
            && 0 <= self.gravity && self.gravity <= START_GRAVITY && 0 <= self.acl && self.acl
            <= MAX_THRUST && (self.fuel >= LOW_FUEL || !self.has_fuel)
    }

    pub fn is_playing(&self) -> (r: bool)
        ensures
            r == self.is_playing_spec(),
    {
        match self.game_status {
            GameStatus::Playing => true,
            _ => false,
        }
    }

    /// The rocket's box where it stands now.
    pub fn rocket_hitbox(&self) -> (r: Hitbox)
        ensures
            r == self.rocket_box_at(self.pos_y),
    {
        Hitbox {
            x: self.pos_x,
            y: self.pos_y,
            w: self.rocket_width as i64 * SUBUNITS,
            h: self.rocket_height as i64 * SUBUNITS,
        }
    }

    /// Advances the simulation by one fixed tick; does nothing unless the
    /// game is being played.
    pub fn tick(&mut self) -> (report: TickReport)
        requires
            old(self).wf(),
        ensures
            *final(self) == old(self).ticked(),
            report == old(self).tick_report(),
            final(self).wf(),
    {
        if !self.is_playing() {
            return TickReport { fuel_ran_out: false, touched_down: false };
        }
        let ghost start = *self;
        let fps = FPS as i64;
        self.vel = saturating_sum(self.vel, self.gravity / fps);
        let level = self.power;
        let burn = burn_of(level);
        if 1 <= level && level <= MAX_THROTTLE && self.fuel >= burn {
            self.acl = thrust_for(level);
            self.vel = saturating_difference(self.vel, self.acl / fps);
            self.fuel = self.fuel - burn;
        }
        self.pos_y = saturating_sum(self.pos_y, self.vel);
        let mut fuel_ran_out = false;
        if self.fuel < LOW_FUEL && self.has_fuel {
            self.has_fuel = false;
            self.power = 0;
            fuel_ran_out = true;
        }
        let touched_down = self.rocket_hitbox().overlaps(&self.planet.hitbox());
        if touched_down {
            if self.vel <= SAFE_LANDING_SPEED {
                self.game_status = GameStatus::Win;
            } else {
                self.game_status = GameStatus::GameOver;
            }
            self.vel = 0;
            self.gravity = 0;
            self.power = 0;
        }
        assert(*self == start.ticked());
        TickReport { fuel_ran_out, touched_down }
    }

    /// Reacts to a key press; auto-repeated presses are ignored.
    pub fn handle_key(&mut self, key: Key, repeat: bool) -> (r: KeyResponse)
        requires
            old(self).wf(),
        ensures
            *final(self) == old(self).after_key(key, repeat),
            r == old(self).key_response(key, repeat),
            final(self).wf(),
    {
        if repeat {
            return KeyResponse::Ignored;
        }
        match key {
            Key::Up => {
                if self.power < MAX_THROTTLE {
                    self.power = self.power + 1;
                    KeyResponse::ThrottledUp
                } else {
                    KeyResponse::MaxThrottle
                }
            },
            Key::Down => {
                if self.power > 0 {
                    self.power = self.power - 1;
                    KeyResponse::ThrottledDown
                } else {
                    KeyResponse::EngineOff
                }
            },
            Key::Right => {
                self.pos_x = saturating_sum(self.pos_x, SIDE_STEP);
                KeyResponse::Moved
            },
            Key::Left => {
                self.pos_x = saturating_difference(self.pos_x, SIDE_STEP);
                KeyResponse::Moved
            },
            Key::Reset => {
                self.reset_game();
                KeyResponse::Restarted
            },
            Key::Quit => KeyResponse::QuitRequested,
        }
    }

    /// The on-screen readouts: fuel in litres, speed in pixels per tick, the
    /// throttle level, and the pixels left until the rocket rests on the
    /// platform.
    pub fn hud(&self) -> (r: Hud)
        ensures
            r.fuel == rounded(self.fuel as int, 10),
            r.velocity == rounded(self.vel as int, SUBUNITS as int),
            r.throttle == self.power,
            r.landing == rounded(
                self.planet.pos_y - LANDING_OFFSET - self.pos_y,
                SUBUNITS as int,
            ),
    {
        let fuel = rounded_quotient(self.fuel as i128, 10);
        let velocity = rounded_quotient(self.vel as i128, SUBUNITS as i128);
        let gap = self.planet.pos_y as i128 - LANDING_OFFSET as i128 - self.pos_y as i128;
        let landing = rounded_quotient(gap, SUBUNITS as i128);
        proof {
            lemma_rounded_bounds(self.fuel as int, 10);
            lemma_rounded_bounds(self.vel as int, SUBUNITS as int);
            lemma_rounded_bounds(gap as int, SUBUNITS as int);
        }
        Hud { fuel: fuel as i64, velocity: velocity as i64, throttle: self.power, landing: landing as i64 }
    }
}

proof fn lemma_rounded_bounds(n: int, d: int)
    requires
        10 <= d <= 1000,
        -0x2_0000_0000_0000_0000 <= n <= 0x2_0000_0000_0000_0000,
    ensures
        i64::MIN <= rounded(n, d) <= i64::MAX,
{
    let m = if n >= 0 { n } else { -n };
    vstd::arithmetic::div_mod::lemma_div_is_ordered_by_denominator(2 * m + d, 20, 2 * d);
    vstd::arithmetic::div_mod::lemma_div_pos_is_pos(2 * m + d, 2 * d);
    vstd::arithmetic::div_mod::lemma_div_is_ordered(2 * m + d, 0x4_0000_0000_0000_1000, 20);
}

} // verus!
