//! Properties of the simulation, stated over the models that the executable
//! functions' contracts use.
use vstd::prelude::*;

use crate::arith::clamp_i64;
use crate::game::{
    fuel_cost, initial_state, per_tick, thrust_of, GameState, GameStatus, Key, KeyResponse,
    TickReport, FULL_TANK, LOW_FUEL, MAX_THROTTLE, SAFE_LANDING_SPEED, START_GRAVITY, START_X,
};

verus! {

/// Once the game is won or lost, a tick changes nothing and reports nothing.
pub proof fn lemma_frozen_unless_playing(s: GameState)
    requires
        s.game_status != GameStatus::Playing,
    ensures
        s.ticked() == s,
        s.tick_report() == (TickReport { fuel_ran_out: false, touched_down: false }),
{
}

/// With the throttle open at level 1, 2 or 3, the engine burns exactly when
/// the tank holds that level's cost (0.1, 0.3 or 0.6 litres): the burn takes
/// that fuel and slows the rocket by the level's thrust. Otherwise the fuel
/// stays and only gravity acts on the speed.
pub proof fn lemma_thrust_needs_fuel(s: GameState)
    requires
        s.wf(),
        s.game_status == GameStatus::Playing,
        1 <= s.power <= MAX_THROTTLE,
    ensures
        fuel_cost(1) == 1 && fuel_cost(2) == 3 && fuel_cost(3) == 6,
        s.thrusts() <==> s.fuel >= fuel_cost(s.power as int),
        s.thrusts() <==> s.ticked().fuel < s.fuel,
        s.thrusts() ==> {
            &&& s.ticked().fuel == s.fuel - fuel_cost(s.power as int)
            &&& s.speed_after_thrust() == clamp_i64(
                s.falling_speed() - per_tick(thrust_of(s.power as int)),
            )
            &&& s.ticked().acl == thrust_of(s.power as int)
        },
        !s.thrusts() ==> {
            &&& s.ticked().fuel == s.fuel
            &&& s.speed_after_thrust() == clamp_i64(s.vel + per_tick(s.gravity as int))
            &&& s.ticked().acl == s.acl
        },
{
}

/// The throttle stays within `0..=MAX_THROTTLE` through ticks and key
/// presses; opening it further at the top, or closing it at zero, changes
/// nothing and only reports so.
pub proof fn lemma_throttle_in_range(s: GameState, key: Key, repeat: bool)
    requires
        s.wf(),
    ensures
        s.ticked().wf(),
        s.after_key(key, repeat).wf(),
        0 <= s.ticked().power <= MAX_THROTTLE,
        0 <= s.after_key(key, repeat).power <= MAX_THROTTLE,
        s.power == MAX_THROTTLE ==> s.after_key(Key::Up, false) == s && s.key_response(
            Key::Up,
            false,
        ) == KeyResponse::MaxThrottle,
        s.power == 0 ==> s.after_key(Key::Down, false) == s && s.key_response(Key::Down, false)
            == KeyResponse::EngineOff,
{
}

/// The tank is declared empty once per run: on the tick on which the fuel
/// first drops below one litre the flag falls and the throttle closes; once
/// it has fallen, only a reset raises it again.
pub proof fn lemma_fuel_runs_out_once(s: GameState, key: Key, repeat: bool)
    requires
        s.wf(),
    ensures
        s.is_playing_spec() && s.has_fuel && s.ticked().fuel < LOW_FUEL ==> {
            &&& !s.ticked().has_fuel
            &&& s.ticked().power == 0
            &&& s.tick_report().fuel_ran_out
        },
        s.has_fuel && s.ticked().fuel >= LOW_FUEL ==> s.ticked().has_fuel
            && !s.tick_report().fuel_ran_out,
        !s.has_fuel ==> !s.ticked().has_fuel && !s.tick_report().fuel_ran_out,
        !s.has_fuel && key != Key::Reset ==> !s.after_key(key, repeat).has_fuel,
{
}

/// When the rocket meets the platform, the landing is won at a speed of at
/// most 2 px per tick and lost above it; either way speed, gravity and
/// throttle drop to zero. Without contact the game goes on.
pub proof fn lemma_collision_resolution(s: GameState)
    requires
        s.wf(),
        s.game_status == GameStatus::Playing,
    ensures
        s.lands() ==> {
            &&& s.ticked().game_status == (if s.speed_after_thrust() <= SAFE_LANDING_SPEED {
                GameStatus::Win
            } else {
                GameStatus::GameOver
            })
            &&& s.ticked().vel == 0
            &&& s.ticked().gravity == 0
            &&& s.ticked().power == 0
            &&& s.tick_report().touched_down
        },
        !s.lands() ==> s.ticked().game_status == GameStatus::Playing
            && !s.tick_report().touched_down,
{
}

/// A reset, from any state, brings back the start of a run: the rocket at
/// (175, 0) px, at rest, gravity 2.5, a full tank, the engine off and the game
/// in play. The sprite and the platform stay.
pub proof fn lemma_reset_restores_start(s: GameState)
    ensures
        s.after_key(Key::Reset, false) == initial_state(s.rocket_width, s.rocket_height, s.planet),
        s.after_key(Key::Reset, false).pos_x == START_X,
        s.after_key(Key::Reset, false).pos_y == 0,
        s.after_key(Key::Reset, false).vel == 0,
        s.after_key(Key::Reset, false).acl == 0,
        s.after_key(Key::Reset, false).gravity == START_GRAVITY,
        s.after_key(Key::Reset, false).fuel == FULL_TANK,
        s.after_key(Key::Reset, false).has_fuel,
        s.after_key(Key::Reset, false).power == 0,
        s.after_key(Key::Reset, false).game_status == GameStatus::Playing,
        s.after_key(Key::Reset, false).planet == s.planet,
{
}

} // verus!
