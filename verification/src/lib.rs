//! Simulation core of a small top-down arena shooter.
//!
//! The world is a 2D plane measured in fixed-point "milli-units": one game
//! unit is `UNIT` (1000) milli-units, and one second of game time is `SECOND`
//! (1000) milliseconds. All state is integer-valued so that every step of the
//! simulation — motion integration, axis-aligned collision detection and
//! resolution, and the spawn/despawn bookkeeping for transient entities — is
//! specified and verified exactly.
//!
//! The platform layer around the core supplies per-tick input and timing and
//! a source of randomness, and consumes the render list that each tick
//! produces; it performs all windowing, drawing, and input I/O itself.

use vstd::prelude::*;
use crate::game_state::{state_wf, ticked, GameState};
use crate::rng::RandomSource;

pub mod bullet;
pub mod cooldown;
pub mod enemies;
pub mod game_state;
pub mod entities;
pub mod math;
pub mod player;
pub mod rng;
pub mod vector;
pub mod wall;

verus! {

/// One game unit, in milli-units.
pub const UNIT: i64 = 1000;

/// One second of game time, in milliseconds.
pub const SECOND: i64 = 1000;

/// Largest magnitude a position coordinate can take, in milli-units.
/// Motion integration saturates here, the way a finite number format pins
/// runaway values at its edge; inside the arena the limit is never reached.
pub const COORD_LIMIT: i64 = 1_000_000_000_000;

/// Largest magnitude a velocity component can take, in milli-units per second.
pub const VEL_LIMIT: i64 = 2_000_000_000;

/// Largest frame delta a tick accepts, in milliseconds.
pub const DELTA_MAX: i64 = 1_000_000;

/// The tick's timing, as the platform loop supplies it: milliseconds since
/// the session started, and milliseconds since the previous tick.
#[derive(Clone, Copy, Debug, PartialEq, Eq, Structural)]
pub struct GameTime {
    pub time_elapsed: i64,
    pub delta: i64,
}

impl GameTime {
    pub fn new() -> (r: GameTime)
        ensures
            r == (GameTime { time_elapsed: 0, delta: 0 }),
    {
        GameTime { time_elapsed: 0, delta: 0 }
    }
}

/// One rectangle of the render list, with its display color.
#[derive(Clone, Copy, Debug, PartialEq, Eq, Structural)]
pub struct Renderable {
    pub rect: entities::BoundingBox,
    pub color: entities::Color,
}

/// Snapshot of the held inputs for one tick. Every flag is "currently held",
/// not edge-triggered.
pub struct GameInput {
    pub up_key: bool,
    pub down_key: bool,
    pub left_key: bool,
    pub right_key: bool,
    pub shoot_right: bool,
    pub shoot_left: bool,
    pub shoot_up: bool,
    pub shoot_down: bool,
    pub quit_key: bool,
    pub space: bool,
}

impl GameInput {
    /// An input snapshot with nothing held.
    pub fn new() -> (r: GameInput)
        ensures
            !r.up_key,
            !r.down_key,
            !r.left_key,
            !r.right_key,
            !r.shoot_right,
            !r.shoot_left,
            !r.shoot_up,
            !r.shoot_down,
            !r.quit_key,
            !r.space,
    {
        GameInput {
            down_key: false,
            left_key: false,
            right_key: false,
            up_key: false,
            shoot_right: false,
            shoot_left: false,
            shoot_up: false,
            shoot_down: false,
            quit_key: false,
            space: false,
        }
    }
}

/// One pass of the platform loop's work that belongs to the simulation: a
/// held quit key short-circuits the tick entirely — no mutation happens on a
/// quit frame and the render list is empty — and otherwise the world advances
/// by one full tick. Returns whether the session should end, with the tick's
/// render list.
pub fn game_loop<R: RandomSource>(
    state: &mut GameState,
    rng: &mut R,
    input: &GameInput,
    time_elapsed: i64,
    delta: i64,
) -> (r: (bool, Vec<Renderable>))
    requires
        state_wf(*old(state)),
        0 <= delta <= DELTA_MAX,
        0 <= time_elapsed,
    ensures
        r.0 == input.quit_key,
        input.quit_key ==> *final(state) == *old(state) && r.1@ == Seq::<Renderable>::empty(),
        !input.quit_key ==> state_wf(*final(state)) && ticked(
            *old(state),
            *final(state),
            r.1@,
            *input,
            time_elapsed as int,
            delta as int,
        ),
{
    if input.quit_key {
        let empty: Vec<Renderable> = Vec::new();
        proof {
            assert(empty@ =~= Seq::<Renderable>::empty());
        }
        return (true, empty);
    }
    let out = state.update(input, rng, time_elapsed, delta);
    (false, out)
}

/// Whether a window message code is the session-ending message the platform
/// loop watches for (the code the message pump reports when the window is
/// being torn down).
pub fn is_quit_message(message: u32) -> (r: bool)
    ensures
        r == (message == 161),
{
    if message == 161 {
        return true;
    }
    false
}

} // verus!
