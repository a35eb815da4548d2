//! Data model: game states, the player, obstacles, the score, the spawn
//! timer, bounding boxes, and the gameplay constants.
//!
//! All geometric quantities are fixed-point values (see [`crate::fixed`]).
//! Positions are centers; boxes are stored as half-extents. The vertical
//! axis points up and the player's vertical velocity is positive while
//! falling, so gravity adds to it and the position update subtracts it.

use vstd::prelude::*;

use crate::fixed::FP_ONE;

verus! {

// ---------------------------------------------------------------------------
// Gameplay constants (world units scaled by `FP_ONE`).
// ---------------------------------------------------------------------------

/// Player bounding-box half width (full sprite is 34 x 24 units).
pub const BIRD_HALF_WIDTH: i64 = 17 * FP_ONE;

/// Player bounding-box half height.
pub const BIRD_HALF_HEIGHT: i64 = 12 * FP_ONE;

/// Obstacle bounding-box half width (full sprite is 52 x 320 units).
pub const PIPE_HALF_WIDTH: i64 = 26 * FP_ONE;

/// Obstacle bounding-box half height.
pub const PIPE_HALF_HEIGHT: i64 = 160 * FP_ONE;

/// Obstacle sprite height (full extent, twice `PIPE_HALF_HEIGHT`).
pub const PIPE_HEIGHT: i64 = 320 * FP_ONE;

/// Horizontal scroll speed of obstacles, in units per second.
pub const X_SPEED: i64 = 100 * FP_ONE;

/// Vertical clearance between the two obstacles of a pair.
pub const PIPE_GAP: i64 = 140 * FP_ONE;

/// Horizontal position at which obstacle pairs appear.
pub const PIPE_SPAWN_X: i64 = 155 * FP_ONE;

/// Vertical center of the gap of every spawned obstacle pair.
pub const PIPE_GAP_CENTER: i64 = 30 * FP_ONE;

/// Downward acceleration applied to gravity-affected entities, per second.
pub const GRAVITY: i64 = 6_820_000;

/// Magnitude of the upward velocity set by a jump.
pub const JUMP_AMOUNT: i64 = 3 * FP_ONE;

/// Period of the obstacle spawn timer: one second.
pub const SPAWN_PERIOD: i64 = FP_ONE;

/// Half of `PIPE_GAP`; the gap extends this far above and below
/// `PIPE_GAP_CENTER`.
pub const PIPE_GAP_HALF: i64 = 70 * FP_ONE;

/// Bound on bounding-box coordinates and half-extents under which the
/// collision arithmetic stays within the machine integer range. It is far
/// outside the playing field; only the machine's word size forces it.
pub const COORD_LIMIT: i64 = 0x1000_0000_0000_0000;

// ---------------------------------------------------------------------------
// States and events.
// ---------------------------------------------------------------------------

/// Coarse session state. `Loading` polls the asset statuses; `Menu` waits
/// for a new-game input; `Game` runs the per-tick gameplay systems;
/// `GameOver` (entered on collision) and `LoadFailed` (entered when a
/// required asset fails to load) are terminal.
#[derive(Clone, Copy, Debug, PartialEq, Eq, Structural)]
pub enum GameState {
    Loading,
    Menu,
    Game,
    GameOver,
    LoadFailed,
}

/// Emitted by the tick function when a collision ends the session.
#[derive(Clone, Copy, Debug, PartialEq, Eq, Structural)]
pub struct GameOverEvent;

/// Menu input asking for a session to start; the host turns its arrival
/// into the `new_game` flag of a tick's input.
#[derive(Clone, Copy, Debug, PartialEq, Eq, Structural)]
pub struct NewGameEvent;

// ---------------------------------------------------------------------------
// Entities.
// ---------------------------------------------------------------------------

/// The player entity: position, bounding-box half-extents, vertical
/// velocity (positive while falling) and the gravity-coupling flag.
#[derive(Clone, Copy, Debug, PartialEq, Eq, Structural)]
pub struct Bird {
    pub x: i64,
    pub y: i64,
    pub velocity: i64,
    pub half_width: i64,
    pub half_height: i64,
    pub gravity_affected: bool,
}

/// One obstacle piece. Pieces are created in pairs that share a `pair`
/// identifier; the lower piece is the upper sprite vertically mirrored
/// (`flipped`). Only pieces with `collider` set take part in collision
/// tests.
#[derive(Clone, Copy, Debug, PartialEq, Eq, Structural)]
pub struct Pipe {
    pub x: i64,
    pub y: i64,
    pub half_width: i64,
    pub half_height: i64,
    pub flipped: bool,
    pub collider: bool,
    pub pair: u32,
}

/// Session score: the number of obstacle pairs that have fully passed the
/// player's horizontal position.
#[derive(Clone, Copy, Debug, PartialEq, Eq, Structural)]
pub struct Score(pub u32);

/// Repeating interval timer driving the obstacle spawner. `elapsed`
/// accumulates tick durations; when it reaches `period` the timer fires
/// and the remainder past the last whole period is carried over.
#[derive(Clone, Copy, Debug, PartialEq, Eq, Structural)]
pub struct PipeSpawnTimer {
    pub elapsed: i64,
    pub period: i64,
}

/// An axis-aligned bounding box: a center and half-extents.
#[derive(Clone, Copy, Debug, PartialEq, Eq, Structural)]
pub struct Aabb {
    pub x: i64,
    pub y: i64,
    pub half_width: i64,
    pub half_height: i64,
}

/// Side of the stationary box on which an overlap is reported, for
/// diagnostics: the axis of least penetration, `Inside` when the
/// penetrations are equal or the centers coincide on the deciding axis.
#[derive(Clone, Copy, Debug, PartialEq, Eq, Structural)]
pub enum Collision {
    Left,
    Right,
    Top,
    Bottom,
    Inside,
}

/// Whether accumulating `dt` more time makes the timer fire this tick.
pub open spec fn timer_fires(t: PipeSpawnTimer, dt: int) -> bool {
    t.elapsed + dt >= t.period
}

/// The timer after accumulating `dt`: when it fires, the remainder past
/// the last whole period is carried over; otherwise the accumulator just
/// grows.
pub open spec fn spec_timer_tick(t: PipeSpawnTimer, dt: int) -> PipeSpawnTimer {
    if timer_fires(t, dt) {
        PipeSpawnTimer { elapsed: ((t.elapsed + dt) % (t.period as int)) as i64, ..t }
    } else {
        PipeSpawnTimer { elapsed: (t.elapsed + dt) as i64, ..t }
    }
}

impl PipeSpawnTimer {
    /// Well-formed timer: a positive period and an accumulator that has
    /// not yet reached it.
    pub open spec fn wf(self) -> bool {
        0 < self.period && 0 <= self.elapsed < self.period
    }

    /// A fresh repeating timer with the given period.
    pub fn new(period: i64) -> (t: PipeSpawnTimer)
        requires
            0 < period,
        ensures
            t.wf(),
            t.period == period,
            t.elapsed == 0,
    {
        PipeSpawnTimer { elapsed: 0, period }
    }

    /// Accumulates one tick's elapsed time; returns whether the timer
    /// fired. Firing happens once per whole period regardless of tick
    /// length: the time past the period is kept, not discarded.
    pub fn tick(&mut self, dt: i64) -> (fired: bool)
        requires
            old(self).wf(),
            0 <= dt,
            old(self).elapsed + dt <= i64::MAX,
        ensures
            fired == timer_fires(*old(self), dt as int),
            *final(self) == spec_timer_tick(*old(self), dt as int),
            final(self).wf(),
    {
        let total = self.elapsed + dt;
        if total >= self.period {
            let rem: u64 = (total as u64) % (self.period as u64);
            self.elapsed = rem as i64;
            true
        } else {
            self.elapsed = total;
            false
        }
    }
}

/// Whether a bounding box's fields are small enough for the collision
/// arithmetic; see `COORD_LIMIT`.
pub open spec fn aabb_fits(a: Aabb) -> bool {
    &&& -COORD_LIMIT <= a.x <= COORD_LIMIT
    &&& -COORD_LIMIT <= a.y <= COORD_LIMIT
    &&& -COORD_LIMIT <= a.half_width <= COORD_LIMIT
    &&& -COORD_LIMIT <= a.half_height <= COORD_LIMIT
}

impl Bird {
    /// The player's current bounding box.
    pub open spec fn spec_aabb(self) -> Aabb {
        Aabb { x: self.x, y: self.y, half_width: self.half_width, half_height: self.half_height }
    }

    /// The player's current bounding box.
    pub fn aabb(&self) -> (r: Aabb)
        ensures
            r == self.spec_aabb(),
    {
        Aabb { x: self.x, y: self.y, half_width: self.half_width, half_height: self.half_height }
    }
}

impl Pipe {
    /// This obstacle piece's current bounding box.
    pub open spec fn spec_aabb(self) -> Aabb {
        Aabb { x: self.x, y: self.y, half_width: self.half_width, half_height: self.half_height }
    }

    /// This obstacle piece's current bounding box.
    pub fn aabb(&self) -> (r: Aabb)
        ensures
            r == self.spec_aabb(),
    {
        Aabb { x: self.x, y: self.y, half_width: self.half_width, half_height: self.half_height }
    }
}

/// The player record as created at session start: at the origin, at rest,
/// with the player sprite's half-extents, coupled to gravity.
pub open spec fn spec_spawn_player() -> Bird {
    Bird {
        x: 0,
        y: 0,
        velocity: 0,
        half_width: BIRD_HALF_WIDTH,
        half_height: BIRD_HALF_HEIGHT,
        gravity_affected: true,
    }
}

/// Creates the player entity for a new session.
pub fn spawn_player() -> (b: Bird)
    ensures
        b == spec_spawn_player(),
{
    Bird {
        x: 0,
        y: 0,
        velocity: 0,
        half_width: BIRD_HALF_WIDTH,
        half_height: BIRD_HALF_HEIGHT,
        gravity_affected: true,
    }
}

} // verus!
