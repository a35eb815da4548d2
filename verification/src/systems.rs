//! Per-tick gameplay systems: gravity integration, the jump impulse, the
//! obstacle scroller, the obstacle spawner, collision detection, and the
//! scorer. Each system is a plain function from state and tick inputs to
//! the next state; [`crate::game::tick`] runs them in a fixed order.

use vstd::prelude::*;

use crate::fixed::{fp_mul, fp_mul_spec};
use crate::structs::{
    aabb_fits, spec_timer_tick, timer_fires, Aabb, Bird, Collision, Pipe, PipeSpawnTimer, Score,
    PIPE_GAP_CENTER, PIPE_GAP_HALF, PIPE_HALF_HEIGHT, PIPE_HALF_WIDTH, PIPE_HEIGHT, PIPE_SPAWN_X,
    X_SPEED,
};

verus! {

// ---------------------------------------------------------------------------
// Gravity integrator.
// ---------------------------------------------------------------------------

/// Per-tick growth of the vertical velocity: the gravity rate scaled by the
/// tick duration.
pub open spec fn gravity_increment(gravity: int, dt: int) -> int {
    fp_mul_spec(gravity, dt)
}

/// The player after one gravity step: velocity grows by
/// `gravity_increment`, and the vertical position drops by the full
/// post-accrual velocity (a per-tick displacement, deliberately not
/// rescaled by `dt`). A player not coupled to gravity is unchanged.
pub open spec fn spec_apply_gravity(b: Bird, gravity: int, dt: int) -> Bird {
    if b.gravity_affected {
        let v = b.velocity + gravity_increment(gravity, dt);
        Bird { velocity: v as i64, y: (b.y - v) as i64, ..b }
    } else {
        b
    }
}

/// Whether one gravity step on `b` stays within the machine integer range.
pub open spec fn apply_gravity_fits(b: Bird, gravity: int, dt: int) -> bool {
    &&& gravity * dt <= i64::MAX
    &&& b.velocity + gravity_increment(gravity, dt) <= i64::MAX
    &&& i64::MIN <= b.y - (b.velocity + gravity_increment(gravity, dt)) <= i64::MAX
}

/// One fixed tick of the gravity integrator on a gravity-affected entity:
/// accrue `gravity * dt` onto the vertical velocity, then displace the
/// vertical position by the accrued velocity.
pub fn apply_gravity(b: &mut Bird, gravity: i64, dt: i64)
    requires
        0 <= gravity,
        0 <= dt,
        apply_gravity_fits(*old(b), gravity as int, dt as int),
    ensures
        *final(b) == spec_apply_gravity(*old(b), gravity as int, dt as int),
{
    if b.gravity_affected {
        let inc = fp_mul(gravity, dt);
        b.velocity = b.velocity + inc;
        b.y = b.y - b.velocity;
    }
}

// ---------------------------------------------------------------------------
// Input impulse.
// ---------------------------------------------------------------------------

/// The player after a jump input: a press overwrites the vertical velocity
/// of a gravity-coupled player with `-jump_amount`; without a press (or
/// without gravity coupling) nothing changes.
pub open spec fn spec_jump(b: Bird, jump_amount: int, pressed: bool) -> Bird {
    if pressed && b.gravity_affected {
        Bird { velocity: (-jump_amount) as i64, ..b }
    } else {
        b
    }
}

/// Applies the jump impulse for this tick's input edge. The velocity is
/// overwritten, not accumulated: pressing twice in one tick leaves the
/// same velocity as pressing once.
pub fn jump(b: &mut Bird, jump_amount: i64, pressed: bool)
    requires
        0 <= jump_amount,
    ensures
        *final(b) == spec_jump(*old(b), jump_amount as int, pressed),
{
    if pressed && b.gravity_affected {
        b.velocity = -jump_amount;
    }
}

// ---------------------------------------------------------------------------
// Scroller.
// ---------------------------------------------------------------------------

/// An obstacle piece after one scroll step: moved left by
/// `X_SPEED * dt`, everything else unchanged.
pub open spec fn spec_shift_pipe(p: Pipe, dt: int) -> Pipe {
    Pipe { x: (p.x - fp_mul_spec(X_SPEED as int, dt)) as i64, ..p }
}

/// Whether one scroll step keeps every obstacle position in range.
pub open spec fn shift_pipes_fits(pipes: Seq<Pipe>, dt: int) -> bool {
    &&& X_SPEED * dt <= i64::MAX
    &&& forall|i: int|
        0 <= i < pipes.len() ==> i64::MIN <= (#[trigger] pipes[i]).x - fp_mul_spec(
            X_SPEED as int,
            dt,
        )
}

/// One fixed tick of the scroller: every obstacle piece moves left by the
/// scroll speed scaled by the tick duration.
pub fn shift_pipes(pipes: &mut Vec<Pipe>, dt: i64)
    requires
        0 <= dt,
        shift_pipes_fits(old(pipes)@, dt as int),
    ensures
        final(pipes)@.len() == old(pipes)@.len(),
        forall|i: int|
            0 <= i < old(pipes)@.len() ==> final(pipes)@[i] == spec_shift_pipe(
                old(pipes)@[i],
                dt as int,
            ),
{
    let ghost orig = pipes@;
    let shift = fp_mul(X_SPEED, dt);
    let n = pipes.len();
    let mut i: usize = 0;
    while i < n
        invariant
            n == pipes@.len(),
            n == orig.len(),
            0 <= i <= n,
            0 <= dt,
            0 <= shift,
            shift == fp_mul_spec(X_SPEED as int, dt as int),
            shift_pipes_fits(orig, dt as int),
            forall|j: int| i <= j < n ==> pipes@[j] == orig[j],
            forall|j: int| 0 <= j < i ==> pipes@[j] == spec_shift_pipe(orig[j], dt as int),
        decreases n - i,
    {
        let p = pipes[i];
        assert(p == orig[i as int]);
        assert(i64::MIN <= orig[i as int].x - fp_mul_spec(X_SPEED as int, dt as int));
        pipes.set(i, Pipe { x: p.x - shift, ..p });
        i = i + 1;
    }
}

// ---------------------------------------------------------------------------
// Obstacle spawner.
// ---------------------------------------------------------------------------

/// The upper piece of a freshly spawned obstacle pair: its top edge sits
/// `obstacle_height` above the upper rim of the gap, it is not mirrored,
/// and it collides.
pub open spec fn spec_upper_pipe(pair: u32, obstacle_height: int) -> Pipe {
    Pipe {
        x: PIPE_SPAWN_X,
        y: (PIPE_GAP_CENTER - PIPE_GAP_HALF - obstacle_height) as i64,
        half_width: PIPE_HALF_WIDTH,
        half_height: PIPE_HALF_HEIGHT,
        flipped: false,
        collider: true,
        pair,
    }
}

/// The lower piece of a freshly spawned obstacle pair: it starts at the
/// lower rim of the gap and is the upper sprite vertically mirrored.
pub open spec fn spec_lower_pipe(pair: u32) -> Pipe {
    Pipe {
        x: PIPE_SPAWN_X,
        y: (PIPE_GAP_CENTER + PIPE_GAP_HALF) as i64,
        half_width: PIPE_HALF_WIDTH,
        half_height: PIPE_HALF_HEIGHT,
        flipped: true,
        collider: true,
        pair,
    }
}

/// Creates one obstacle pair at the spawn position. The two pieces share
/// the `pair` identifier; the vertical gap of `PIPE_GAP` between them is
/// centered at `PIPE_GAP_CENTER` whatever the sprite height
/// `obstacle_height` is.
pub fn spawn_pair(pair: u32, obstacle_height: i64) -> (r: (Pipe, Pipe))
    requires
        i64::MIN <= PIPE_GAP_CENTER - PIPE_GAP_HALF - obstacle_height <= i64::MAX,
    ensures
        r.0 == spec_upper_pipe(pair, obstacle_height as int),
        r.1 == spec_lower_pipe(pair),
{
    let upper_offset = PIPE_GAP_CENTER - PIPE_GAP_HALF;
    let lower_offset = PIPE_GAP_CENTER + PIPE_GAP_HALF;
    let upper = Pipe {
        x: PIPE_SPAWN_X,
        y: upper_offset - obstacle_height,
        half_width: PIPE_HALF_WIDTH,
        half_height: PIPE_HALF_HEIGHT,
        flipped: false,
        collider: true,
        pair,
    };
    let lower = Pipe {
        x: PIPE_SPAWN_X,
        y: lower_offset,
        half_width: PIPE_HALF_WIDTH,
        half_height: PIPE_HALF_HEIGHT,
        flipped: true,
        collider: true,
        pair,
    };
    (upper, lower)
}

/// One fixed tick of the obstacle spawner: accumulate `dt` on the spawn
/// timer; when it fires, append a fresh obstacle pair (sprite height
/// `PIPE_HEIGHT`) and advance the pair counter.
pub fn spawn_pipe_on_timer(
    pipes: &mut Vec<Pipe>,
    timer: &mut PipeSpawnTimer,
    next_pair: &mut u32,
    dt: i64,
)
    requires
        old(timer).wf(),
        0 <= dt,
        old(timer).elapsed + dt <= i64::MAX,
        *old(next_pair) < u32::MAX,
    ensures
        *final(timer) == spec_timer_tick(*old(timer), dt as int),
        final(timer).wf(),
        timer_fires(*old(timer), dt as int) ==> {
            &&& final(pipes)@ == old(pipes)@.push(
                spec_upper_pipe(*old(next_pair), PIPE_HEIGHT as int),
            ).push(spec_lower_pipe(*old(next_pair)))
            &&& *final(next_pair) == *old(next_pair) + 1
        },
        !timer_fires(*old(timer), dt as int) ==> {
            &&& final(pipes)@ == old(pipes)@
            &&& *final(next_pair) == *old(next_pair)
        },
{
    let fired = timer.tick(dt);
    if fired {
        let (upper, lower) = spawn_pair(*next_pair, PIPE_HEIGHT);
        pipes.push(upper);
        pipes.push(lower);
        *next_pair = *next_pair + 1;
    }
}

// ---------------------------------------------------------------------------
// Collision detector.
// ---------------------------------------------------------------------------

/// Axis-aligned overlap of two boxes: on both axes, the distance between
/// the centers is strictly below the sum of the half-extents. Boxes that
/// merely touch (distance equal to the sum) do not overlap.
pub open spec fn aabb_overlap(a: Aabb, b: Aabb) -> bool {
    &&& vstd::math::abs(a.x - b.x) < a.half_width + b.half_width
    &&& vstd::math::abs(a.y - b.y) < a.half_height + b.half_height
}

/// Side of `b` on which an overlapping `a` is reported, for diagnostics:
/// the axis with the smaller penetration decides, and the sign of the
/// center offset on that axis picks the side; `Inside` when neither axis
/// decides. Meaningful only when the boxes overlap.
pub open spec fn collision_side(a: Aabb, b: Aabb) -> Collision {
    let x_pen = a.half_width + b.half_width - vstd::math::abs(a.x - b.x);
    let y_pen = a.half_height + b.half_height - vstd::math::abs(a.y - b.y);
    if x_pen < y_pen {
        if a.x < b.x {
            Collision::Left
        } else if a.x > b.x {
            Collision::Right
        } else {
            Collision::Inside
        }
    } else if y_pen < x_pen {
        if a.y < b.y {
            Collision::Bottom
        } else if a.y > b.y {
            Collision::Top
        } else {
            Collision::Inside
        }
    } else {
        Collision::Inside
    }
}

/// Tests two bounding boxes for axis-aligned overlap. Returns the side of
/// `b` on which `a` overlaps it, or `None` when the boxes are apart or
/// only touching.
pub fn collide(a: &Aabb, b: &Aabb) -> (r: Option<Collision>)
    requires
        aabb_fits(*a),
        aabb_fits(*b),
    ensures
        r == if aabb_overlap(*a, *b) {
            Some(collision_side(*a, *b))
        } else {
            None::<Collision>
        },
{
    let dx = a.x - b.x;
    let adx = if dx < 0 {
        -dx
    } else {
        dx
    };
    let dy = a.y - b.y;
    let ady = if dy < 0 {
        -dy
    } else {
        dy
    };
    let wx = a.half_width + b.half_width;
    let wy = a.half_height + b.half_height;
    if adx < wx && ady < wy {
        let x_pen = wx - adx;
        let y_pen = wy - ady;
        if x_pen < y_pen {
            if a.x < b.x {
                Some(Collision::Left)
            } else if a.x > b.x {
                Some(Collision::Right)
            } else {
                Some(Collision::Inside)
            }
        } else if y_pen < x_pen {
            if a.y < b.y {
                Some(Collision::Bottom)
            } else if a.y > b.y {
                Some(Collision::Top)
            } else {
                Some(Collision::Inside)
            }
        } else {
            Some(Collision::Inside)
        }
    } else {
        None
    }
}

/// Whether this obstacle piece takes part in collisions and overlaps the
/// player's bounding box.
pub open spec fn pipe_hits_bird(b: Bird, p: Pipe) -> bool {
    p.collider && aabb_overlap(b.spec_aabb(), p.spec_aabb())
}

/// Outcome of a collision check. `MissingPlayer` reports that no player
/// entity was available, a recoverable condition: the check is skipped
/// for the tick.
#[derive(Clone, Copy, Debug, PartialEq, Eq, Structural)]
pub enum CollisionReport {
    MissingPlayer,
    NoCollision,
    Hit(Collision),
}

/// Report for the first obstacle piece, in storage order, that collides
/// with the player; `NoCollision` when none does.
pub open spec fn spec_scan_hits(b: Bird, pipes: Seq<Pipe>) -> CollisionReport
    decreases pipes.len(),
{
    if pipes.len() == 0 {
        CollisionReport::NoCollision
    } else if pipe_hits_bird(b, pipes[0]) {
        CollisionReport::Hit(collision_side(b.spec_aabb(), pipes[0].spec_aabb()))
    } else {
        spec_scan_hits(b, pipes.subrange(1, pipes.len() as int))
    }
}

/// Result of the per-tick collision check over the whole obstacle set.
pub open spec fn spec_check_for_collisions(bird: Option<Bird>, pipes: Seq<Pipe>) -> CollisionReport {
    match bird {
        None => CollisionReport::MissingPlayer,
        Some(b) => spec_scan_hits(b, pipes),
    }
}

/// One fixed tick of the collision detector: tests the player's bounding
/// box against every colliding obstacle piece and reports the first
/// overlap found, in storage order. With no player present the check is
/// skipped and `MissingPlayer` is reported; the tick goes on.
pub fn check_for_collisions(bird: &Option<Bird>, pipes: &Vec<Pipe>) -> (r: CollisionReport)
    requires
        bird matches Some(b) ==> aabb_fits(b.spec_aabb()),
        forall|i: int| 0 <= i < pipes@.len() ==> aabb_fits((#[trigger] pipes@[i]).spec_aabb()),
    ensures
        r == spec_check_for_collisions(*bird, pipes@),
        (r matches CollisionReport::Hit(_)) <==> (*bird matches Some(b) && exists|i: int|
            0 <= i < pipes@.len() && pipe_hits_bird(b, #[trigger] pipes@[i])),
{
    let bird_ref = match bird {
        Some(b) => b,
        None => {
            return CollisionReport::MissingPlayer;
        },
    };
    let bird_box = bird_ref.aabb();
    let n = pipes.len();
    assert(pipes@.subrange(0, n as int) =~= pipes@);
    let mut i: usize = 0;
    while i < n
        invariant
            n == pipes@.len(),
            0 <= i <= n,
            *bird == Some(*bird_ref),
            bird_box == bird_ref.spec_aabb(),
            aabb_fits(bird_box),
            forall|k: int| 0 <= k < n ==> aabb_fits((#[trigger] pipes@[k]).spec_aabb()),
            forall|j: int| 0 <= j < i ==> !pipe_hits_bird(*bird_ref, #[trigger] pipes@[j]),
            spec_scan_hits(*bird_ref, pipes@) == spec_scan_hits(
                *bird_ref,
                pipes@.subrange(i as int, n as int),
            ),
        decreases n - i,
    {
        let p = &pipes[i];
        proof {
            assert(pipes@.subrange(i as int, n as int)[0] == pipes@[i as int]);
        }
        if p.collider {
            let hit = collide(&bird_box, &p.aabb());
            if let Some(side) = hit {
                assert(pipe_hits_bird(*bird_ref, pipes@[i as int]));
                return CollisionReport::Hit(side);
            }
        }
        proof {
            assert(!pipe_hits_bird(*bird_ref, pipes@[i as int]));
            assert(pipes@.subrange(i as int, n as int).subrange(
                1,
                pipes@.subrange(i as int, n as int).len() as int,
            ) =~= pipes@.subrange(i + 1 as int, n as int));
        }
        i = i + 1;
    }
    assert(pipes@.subrange(n as int, n as int) =~= Seq::<Pipe>::empty());
    CollisionReport::NoCollision
}

// ---------------------------------------------------------------------------
// Scorer.
// ---------------------------------------------------------------------------

/// Whether an obstacle piece has fully passed the player, who sits at
/// horizontal position zero: its right edge lies strictly left of zero.
pub open spec fn pipe_passed(p: Pipe) -> bool {
    p.x + p.half_width < 0
}

/// Number of obstacle pieces in the set that have fully passed the player.
pub open spec fn count_passed(s: Seq<Pipe>) -> nat
    decreases s.len(),
{
    if s.len() == 0 {
        0nat
    } else {
        count_passed(s.drop_last()) + if pipe_passed(s.last()) {
            1nat
        } else {
            0nat
        }
    }
}

/// The score the obstacle set yields: passed pieces come in pairs, so the
/// pair count is the piece count halved (rounded down).
pub open spec fn spec_score(s: Seq<Pipe>) -> nat {
    count_passed(s) / 2
}

/// Whether the scorer's counting arithmetic stays in range for this
/// obstacle set.
pub open spec fn score_fits(pipes: Seq<Pipe>) -> bool {
    &&& pipes.len() <= u32::MAX
    &&& forall|i: int|
        0 <= i < pipes.len() ==> i64::MIN <= (#[trigger] pipes[i]).x + pipes[i].half_width
            <= i64::MAX
}

/// One fixed tick of the scorer: recomputes the score from scratch as the
/// number of obstacle pairs whose pieces have fully passed the player.
/// Recomputing (rather than incrementing) makes the result depend on the
/// obstacle set alone.
pub fn check_pipe_update_score(pipes: &Vec<Pipe>, score: &mut Score)
    requires
        score_fits(pipes@),
    ensures
        final(score).0 == spec_score(pipes@),
{
    let mut pipes_passed: u32 = 0;
    let n = pipes.len();
    let mut i: usize = 0;
    while i < n
        invariant
            n == pipes@.len(),
            0 <= i <= n,
            score_fits(pipes@),
            pipes_passed <= i,
            pipes_passed == count_passed(pipes@.take(i as int)),
        decreases n - i,
    {
        let p = &pipes[i];
        assert(pipes@.take(i + 1 as int).drop_last() =~= pipes@.take(i as int));
        assert(pipes@.take(i + 1 as int).last() == pipes@[i as int]);
        if p.x + p.half_width < 0 {
            pipes_passed = pipes_passed + 1;
        }
        i = i + 1;
    }
    assert(pipes@.take(n as int) =~= pipes@);
    score.0 = pipes_passed / 2;
}

} // verus!
