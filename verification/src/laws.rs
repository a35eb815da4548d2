//! General properties of the gameplay systems, stated and proved once for
//! all inputs: accumulation of gravity over any number of ticks,
//! idempotence of the jump impulse and of the scorer, the spawn-gap
//! invariant, and monotonicity of the score within a session.

use vstd::prelude::*;

use crate::fixed::fp_mul_spec;
use crate::structs::{
    timer_fires, Bird, Pipe, PipeSpawnTimer, Score, PIPE_GAP, PIPE_GAP_CENTER, PIPE_GAP_HALF,
    PIPE_HEIGHT, X_SPEED,
};
use crate::systems::{
    count_passed, gravity_increment, shift_pipes_fits, spec_apply_gravity, spec_jump,
    spec_lower_pipe, spec_score, spec_shift_pipe, spec_upper_pipe,
};
use crate::game::spec_pipes_after;

verus! {

/// The player after `n` consecutive gravity ticks of duration `dt`.
pub open spec fn spec_gravity_ticks(b: Bird, gravity: int, dt: int, n: nat) -> Bird
    decreases n,
{
    if n == 0 {
        b
    } else {
        spec_apply_gravity(spec_gravity_ticks(b, gravity, dt, (n - 1) as nat), gravity, dt)
    }
}

/// Gravity accumulates linearly: starting from velocity zero, `n` ticks of
/// duration `dt` leave the vertical velocity at exactly `n` times the
/// per-tick increment `gravity * dt` — the sum of the per-tick increments,
/// for every tick count whose total stays in machine range.
pub proof fn lemma_gravity_velocity_accumulates(b: Bird, gravity: int, dt: int, n: nat)
    requires
        b.gravity_affected,
        b.velocity == 0,
        0 <= gravity,
        0 <= dt,
        n * gravity_increment(gravity, dt) <= i64::MAX,
    ensures
        spec_gravity_ticks(b, gravity, dt, n).velocity == n * gravity_increment(gravity, dt),
        spec_gravity_ticks(b, gravity, dt, n).gravity_affected,
    decreases n,
{
    let inc = gravity_increment(gravity, dt);
    assert(gravity * dt >= 0) by (nonlinear_arith)
        requires
            0 <= gravity,
            0 <= dt,
    ;
    assert(inc >= 0);
    if n == 0 {
        assert(0nat * inc == 0);
    } else {
        let m = (n - 1) as nat;
        assert(m * inc + inc == n * inc) by (nonlinear_arith)
            requires
                m == n - 1,
        ;
        assert(m * inc >= 0) by (nonlinear_arith)
            requires
                inc >= 0,
        ;
        lemma_gravity_velocity_accumulates(b, gravity, dt, m);
    }
}

/// The jump impulse is idempotent within a tick: pressing jump a second
/// time overwrites the velocity with the same value, so two presses leave
/// exactly the state one press leaves — the velocity is `-jump_amount`,
/// not `-2 * jump_amount`.
pub proof fn lemma_jump_idempotent(b: Bird, jump_amount: int)
    requires
        b.gravity_affected,
        0 <= jump_amount <= i64::MAX,
    ensures
        spec_jump(spec_jump(b, jump_amount, true), jump_amount, true) == spec_jump(
            b,
            jump_amount,
            true,
        ),
        spec_jump(spec_jump(b, jump_amount, true), jump_amount, true).velocity == -jump_amount,
{
}

/// Every spawned obstacle pair leaves a vertical clearance of exactly
/// `PIPE_GAP` between the bottom of the upper piece (its position plus the
/// sprite height) and the lower piece, whatever the sprite height is.
pub proof fn lemma_spawn_gap(pair: u32, obstacle_height: int)
    requires
        i64::MIN <= PIPE_GAP_CENTER - PIPE_GAP_HALF - obstacle_height <= i64::MAX,
    ensures
        spec_lower_pipe(pair).y - (spec_upper_pipe(pair, obstacle_height).y + obstacle_height)
            == PIPE_GAP,
{
}

/// The score as a state update: the prior score is discarded and the
/// count of passed pairs is recomputed from the obstacle set alone.
pub open spec fn spec_rescore(pipes: Seq<Pipe>, prior: Score) -> Score {
    Score((count_passed(pipes) / 2) as u32)
}

/// The scorer is idempotent: rescoring the same obstacle set a second
/// time, with no movement in between, yields the same score.
pub proof fn lemma_scorer_idempotent(pipes: Seq<Pipe>, prior: Score)
    ensures
        spec_rescore(pipes, spec_rescore(pipes, prior)) == spec_rescore(pipes, prior),
{
}

/// Pointwise leftward movement never un-passes an obstacle piece: if every
/// piece of `after` sits at or left of the matching piece of `before` with
/// the same half width, at least as many pieces have passed.
pub proof fn lemma_count_passed_monotone(before: Seq<Pipe>, after: Seq<Pipe>)
    requires
        before.len() == after.len(),
        forall|i: int|
            0 <= i < before.len() ==> (#[trigger] after[i]).x <= before[i].x && after[i].half_width
                == before[i].half_width,
    ensures
        count_passed(after) >= count_passed(before),
    decreases before.len(),
{
    if before.len() > 0 {
        lemma_count_passed_monotone(before.drop_last(), after.drop_last());
    }
}

/// Appending pieces never lowers the passed count.
pub proof fn lemma_count_passed_push(s: Seq<Pipe>, p: Pipe)
    ensures
        count_passed(s.push(p)) >= count_passed(s),
{
    assert(s.push(p).drop_last() =~= s);
}

/// The score never decreases within a session: one tick's scrolling and
/// spawning can only grow the count of passed obstacle pairs.
pub proof fn lemma_score_monotone_per_tick(
    pipes: Seq<Pipe>,
    timer: PipeSpawnTimer,
    next_pair: u32,
    dt: int,
)
    requires
        0 <= dt,
        shift_pipes_fits(pipes, dt),
    ensures
        spec_score(spec_pipes_after(pipes, timer, next_pair, dt)) >= spec_score(pipes),
{
    let shift = fp_mul_spec(X_SPEED as int, dt);
    assert(X_SPEED * dt >= 0) by (nonlinear_arith)
        requires
            0 <= dt,
            0 <= X_SPEED,
    ;
    assert(shift >= 0);
    let moved = pipes.map_values(|p: Pipe| spec_shift_pipe(p, dt));
    assert forall|i: int| 0 <= i < pipes.len() implies (#[trigger] moved[i]).x <= pipes[i].x
        && moved[i].half_width == pipes[i].half_width by {
        assert(i64::MIN <= pipes[i].x - shift);
    }
    lemma_count_passed_monotone(pipes, moved);
    let after = spec_pipes_after(pipes, timer, next_pair, dt);
    if timer_fires(timer, dt) {
        lemma_count_passed_push(moved, spec_upper_pipe(next_pair, PIPE_HEIGHT as int));
        lemma_count_passed_push(
            moved.push(spec_upper_pipe(next_pair, PIPE_HEIGHT as int)),
            spec_lower_pipe(next_pair),
        );
    }
    vstd::arithmetic::div_mod::lemma_div_is_ordered(
        count_passed(pipes) as int,
        count_passed(after) as int,
        2,
    );
}

} // verus!
