//! The session aggregate and the per-tick state machine.
//!
//! [`Game`] holds the whole gameplay state. [`tick`] is the single
//! transition function the host's fixed-step scheduler drives: it
//! dispatches on the session state and, while playing, runs the gameplay
//! systems in a fixed order — jump impulse, gravity, scroller, spawner,
//! collision detector, scorer — ending the session on a collision.

use vstd::prelude::*;

use crate::assetmgmt::{
    check_assets_ready, setup_assets, spec_check_assets_ready, AssetLoading, LoadState,
};
use crate::structs::{
    aabb_fits, spawn_player, spec_spawn_player, spec_timer_tick, timer_fires, Bird, GameOverEvent,
    GameState, Pipe, PipeSpawnTimer, Score, GRAVITY, JUMP_AMOUNT, PIPE_HEIGHT, SPAWN_PERIOD,
};
use crate::systems::{
    apply_gravity, apply_gravity_fits, check_for_collisions, check_pipe_update_score, jump,
    score_fits, shift_pipes, shift_pipes_fits, spawn_pipe_on_timer, spec_apply_gravity,
    spec_check_for_collisions, spec_jump, spec_lower_pipe, spec_score, spec_shift_pipe,
    spec_upper_pipe, CollisionReport,
};

verus! {

/// The whole state of one game session.
pub struct Game {
    /// Which systems run this tick; see [`GameState`].
    pub state: GameState,
    /// Load statuses of the required assets, written by the host each tick
    /// while loading.
    pub loading: AssetLoading,
    /// The player entity; absent outside gameplay (and recoverable when
    /// absent during gameplay).
    pub bird: Option<Bird>,
    /// Every obstacle piece spawned so far. Pieces are kept after they
    /// pass the player: the scorer recounts them each tick.
    pub pipes: Vec<Pipe>,
    /// Pairs passed, recomputed each tick.
    pub score: Score,
    /// Repeating spawn timer.
    pub timer: PipeSpawnTimer,
    /// Downward acceleration per second.
    pub gravity: i64,
    /// Magnitude of the jump impulse.
    pub jump_amount: i64,
    /// Identifier for the next obstacle pair.
    pub next_pair: u32,
}

/// Inputs the host hands to one fixed tick: the elapsed time, whether a
/// jump was pressed this tick (an edge, not a hold), and whether a
/// new-game input arrived.
#[derive(Clone, Copy, Debug, PartialEq, Eq, Structural)]
pub struct TickInput {
    pub dt: i64,
    pub jump_pressed: bool,
    pub new_game: bool,
}

/// The player after this tick's input impulse and gravity step.
pub open spec fn spec_bird_after(
    bird: Option<Bird>,
    jump_amount: int,
    pressed: bool,
    gravity: int,
    dt: int,
) -> Option<Bird> {
    match bird {
        None => None,
        Some(b) => Some(spec_apply_gravity(spec_jump(b, jump_amount, pressed), gravity, dt)),
    }
}

/// The obstacle set after this tick: every piece scrolled left, and a
/// fresh pair appended when the spawn timer fires.
pub open spec fn spec_pipes_after(
    pipes: Seq<Pipe>,
    timer: PipeSpawnTimer,
    next_pair: u32,
    dt: int,
) -> Seq<Pipe> {
    let moved = pipes.map_values(|p: Pipe| spec_shift_pipe(p, dt));
    if timer_fires(timer, dt) {
        moved.push(spec_upper_pipe(next_pair, PIPE_HEIGHT as int)).push(spec_lower_pipe(next_pair))
    } else {
        moved
    }
}

/// Whether one gameplay tick on `g` stays within the machine integer
/// range. Only the machine's word size forces these bounds; every
/// on-screen state satisfies them with enormous headroom.
pub open spec fn game_tick_fits(g: Game, input: TickInput) -> bool {
    let pipes_after = spec_pipes_after(g.pipes@, g.timer, g.next_pair, input.dt as int);
    &&& 0 <= input.dt
    &&& 0 <= g.gravity
    &&& 0 <= g.jump_amount
    &&& g.timer.wf()
    &&& g.timer.elapsed + input.dt <= i64::MAX
    &&& g.next_pair < u32::MAX
    &&& (g.bird matches Some(b) ==> apply_gravity_fits(
        spec_jump(b, g.jump_amount as int, input.jump_pressed),
        g.gravity as int,
        input.dt as int,
    ))
    &&& shift_pipes_fits(g.pipes@, input.dt as int)
    &&& (spec_bird_after(
        g.bird,
        g.jump_amount as int,
        input.jump_pressed,
        g.gravity as int,
        input.dt as int,
    ) matches Some(b2) ==> aabb_fits(b2.spec_aabb()))
    &&& forall|i: int|
        0 <= i < pipes_after.len() ==> aabb_fits((#[trigger] pipes_after[i]).spec_aabb())
    &&& score_fits(pipes_after)
}

impl Game {
    /// A fresh session: waiting for assets, no player, no obstacles, score
    /// zero, the spawn timer at rest, and the fixed gameplay parameters.
    pub fn new() -> (g: Game)
        ensures
            g.state == GameState::Loading,
            g.loading.0@.len() == 4,
            forall|i: int|
                0 <= i < g.loading.0@.len() ==> g.loading.0@[i]
                    == LoadState::Pending,
            g.bird == None::<Bird>,
            g.pipes@.len() == 0,
            g.score.0 == 0,
            g.timer == (PipeSpawnTimer { elapsed: 0, period: SPAWN_PERIOD }),
            g.gravity == GRAVITY,
            g.jump_amount == JUMP_AMOUNT,
            g.next_pair == 0,
    {
        let (_, loading) = setup_assets();
        Game {
            state: GameState::Loading,
            loading,
            bird: None,
            pipes: Vec::new(),
            score: Score(0),
            timer: PipeSpawnTimer::new(SPAWN_PERIOD),
            gravity: GRAVITY,
            jump_amount: JUMP_AMOUNT,
            next_pair: 0,
        }
    }
}

/// One-time gameplay entry: spawns the player at the origin and resets the
/// score. Runs when the session enters the playing state.
pub fn setup(game: &mut Game)
    ensures
        *final(game) == (Game {
            bird: Some(spec_spawn_player()),
            score: Score(0),
            ..*old(game)
        }),
{
    game.bird = Some(spawn_player());
    game.score = Score(0);
}

/// One invocation of the fixed-step update: the session's transition
/// function.
///
/// - `Loading`: polls the load gate. All assets loaded starts gameplay
///   (spawning the player and zeroing the score); a failed asset moves to
///   the terminal `LoadFailed` state; otherwise nothing changes.
/// - `Menu`: a new-game input starts gameplay the same way.
/// - `Game`: runs, in order, the jump impulse, the gravity integrator, the
///   scroller, the obstacle spawner, the collision detector and the
///   scorer. A collision moves to the terminal `GameOver` state and the
///   event is returned.
/// - `GameOver`, `LoadFailed`: terminal; nothing changes.
pub fn tick(game: &mut Game, input: TickInput) -> (ev: Option<GameOverEvent>)
    requires
        old(game).state == GameState::Game ==> game_tick_fits(*old(game), input),
    ensures
        old(game).state == GameState::Loading ==> ev == None::<GameOverEvent> && (match
            spec_check_assets_ready(old(game).loading.0@) {
            Some(GameState::LoadFailed) => *final(game) == (Game {
                state: GameState::LoadFailed,
                ..*old(game)
            }),
            Some(_) => *final(game) == (Game {
                state: GameState::Game,
                bird: Some(spec_spawn_player()),
                score: Score(0),
                ..*old(game)
            }),
            None => *final(game) == *old(game),
        }),
        old(game).state == GameState::Menu ==> ev == None::<GameOverEvent> && if input.new_game {
            *final(game) == (Game {
                state: GameState::Game,
                bird: Some(spec_spawn_player()),
                score: Score(0),
                ..*old(game)
            })
        } else {
            *final(game) == *old(game)
        },
        old(game).state == GameState::Game ==> {
            let bird_after = spec_bird_after(
                old(game).bird,
                old(game).jump_amount as int,
                input.jump_pressed,
                old(game).gravity as int,
                input.dt as int,
            );
            let pipes_after = spec_pipes_after(
                old(game).pipes@,
                old(game).timer,
                old(game).next_pair,
                input.dt as int,
            );
            let report = spec_check_for_collisions(bird_after, pipes_after);
            &&& final(game).bird == bird_after
            &&& final(game).pipes@ == pipes_after
            &&& final(game).timer == spec_timer_tick(old(game).timer, input.dt as int)
            &&& final(game).next_pair as int == if timer_fires(old(game).timer, input.dt as int) {
                old(game).next_pair + 1
            } else {
                old(game).next_pair as int
            }
            &&& final(game).score.0 == spec_score(pipes_after)
            &&& final(game).state == if report matches CollisionReport::Hit(_) {
                GameState::GameOver
            } else {
                GameState::Game
            }
            &&& ev == if report matches CollisionReport::Hit(_) {
                Some(GameOverEvent)
            } else {
                None::<GameOverEvent>
            }
            &&& final(game).timer.wf()
            &&& final(game).gravity == old(game).gravity
            &&& final(game).jump_amount == old(game).jump_amount
            &&& final(game).loading.0@ == old(game).loading.0@
        },
        old(game).state == GameState::GameOver || old(game).state == GameState::LoadFailed ==> (
        *final(game) == *old(game) && ev == None::<GameOverEvent>),
{
    match game.state {
        GameState::Loading => {
            let next = check_assets_ready(&game.loading);
            match next {
                Some(GameState::LoadFailed) => {
                    game.state = GameState::LoadFailed;
                },
                Some(_) => {
                    game.state = GameState::Game;
                    setup(game);
                },
                None => {},
            }
            None
        },
        GameState::Menu => {
            if input.new_game {
                game.state = GameState::Game;
                setup(game);
            }
            None
        },
        GameState::Game => {
            let dt = input.dt;
            if let Some(b) = &mut game.bird {
                jump(b, game.jump_amount, input.jump_pressed);
                apply_gravity(b, game.gravity, dt);
            }
            shift_pipes(&mut game.pipes, dt);
            proof {
                assert(game.pipes@ =~= old(game).pipes@.map_values(
                    |p: Pipe| spec_shift_pipe(p, dt as int),
                ));
            }
            spawn_pipe_on_timer(&mut game.pipes, &mut game.timer, &mut game.next_pair, dt);
            assert(game.pipes@ =~= spec_pipes_after(
                old(game).pipes@,
                old(game).timer,
                old(game).next_pair,
                dt as int,
            ));
            let report = check_for_collisions(&game.bird, &game.pipes);
            let hit = match report {
                CollisionReport::Hit(_) => true,
                _ => false,
            };
            if hit {
                game.state = GameState::GameOver;
            }
            check_pipe_update_score(&game.pipes, &mut game.score);
            if hit {
                Some(GameOverEvent)
            } else {
                None
            }
        },
        GameState::GameOver => None,
        GameState::LoadFailed => None,
    }
}

} // verus!
