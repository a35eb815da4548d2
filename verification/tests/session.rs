use flappy::assetmgmt::{
    check_assets_ready, group_load_state, setup_assets, AssetLoading, LoadState,
};
use flappy::fixed::FP_ONE;
use flappy::game::{tick, Game, TickInput};
use flappy::structs::{GameOverEvent, GameState, Score};

fn idle(dt: i64) -> TickInput {
    TickInput { dt, jump_pressed: false, new_game: false }
}

fn all_loaded(game: &mut Game) {
    let n = game.loading.0.len();
    game.loading.0.clear();
    for _ in 0..n {
        game.loading.0.push(LoadState::Loaded);
    }
}

#[test]
fn setup_assets_tracks_four_pending_assets() {
    let (named, group) = setup_assets();
    assert_eq!(named.base, LoadState::Pending);
    assert_eq!(named.background, LoadState::Pending);
    assert_eq!(named.pipe, LoadState::Pending);
    assert_eq!(named.pc, LoadState::Pending);
    assert_eq!(group.0.len(), 4);
    assert!(group.0.iter().all(|s| *s == LoadState::Pending));
}

#[test]
fn group_state_pending_until_all_loaded() {
    let statuses = vec![LoadState::Loaded, LoadState::Pending, LoadState::Loaded];
    assert_eq!(group_load_state(&statuses), LoadState::Pending);
    let statuses = vec![LoadState::Loaded, LoadState::Loaded];
    assert_eq!(group_load_state(&statuses), LoadState::Loaded);
}

#[test]
fn group_state_failed_dominates() {
    let statuses = vec![LoadState::Loaded, LoadState::Failed, LoadState::Pending];
    assert_eq!(group_load_state(&statuses), LoadState::Failed);
    assert_eq!(
        check_assets_ready(&AssetLoading(statuses)),
        Some(GameState::LoadFailed)
    );
}

#[test]
fn session_waits_for_assets_then_plays() {
    let mut game = Game::new();
    assert_eq!(game.state, GameState::Loading);
    // Nothing loaded yet: the session stays put.
    let ev = tick(&mut game, idle(16_667));
    assert_eq!(ev, None);
    assert_eq!(game.state, GameState::Loading);
    assert!(game.bird.is_none());
    // All assets loaded: gameplay starts with a fresh player and score.
    all_loaded(&mut game);
    let ev = tick(&mut game, idle(16_667));
    assert_eq!(ev, None);
    assert_eq!(game.state, GameState::Game);
    assert!(game.bird.is_some());
    assert_eq!(game.score, Score(0));
}

#[test]
fn failed_asset_is_terminal() {
    let mut game = Game::new();
    game.loading.0[0] = LoadState::Failed;
    tick(&mut game, idle(16_667));
    assert_eq!(game.state, GameState::LoadFailed);
    // Terminal: later ticks change nothing, even with assets loaded.
    all_loaded(&mut game);
    let ev = tick(&mut game, idle(16_667));
    assert_eq!(ev, None);
    assert_eq!(game.state, GameState::LoadFailed);
}

#[test]
fn menu_starts_on_new_game_input() {
    let mut game = Game::new();
    game.state = GameState::Menu;
    tick(&mut game, idle(16_667));
    assert_eq!(game.state, GameState::Menu);
    let ev = tick(&mut game, TickInput { dt: 16_667, jump_pressed: false, new_game: true });
    assert_eq!(ev, None);
    assert_eq!(game.state, GameState::Game);
    assert!(game.bird.is_some());
    assert_eq!(game.score, Score(0));
}

#[test]
fn spawn_timer_drives_pair_creation_in_session() {
    // Period 1.0 s fed ticks of 0.1 s: the first pair appears on the
    // tenth gameplay tick, not before, and the next on the twentieth.
    let mut game = Game::new();
    all_loaded(&mut game);
    tick(&mut game, idle(100_000));
    assert_eq!(game.state, GameState::Game);
    for n in 1..=20 {
        tick(&mut game, idle(100_000));
        let expected_pairs = n / 10;
        assert_eq!(game.pipes.len(), 2 * expected_pairs);
    }
    assert_eq!(game.next_pair, 2);
}

#[test]
fn collision_ends_the_session() {
    let mut game = Game::new();
    all_loaded(&mut game);
    tick(&mut game, idle(16_667));
    assert_eq!(game.state, GameState::Game);
    // Park an obstacle on the player.
    let (upper, mut lower) = flappy::systems::spawn_pair(0, flappy::structs::PIPE_HEIGHT);
    lower.x = 0;
    lower.y = 0;
    game.pipes.push(upper);
    game.pipes.push(lower);
    let ev = tick(&mut game, idle(16_667));
    assert_eq!(ev, Some(GameOverEvent));
    assert_eq!(game.state, GameState::GameOver);
    // Terminal: the world no longer moves.
    let pipes_before = game.pipes.clone();
    let ev = tick(&mut game, idle(16_667));
    assert_eq!(ev, None);
    assert_eq!(game.state, GameState::GameOver);
    assert_eq!(game.pipes, pipes_before);
}

#[test]
fn session_score_counts_passed_pairs() {
    // Play at 60 ticks per second until the first pair has scrolled past
    // the player: spawned on tick 60 at x = 155, it moves 100/60 units a
    // tick, so its right edge (half width 26) is strictly left of 0 after
    // 109 more ticks — score 1 on tick 169 and not before. A small
    // autopilot jumps whenever the player sinks below the pipes' safe
    // corridor, keeping the session alive while the pair passes through.
    let mut game = Game::new();
    all_loaded(&mut game);
    tick(&mut game, idle(16_667));
    assert_eq!(game.state, GameState::Game);
    for n in 1..=169i64 {
        let pressed = game.bird.as_ref().is_some_and(|b| b.y < -120 * FP_ONE);
        let ev = tick(&mut game, TickInput { dt: 16_667, jump_pressed: pressed, new_game: false });
        assert_eq!(ev, None, "collision on tick {n}");
        assert_eq!(game.state, GameState::Game);
        if n < 169 {
            assert_eq!(game.score.0, 0, "pair scored too early on tick {n}");
        } else {
            assert_eq!(game.score.0, 1, "pair not scored on tick {n}");
        }
    }
}

#[test]
fn jump_impulse_applies_during_session() {
    let mut game = Game::new();
    all_loaded(&mut game);
    tick(&mut game, idle(16_667));
    let ev = tick(&mut game, TickInput { dt: 16_667, jump_pressed: true, new_game: false });
    assert_eq!(ev, None);
    let bird = game.bird.unwrap();
    // Jump set the velocity to -3.0, then gravity accrued one increment.
    assert_eq!(bird.velocity, -3 * FP_ONE + 113_668);
}
