use flappy::fixed::FP_ONE;
use flappy::structs::{PipeSpawnTimer, Score, PIPE_GAP, PIPE_HEIGHT, PIPE_SPAWN_X};
use flappy::systems::{check_pipe_update_score, shift_pipes, spawn_pair, spawn_pipe_on_timer};

#[test]
fn spawned_pair_keeps_gap_for_any_height() {
    // lower.y - (upper.y + height) == gap, independent of the sprite height.
    for height in [0i64, FP_ONE, PIPE_HEIGHT, 1_234_567] {
        let (upper, lower) = spawn_pair(3, height);
        assert_eq!(lower.y - (upper.y + height), PIPE_GAP);
        assert_eq!(upper.x, PIPE_SPAWN_X);
        assert_eq!(lower.x, PIPE_SPAWN_X);
        assert_eq!(upper.pair, 3);
        assert_eq!(lower.pair, 3);
        assert!(!upper.flipped);
        assert!(lower.flipped);
        assert!(upper.collider && lower.collider);
    }
}

#[test]
fn spawned_gap_is_centered() {
    // The gap runs from y_center - gap/2 to y_center + gap/2 for
    // y_center = 30, gap = 140.
    let (upper, lower) = spawn_pair(0, PIPE_HEIGHT);
    assert_eq!(upper.y + PIPE_HEIGHT, 30 * FP_ONE - 70 * FP_ONE);
    assert_eq!(lower.y, 30 * FP_ONE + 70 * FP_ONE);
}

#[test]
fn timer_fires_exactly_at_accumulated_period() {
    // Period 1.0 s, ticks of 0.1 s: no fire through nine ticks, fire on
    // the tenth with a zero remainder, and no second fire on the eleventh.
    let mut timer = PipeSpawnTimer::new(FP_ONE);
    let dt = FP_ONE / 10;
    let mut fires = 0u32;
    for _ in 0..9 {
        if timer.tick(dt) {
            fires += 1;
        }
    }
    assert_eq!(fires, 0);
    assert!(timer.tick(dt));
    assert_eq!(timer.elapsed, 0);
    assert!(!timer.tick(dt));
}

#[test]
fn timer_carries_remainder_over() {
    let mut timer = PipeSpawnTimer::new(FP_ONE);
    assert!(!timer.tick(300_000));
    assert!(!timer.tick(300_000));
    assert!(!timer.tick(300_000));
    assert!(timer.tick(300_000));
    assert_eq!(timer.elapsed, 200_000);
}

#[test]
fn spawner_appends_one_pair_per_firing() {
    let mut pipes = Vec::new();
    let mut timer = PipeSpawnTimer::new(FP_ONE);
    let mut next_pair = 0u32;
    spawn_pipe_on_timer(&mut pipes, &mut timer, &mut next_pair, 400_000);
    assert_eq!(pipes.len(), 0);
    assert_eq!(next_pair, 0);
    spawn_pipe_on_timer(&mut pipes, &mut timer, &mut next_pair, 600_000);
    assert_eq!(pipes.len(), 2);
    assert_eq!(next_pair, 1);
    let expected = spawn_pair(0, PIPE_HEIGHT);
    assert_eq!(pipes[0], expected.0);
    assert_eq!(pipes[1], expected.1);
}

#[test]
fn scroller_moves_pipes_left_to_zero() {
    // An obstacle at x = 155 scrolled at speed 100 by 31 ticks of 0.05 s
    // (1.55 s) sits exactly at x = 0.
    let (upper, lower) = spawn_pair(0, PIPE_HEIGHT);
    assert_eq!(upper.x, 155 * FP_ONE);
    let mut pipes = vec![upper, lower];
    for _ in 0..31 {
        shift_pipes(&mut pipes, 50_000);
    }
    assert_eq!(pipes[0].x, 0);
    assert_eq!(pipes[1].x, 0);
    // Vertical placement and identity are untouched by scrolling.
    assert_eq!(pipes[0].y, upper.y);
    assert_eq!(pipes[1].y, lower.y);
}

#[test]
fn scorer_counts_pair_once_fully_past() {
    let (upper, lower) = spawn_pair(0, PIPE_HEIGHT);
    let mut pipes = vec![upper, lower];
    for _ in 0..31 {
        shift_pipes(&mut pipes, 50_000);
    }
    let mut score = Score(0);
    // At x = 0 the right edge (x + half width) is still ahead of the
    // player: not passed yet.
    check_pipe_update_score(&pipes, &mut score);
    assert_eq!(score.0, 0);
    // Six more ticks move the pieces to x = -30; the right edge at -4 is
    // now strictly left of the player: the pair counts.
    for _ in 0..6 {
        shift_pipes(&mut pipes, 50_000);
    }
    assert!(pipes[0].x + pipes[0].half_width < 0);
    check_pipe_update_score(&pipes, &mut score);
    assert_eq!(score.0, 1);
}

#[test]
fn scorer_is_idempotent_without_movement() {
    let (upper, lower) = spawn_pair(0, PIPE_HEIGHT);
    let mut pipes = vec![upper, lower];
    for _ in 0..40 {
        shift_pipes(&mut pipes, 50_000);
    }
    let mut first = Score(7);
    check_pipe_update_score(&pipes, &mut first);
    let mut second = first;
    check_pipe_update_score(&pipes, &mut second);
    assert_eq!(first, second);
}

#[test]
fn scorer_halves_odd_piece_counts() {
    // A single passed piece (half a pair) does not score.
    let (upper, _) = spawn_pair(0, PIPE_HEIGHT);
    let mut lone = upper;
    lone.x = -27 * FP_ONE;
    let pipes = vec![lone];
    let mut score = Score(5);
    check_pipe_update_score(&pipes, &mut score);
    assert_eq!(score.0, 0);
}

#[test]
fn scorer_with_no_pipes_is_zero() {
    let pipes = Vec::new();
    let mut score = Score(3);
    check_pipe_update_score(&pipes, &mut score);
    assert_eq!(score.0, 0);
}
