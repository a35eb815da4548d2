use flappy::structs::{Aabb, Collision, spawn_player};
use flappy::systems::{check_for_collisions, collide, spawn_pair, CollisionReport};
use flappy::structs::PIPE_HEIGHT;

fn boxed(x: i64, y: i64, half_width: i64, half_height: i64) -> Aabb {
    Aabb { x, y, half_width, half_height }
}

#[test]
fn separated_boxes_do_not_overlap() {
    // Centers 10 apart, half-widths 3 and 3: a gap of 4 remains.
    let r = collide(&boxed(0, 0, 3, 3), &boxed(10, 0, 3, 3));
    assert_eq!(r, None);
}

#[test]
fn close_boxes_overlap() {
    // Centers 5 apart, half-widths 3 and 3: they interpenetrate by 1.
    let r = collide(&boxed(0, 0, 3, 3), &boxed(5, 0, 3, 3));
    assert!(r.is_some());
}

#[test]
fn touching_boxes_do_not_overlap() {
    // Half-widths summing exactly to the center distance: strict
    // inequality, defined as non-overlapping.
    let r = collide(&boxed(0, 0, 3, 3), &boxed(6, 0, 3, 3));
    assert_eq!(r, None);
    // Same boundary on the vertical axis.
    let r = collide(&boxed(0, 0, 3, 3), &boxed(0, 6, 3, 3));
    assert_eq!(r, None);
}

#[test]
fn overlap_reports_side_of_least_penetration() {
    let still = boxed(0, 0, 3, 3);
    assert_eq!(collide(&boxed(-4, 0, 3, 3), &still), Some(Collision::Left));
    assert_eq!(collide(&boxed(4, 0, 3, 3), &still), Some(Collision::Right));
    assert_eq!(collide(&boxed(0, 4, 3, 3), &still), Some(Collision::Top));
    assert_eq!(collide(&boxed(0, -4, 3, 3), &still), Some(Collision::Bottom));
    assert_eq!(collide(&boxed(0, 0, 3, 3), &still), Some(Collision::Inside));
}

#[test]
fn missing_player_skips_the_check() {
    let (upper, lower) = spawn_pair(0, PIPE_HEIGHT);
    let pipes = vec![upper, lower];
    let r = check_for_collisions(&None, &pipes);
    assert_eq!(r, CollisionReport::MissingPlayer);
}

#[test]
fn player_clear_of_all_pipes() {
    let bird = spawn_player();
    let (upper, lower) = spawn_pair(0, PIPE_HEIGHT);
    // Freshly spawned pipes sit at x = 155, far right of the player.
    let pipes = vec![upper, lower];
    let r = check_for_collisions(&Some(bird), &pipes);
    assert_eq!(r, CollisionReport::NoCollision);
}

#[test]
fn player_hitting_a_pipe_is_reported() {
    let bird = spawn_player();
    let (upper, mut lower) = spawn_pair(0, PIPE_HEIGHT);
    // Drag the lower piece onto the player.
    lower.x = 0;
    lower.y = 0;
    let pipes = vec![upper, lower];
    let r = check_for_collisions(&Some(bird), &pipes);
    assert!(matches!(r, CollisionReport::Hit(_)));
}

#[test]
fn non_collider_pieces_are_ignored() {
    let bird = spawn_player();
    let (_, mut lower) = spawn_pair(0, PIPE_HEIGHT);
    lower.x = 0;
    lower.y = 0;
    lower.collider = false;
    let pipes = vec![lower];
    let r = check_for_collisions(&Some(bird), &pipes);
    assert_eq!(r, CollisionReport::NoCollision);
}
