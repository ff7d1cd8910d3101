use casse_brique::ball::Ball;
use casse_brique::brick::{resolve_brick_collisions, Brick};
use casse_brique::config::{
    BALL_RADIUS, BRICK_HEIGHT, BRICK_SPACING_X, BRICK_SPACING_Y, BRICK_WIDTH, PLACEMENT_LIMIT,
};

fn shot(x: i64, y: i64, speed_x: i64, speed_y: i64) -> Ball {
    Ball { x, y, speed_x, speed_y }
}

fn row(corners: &[(i64, i64)]) -> Vec<Brick> {
    let mut bricks = Vec::new();
    for &(x, y) in corners {
        bricks.push(Brick::new(x, y));
    }
    bricks
}

#[test]
fn brick_constants_have_their_values() {
    assert_eq!(BRICK_WIDTH, 50);
    assert_eq!(BRICK_HEIGHT, 20);
    assert_eq!(BRICK_SPACING_X, 5);
    assert_eq!(BRICK_SPACING_Y, 5);
}

#[test]
fn new_brick_has_the_standard_size() {
    assert_eq!(Brick::new(100, 100), Brick { x: 100, y: 100, width: 50, height: 20 });
    assert_eq!(Brick::new(-7, 0), Brick { x: -7, y: 0, width: 50, height: 20 });
}

#[test]
fn ball_inside_a_brick_touches_it() {
    let brick = Brick::new(100, 100);
    assert!(brick.check_collision(&shot(125, 110, 5, 5)));
    assert!(brick.check_collision(&shot(100, 110, 5, 0)));
}

#[test]
fn ball_touches_a_brick_edge_to_edge() {
    let brick = Brick::new(100, 100);
    // left, right, top, bottom: the square around the ball just reaches the brick
    assert!(brick.check_collision(&shot(90, 110, 5, 5)));
    assert!(brick.check_collision(&shot(160, 110, 5, 5)));
    assert!(brick.check_collision(&shot(125, 90, 5, 5)));
    assert!(brick.check_collision(&shot(125, 130, 5, 5)));
}

#[test]
fn ball_one_pixel_off_a_brick_does_not_touch_it() {
    let brick = Brick::new(100, 100);
    assert!(!brick.check_collision(&shot(89, 110, 5, 5)));
    assert!(!brick.check_collision(&shot(161, 110, 5, 5)));
    assert!(!brick.check_collision(&shot(125, 89, 5, 5)));
    assert!(!brick.check_collision(&shot(125, 131, 5, 5)));
}

#[test]
fn ball_touches_by_its_square_not_by_its_circle() {
    // Diagonally off the corner: the circle is clear of the brick, the
    // square around it is not.
    let brick = Brick::new(100, 100);
    assert!(brick.check_collision(&shot(90, 90, 5, 5)));
    assert!(brick.check_collision(&shot(160, 130, -5, -5)));
    assert!(!brick.check_collision(&shot(89, 90, 5, 5)));
}

#[test]
fn touch_does_not_depend_on_velocity() {
    let brick = Brick::new(100, 100);
    for speed_x in [-5, 0, 5] {
        for speed_y in [-5, 0, 5] {
            assert!(brick.check_collision(&shot(95, 95, speed_x, speed_y)));
            assert!(!brick.check_collision(&shot(80, 95, speed_x, speed_y)));
        }
    }
}

#[test]
fn ball_entering_from_the_left_is_turned_back_and_set_outside() {
    let brick = Brick { x: 100, y: 100, width: 50, height: 20 };
    let mut ball = shot(100, 110, 5, 0);
    assert!(brick.check_collision(&ball));
    brick.handle_collision(&mut ball);
    assert_eq!(ball.speed_x, -5);
    assert_eq!(ball.x, 100 - BALL_RADIUS);
    assert_eq!(ball, shot(90, 110, -5, 0));
}

#[test]
fn ball_entering_from_the_right_is_turned_back_and_set_outside() {
    let brick = Brick::new(100, 100);
    let mut ball = shot(155, 110, -5, 0);
    brick.handle_collision(&mut ball);
    assert_eq!(ball, shot(160, 110, 5, 0));
}

#[test]
fn ball_entering_from_above_is_turned_back_and_set_outside() {
    let brick = Brick::new(100, 100);
    let mut ball = shot(125, 95, 0, 5);
    brick.handle_collision(&mut ball);
    assert_eq!(ball, shot(125, 90, 0, -5));
}

#[test]
fn ball_entering_from_below_is_turned_back_and_set_outside() {
    let brick = Brick::new(100, 100);
    let mut ball = shot(125, 125, 0, -5);
    brick.handle_collision(&mut ball);
    assert_eq!(ball, shot(125, 130, 0, 5));
}

#[test]
fn ball_entering_over_a_corner_is_turned_on_both_axes() {
    let brick = Brick::new(100, 100);
    let mut top_left = shot(95, 95, 5, 5);
    brick.handle_collision(&mut top_left);
    assert_eq!(top_left, shot(90, 90, -5, -5));
    let mut bottom_right = shot(155, 125, -5, -5);
    brick.handle_collision(&mut bottom_right);
    assert_eq!(bottom_right, shot(160, 130, 5, 5));
}

#[test]
fn ball_centre_on_an_edge_line_counts_as_outside() {
    let brick = Brick::new(100, 100);
    let mut on_top = shot(125, 100, 5, 5);
    brick.handle_collision(&mut on_top);
    assert_eq!(on_top, shot(125, 90, 5, -5));
    let mut on_bottom = shot(125, 120, 5, -5);
    brick.handle_collision(&mut on_bottom);
    assert_eq!(on_bottom, shot(125, 130, 5, 5));
    let mut on_right = shot(150, 110, -5, 0);
    brick.handle_collision(&mut on_right);
    assert_eq!(on_right, shot(160, 110, 5, 0));
}

#[test]
fn ball_with_its_centre_inside_a_brick_passes_through() {
    let brick = Brick::new(100, 100);
    let mut ball = shot(125, 110, 5, 5);
    assert!(brick.check_collision(&ball));
    brick.handle_collision(&mut ball);
    assert_eq!(ball, shot(125, 110, 5, 5));
}

#[test]
fn ball_leaving_a_brick_is_turned_back_too() {
    // Left of the brick and flying away from it, yet one frame ahead its
    // right side is still past the brick's left edge.
    let brick = Brick::new(100, 100);
    let mut ball = shot(98, 110, -5, 0);
    brick.handle_collision(&mut ball);
    assert_eq!(ball, shot(90, 110, 5, 0));
}

#[test]
fn ball_far_from_a_brick_is_left_alone() {
    let brick = Brick::new(100, 100);
    let mut ball = shot(50, 110, 5, 0);
    brick.handle_collision(&mut ball);
    assert_eq!(ball, shot(50, 110, 5, 0));
}

#[test]
fn top_edge_wins_over_bottom_edge_and_left_over_right() {
    // A brick without extent: both edges of each axis coincide.
    let dot = Brick { x: 100, y: 100, width: 0, height: 0 };
    let mut ball = shot(100, 100, 5, 5);
    dot.handle_collision(&mut ball);
    assert_eq!(ball, shot(90, 90, -5, -5));
}

#[test]
fn one_touch_removes_the_brick_and_counts_one_hit() {
    let mut bricks = vec![Brick { x: 100, y: 100, width: 50, height: 20 }];
    let mut ball = shot(100, 110, 5, 0);
    let hits = resolve_brick_collisions(&mut bricks, &mut ball);
    assert_eq!(hits, 1);
    assert!(bricks.is_empty());
    assert_eq!(ball, shot(90, 110, -5, 0));
}

#[test]
fn one_touch_among_many_removes_only_that_brick() {
    let mut bricks = row(&[(300, 100), (100, 100), (300, 200), (500, 400)]);
    let mut ball = shot(100, 110, 5, 0);
    let hits = resolve_brick_collisions(&mut bricks, &mut ball);
    assert_eq!(hits, 1);
    assert_eq!(bricks, row(&[(300, 100), (300, 200), (500, 400)]));
    assert_eq!(ball, shot(90, 110, -5, 0));
}

#[test]
fn untouched_bricks_stay_in_order() {
    let before = row(&[(0, 0), (55, 0), (110, 0), (0, 25)]);
    let mut bricks = before.clone();
    let mut ball = shot(400, 300, 5, 5);
    let hits = resolve_brick_collisions(&mut bricks, &mut ball);
    assert_eq!(hits, 0);
    assert_eq!(bricks, before);
    assert_eq!(ball, shot(400, 300, 5, 5));
}

#[test]
fn empty_row_is_swept_without_effect() {
    let mut bricks: Vec<Brick> = Vec::new();
    let mut ball = shot(400, 300, 5, 5);
    assert_eq!(resolve_brick_collisions(&mut bricks, &mut ball), 0);
    assert!(bricks.is_empty());
    assert_eq!(ball, shot(400, 300, 5, 5));
}

#[test]
fn two_neighbours_touched_at_once_are_both_removed() {
    // The ball rises into the gap between two bricks. The first turns it
    // around on both axes and sets it below its right corner; there it still
    // touches the second, which lets it pass but is removed all the same.
    let mut bricks = row(&[(100, 100), (155, 100), (210, 100)]);
    let mut ball = shot(152, 125, 5, -5);
    let hits = resolve_brick_collisions(&mut bricks, &mut ball);
    assert_eq!(hits, 2);
    assert_eq!(bricks, row(&[(210, 100)]));
    assert_eq!(ball, shot(160, 130, -5, 5));
}

#[test]
fn later_brick_meets_the_ball_as_the_earlier_one_left_it() {
    // Both bricks turn the ball on the x axis, so the second undoes the
    // first: the order of the row decides where the ball ends.
    let a = Brick::new(100, 100);
    let b = Brick::new(40, 100);
    let mut forwards = vec![a, b];
    let mut ball = shot(95, 110, 5, 0);
    assert_eq!(resolve_brick_collisions(&mut forwards, &mut ball), 2);
    assert!(forwards.is_empty());
    assert_eq!(ball, shot(100, 110, 5, 0));

    let mut backwards = vec![b, a];
    let mut ball = shot(95, 110, 5, 0);
    assert_eq!(resolve_brick_collisions(&mut backwards, &mut ball), 2);
    assert!(backwards.is_empty());
    assert_eq!(ball, shot(90, 110, 5, 0));
}

#[test]
fn deflected_ball_may_reach_a_brick_it_did_not_touch_before() {
    let first = Brick::new(100, 100);
    let behind = Brick { x: 60, y: 100, width: 25, height: 20 };
    let ball = shot(100, 110, 5, 0);
    assert!(first.check_collision(&ball));
    assert!(!behind.check_collision(&ball));

    let mut bricks = vec![first, behind];
    let mut swept = ball;
    assert_eq!(resolve_brick_collisions(&mut bricks, &mut swept), 2);
    assert!(bricks.is_empty());
    assert_eq!(swept, shot(95, 110, 5, 0));

    // The other way round the brick behind has had its turn before the ball
    // is deflected, and stays.
    let mut bricks = vec![behind, first];
    let mut swept = ball;
    assert_eq!(resolve_brick_collisions(&mut bricks, &mut swept), 1);
    assert_eq!(bricks, vec![behind]);
    assert_eq!(swept, shot(90, 110, -5, 0));
}

#[test]
fn bricks_keep_the_speed_of_the_ball() {
    let bricks = row(&[(100, 100), (155, 100), (100, 125), (155, 125)]);
    for x in 80..=220 {
        for y in 80..=160 {
            for (speed_x, speed_y) in [(5, 5), (5, -5), (-5, 5), (-5, -5), (3, -7)] {
                let mut left = bricks.clone();
                let mut ball = shot(x, y, speed_x, speed_y);
                let hits = resolve_brick_collisions(&mut left, &mut ball);
                assert_eq!(ball.speed_x.abs(), speed_x.abs());
                assert_eq!(ball.speed_y.abs(), speed_y.abs());
                assert_eq!(left.len() + hits, 4);
                assert!(left.iter().all(|brick| bricks.contains(brick)));
                assert!(ball.is_wf());
            }
        }
    }
}

#[test]
fn brick_validity_follows_the_placement_limit() {
    assert!(Brick::new(PLACEMENT_LIMIT, -PLACEMENT_LIMIT).is_wf());
    assert!(Brick { x: 0, y: 0, width: 0, height: PLACEMENT_LIMIT }.is_wf());
    assert!(!Brick::new(PLACEMENT_LIMIT + 1, 0).is_wf());
    assert!(!Brick::new(0, -PLACEMENT_LIMIT - 1).is_wf());
    assert!(!Brick { x: 0, y: 0, width: -1, height: 20 }.is_wf());
    assert!(!Brick { x: 0, y: 0, width: 50, height: PLACEMENT_LIMIT + 1 }.is_wf());
}
