use breakout::{check_brick_collision, BrickCollision};

#[test]
fn ball_above_brick_hits_top() {
    assert_eq!(check_brick_collision(75, 95, 0), BrickCollision::Top);
}

#[test]
fn ball_below_brick_hits_bottom() {
    assert_eq!(check_brick_collision(75, 135, 0), BrickCollision::Bottom);
}

#[test]
fn ball_left_of_brick_hits_left() {
    assert_eq!(check_brick_collision(45, 115, 0), BrickCollision::Left);
}

#[test]
fn ball_right_of_brick_hits_right() {
    assert_eq!(check_brick_collision(105, 115, 0), BrickCollision::Right);
}

#[test]
fn distant_ball_hits_nothing() {
    assert_eq!(check_brick_collision(75, 200, 0), BrickCollision::No);
    assert_eq!(check_brick_collision(0, 0, 83), BrickCollision::No);
    assert_eq!(check_brick_collision(u32::MAX, u32::MAX, 83), BrickCollision::No);
}

#[test]
fn ball_at_radius_distance_hits_nothing() {
    assert_eq!(check_brick_collision(75, 90, 0), BrickCollision::No);
    assert_eq!(check_brick_collision(40, 115, 0), BrickCollision::No);
}

#[test]
fn corner_uses_euclidean_distance() {
    // 7 * 7 + 7 * 7 = 98 < 100
    assert_eq!(check_brick_collision(43, 93, 0), BrickCollision::Top);
    // 8 * 8 + 7 * 7 = 113 >= 100
    assert_eq!(check_brick_collision(42, 93, 0), BrickCollision::No);
}

#[test]
fn centre_inside_brick_counts_as_top() {
    assert_eq!(check_brick_collision(75, 115, 0), BrickCollision::Top);
}

#[test]
fn brick_geometry_follows_row_and_column() {
    // index 13 is row 1, column 1: x in [100, 150], y in [130, 160]
    assert_eq!(check_brick_collision(125, 125, 13), BrickCollision::Top);
    assert_eq!(check_brick_collision(125, 165, 13), BrickCollision::Bottom);
    assert_eq!(check_brick_collision(125, 125, 0), BrickCollision::No);
}
