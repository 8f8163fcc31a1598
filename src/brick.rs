use vstd::prelude::*;

use crate::config::{
    BALL_RADIUS, BRICK_COUNT, BRICK_HEIGHT, BRICK_WIDTH, COLUMN_COUNT, MARGIN_HEIGHT,
    MARGIN_WIDTH, ROW_COUNT,
};

verus! {

/// One cell of the brick grid.
#[derive(Clone, Copy, Debug, PartialEq, Eq, Structural)]
pub enum Brick {
    Dead,
    Alive,
}

/// The side of a brick that the ball touches, if any.
#[derive(Clone, Copy, Debug, PartialEq, Eq, Structural)]
pub enum BrickCollision {
    No,
    Top,
    Right,
    Bottom,
    Left,
}

/// Left edge of the brick at `index` (row-major grid).
pub open spec fn brick_left(index: int) -> int {
    MARGIN_WIDTH + (index % (COLUMN_COUNT as int)) * BRICK_WIDTH
}

/// Top edge of the brick at `index` (row-major grid).
pub open spec fn brick_top(index: int) -> int {
    MARGIN_HEIGHT + (index / (COLUMN_COUNT as int)) * BRICK_HEIGHT
}

/// `v` clamped to `[lo, hi]`.
pub open spec fn clamp(v: int, lo: int, hi: int) -> int {
    if v < lo {
        lo
    } else if v > hi {
        hi
    } else {
        v
    }
}

pub open spec fn abs_diff(a: int, b: int) -> int {
    if a >= b {
        a - b
    } else {
        b - a
    }
}

/// Side of the brick at `index` hit by a ball centred at `(x, y)`.
///
/// The point of the brick's rectangle closest to the centre is found by
/// clamping each axis; the ball touches the brick when the squared distance to
/// that point is below the squared radius. A hit is on a vertical side when
/// the horizontal distance is the larger one, else on the top or bottom.
pub open spec fn collision_side(x: int, y: int, index: int) -> BrickCollision {
    let test_x = clamp(x, brick_left(index), brick_left(index) + BRICK_WIDTH);
    let test_y = clamp(y, brick_top(index), brick_top(index) + BRICK_HEIGHT);
    let dist_x = abs_diff(x, test_x);
    let dist_y = abs_diff(y, test_y);
    if dist_x * dist_x + dist_y * dist_y >= BALL_RADIUS * BALL_RADIUS {
        BrickCollision::No
    } else if dist_x > dist_y {
        if x > test_x {
            BrickCollision::Right
        } else {
            BrickCollision::Left
        }
    } else if y > test_y {
        BrickCollision::Bottom
    } else {
        BrickCollision::Top
    }
}

/// Every brick lies inside the grid's bounding rectangle.
pub proof fn lemma_brick_within_grid(index: int)
    requires
        0 <= index < BRICK_COUNT,
    ensures
        MARGIN_WIDTH <= brick_left(index),
        brick_left(index) + BRICK_WIDTH <= MARGIN_WIDTH + COLUMN_COUNT * BRICK_WIDTH,
        MARGIN_HEIGHT <= brick_top(index),
        brick_top(index) + BRICK_HEIGHT <= MARGIN_HEIGHT + ROW_COUNT * BRICK_HEIGHT,
{
    assert(0 <= index % 12 < 12);
    assert(0 <= index / 12 < 7);
}

/// A ball can only touch a brick when its centre is close to the grid.
pub proof fn lemma_collision_near_grid(x: int, y: int, index: int)
    requires
        0 <= index < BRICK_COUNT,
        collision_side(x, y, index) != BrickCollision::No,
    ensures
        MARGIN_WIDTH - BALL_RADIUS < x < MARGIN_WIDTH + COLUMN_COUNT * BRICK_WIDTH + BALL_RADIUS,
        MARGIN_HEIGHT - BALL_RADIUS < y < MARGIN_HEIGHT + ROW_COUNT * BRICK_HEIGHT + BALL_RADIUS,
{
    lemma_brick_within_grid(index);
    let test_x = clamp(x, brick_left(index), brick_left(index) + BRICK_WIDTH);
    let test_y = clamp(y, brick_top(index), brick_top(index) + BRICK_HEIGHT);
    let dist_x = abs_diff(x, test_x);
    let dist_y = abs_diff(y, test_y);
    assert(dist_x < 10 && dist_y < 10) by (nonlinear_arith)
        requires
            dist_x * dist_x + dist_y * dist_y < 100,
            dist_x >= 0,
            dist_y >= 0,
    ;
}

/// Which side of the brick at `index` a ball centred at `(ball_x, ball_y)`
/// touches, or `No` when it touches none.
pub fn check_brick_collision(ball_x: u32, ball_y: u32, index: u32) -> (r: BrickCollision)
    requires
        index < BRICK_COUNT,
    ensures
        r == collision_side(ball_x as int, ball_y as int, index as int),
{
    assert(index % COLUMN_COUNT < 12 && index / COLUMN_COUNT < 7);
    let brick_x = MARGIN_WIDTH + (index % COLUMN_COUNT) * BRICK_WIDTH;
    let brick_y = MARGIN_HEIGHT + (index / COLUMN_COUNT) * BRICK_HEIGHT;
    let test_x = if ball_x < brick_x {
        brick_x
    } else if ball_x > brick_x + BRICK_WIDTH {
        brick_x + BRICK_WIDTH
    } else {
        ball_x
    };
    let test_y = if ball_y < brick_y {
        brick_y
    } else if ball_y > brick_y + BRICK_HEIGHT {
        brick_y + BRICK_HEIGHT
    } else {
        ball_y
    };
    let dist_x = if ball_x >= test_x { ball_x - test_x } else { test_x - ball_x };
    let dist_y = if ball_y >= test_y { ball_y - test_y } else { test_y - ball_y };
    // Either distance reaching the radius already rules out a hit; below
    // that, the squares are small.
    if dist_x >= BALL_RADIUS || dist_y >= BALL_RADIUS {
        assert(dist_x * dist_x + dist_y * dist_y >= 100) by (nonlinear_arith)
            requires
                dist_x >= 10 || dist_y >= 10,
        ;
        return BrickCollision::No;
    }
    assert(dist_x * dist_x <= 81 && dist_y * dist_y <= 81) by (nonlinear_arith)
        requires
            dist_x < 10,
            dist_y < 10,
    ;
    if dist_x * dist_x + dist_y * dist_y >= BALL_RADIUS * BALL_RADIUS {
        BrickCollision::No
    } else if dist_x > dist_y {
        if ball_x > test_x {
            BrickCollision::Right
        } else {
            BrickCollision::Left
        }
    } else if ball_y > test_y {
        BrickCollision::Bottom
    } else {
        BrickCollision::Top
    }
}

} // verus!
