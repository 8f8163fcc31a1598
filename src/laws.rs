use vstd::prelude::*;

use crate::brick::{brick_left, brick_top, lemma_brick_within_grid, Brick};
use crate::config::{
    BALL_RADIUS, BALL_SPEED, BRICK_HEIGHT, BRICK_WIDTH, COLUMN_COUNT, MARGIN_HEIGHT, MARGIN_WIDTH,
    PAD_WIDTH, ROW_COUNT, WIDTH,
};
use crate::universe::{
    alive_count, alive_in, bricks_after_hits, lemma_sub_step_wf, move_pad_result, run,
    sub_step, target_x, target_y, tick_result, GameStatus, UniverseView,
};

verus! {

/// The state after the paddle move commands `moves`, in order (`true` for
/// right).
pub open spec fn after_moves(v: UniverseView, moves: Seq<bool>) -> UniverseView
    decreases moves.len(),
{
    if moves.len() == 0 {
        v
    } else {
        move_pad_result(after_moves(v, moves.drop_last()), moves.last())
    }
}

/// In every well-formed state, each brick's rectangle lies inside the grid's
/// bounding rectangle.
pub proof fn lemma_bricks_inside_grid(v: UniverseView)
    requires
        v.wf(),
    ensures
        forall|i: int|
            0 <= i < v.bricks.len() ==> {
                &&& MARGIN_WIDTH <= #[trigger] brick_left(i)
                &&& brick_left(i) + BRICK_WIDTH <= MARGIN_WIDTH + COLUMN_COUNT * BRICK_WIDTH
                &&& MARGIN_HEIGHT <= brick_top(i)
                &&& brick_top(i) + BRICK_HEIGHT <= MARGIN_HEIGHT + ROW_COUNT * BRICK_HEIGHT
            },
{
    assert forall|i: int| 0 <= i < v.bricks.len() implies {
        &&& MARGIN_WIDTH <= #[trigger] brick_left(i)
        &&& brick_left(i) + BRICK_WIDTH <= MARGIN_WIDTH + COLUMN_COUNT * BRICK_WIDTH
        &&& MARGIN_HEIGHT <= brick_top(i)
        &&& brick_top(i) + BRICK_HEIGHT <= MARGIN_HEIGHT + ROW_COUNT * BRICK_HEIGHT
    } by {
        lemma_brick_within_grid(i);
    }
}

/// Whatever paddle moves are made, the paddle's left edge stays within
/// `[0, WIDTH - PAD_WIDTH]` and the state stays well formed.
pub proof fn lemma_pad_stays_in_field(v: UniverseView, moves: Seq<bool>)
    requires
        v.wf(),
    ensures
        after_moves(v, moves).wf(),
        0 <= after_moves(v, moves).pad.left <= WIDTH - PAD_WIDTH,
    decreases moves.len(),
{
    if moves.len() > 0 {
        lemma_pad_stays_in_field(v, moves.drop_last());
    }
}

proof fn lemma_hits_only_kill(bricks: Seq<Brick>, x: int, y: int, n: nat)
    requires
        n <= bricks.len(),
    ensures
        alive_in(bricks_after_hits(bricks, x, y), n) <= alive_in(bricks, n),
    decreases n,
{
    if n > 0 {
        lemma_hits_only_kill(bricks, x, y, (n - 1) as nat);
    }
}

proof fn lemma_run_only_kills(v: UniverseView, n: nat)
    ensures
        run(v, n).bricks.len() == v.bricks.len(),
        alive_count(run(v, n).bricks) <= alive_count(v.bricks),
        forall|i: int|
            0 <= i < v.bricks.len() && v.bricks[i] == Brick::Dead ==> #[trigger] run(
                v,
                n,
            ).bricks[i] == Brick::Dead,
    decreases n,
{
    if n > 0 && v.status == GameStatus::Playing {
        let w = sub_step(v);
        lemma_hits_only_kill(v.bricks, target_x(v.ball), target_y(v.ball), v.bricks.len());
        lemma_run_only_kills(w, (n - 1) as nat);
    }
}

/// A frame never brings a brick back: dead bricks stay dead, so the number
/// of alive bricks never grows from one `tick` to the next.
pub proof fn lemma_tick_never_revives(v: UniverseView)
    ensures
        alive_count(tick_result(v).bricks) <= alive_count(v.bricks),
        forall|i: int|
            0 <= i < v.bricks.len() && v.bricks[i] == Brick::Dead ==> #[trigger] tick_result(
                v,
            ).bricks[i] == Brick::Dead,
{
    lemma_run_only_kills(v, BALL_SPEED as nat);
}

/// A frame of a game that is not being played (not started, won or lost)
/// changes nothing.
pub proof fn lemma_tick_idle_unless_playing(v: UniverseView)
    requires
        v.status != GameStatus::Playing,
    ensures
        tick_result(v) == v,
{
}

proof fn lemma_run_wf(v: UniverseView, n: nat)
    requires
        v.wf(),
    ensures
        run(v, n).wf(),
    decreases n,
{
    if n > 0 && v.status == GameStatus::Playing {
        lemma_sub_step_wf(v);
        lemma_run_wf(sub_step(v), (n - 1) as nat);
    }
}

/// After any frame, a ball touching the left wall heads right and one
/// touching the right wall heads left.
pub proof fn lemma_walls_turn_ball(v: UniverseView)
    requires
        v.wf(),
    ensures
        tick_result(v).ball.x == BALL_RADIUS ==> tick_result(v).ball.direction_right,
        tick_result(v).ball.x == WIDTH - BALL_RADIUS ==> !tick_result(v).ball.direction_right,
{
    lemma_run_wf(v, BALL_SPEED as nat);
}

} // verus!
