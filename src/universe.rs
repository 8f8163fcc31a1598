use vstd::prelude::*;

use crate::ball::Ball;
use crate::brick::{
    check_brick_collision, collision_side, lemma_collision_near_grid, Brick, BrickCollision,
};
use crate::config::{
    BALL_RADIUS, BALL_SPEED, BRICK_COUNT, BRICK_HEIGHT, BRICK_WIDTH, COLUMN_COUNT, HEIGHT,
    MARGIN_HEIGHT, MARGIN_WIDTH, PAD_HEIGHT, PAD_WIDTH, ROW_COUNT, WIDTH,
};
use crate::paddle::{moved_left_edge, Pad};

verus! {

/// Where the game stands. `Won` and `Lost` are final.
#[derive(Clone, Copy, Debug, PartialEq, Eq, Structural)]
pub enum GameStatus {
    Start,
    Playing,
    Lost,
    Won,
}

/// The whole game: brick grid, paddle, ball and status.
pub struct Universe {
    bricks: Vec<Brick>,
    pad: Pad,
    ball: Ball,
    status: GameStatus,
}

/// The mathematical value of a `Universe`.
pub struct UniverseView {
    pub bricks: Seq<Brick>,
    pub pad: Pad,
    pub ball: Ball,
    pub status: GameStatus,
}

impl View for Universe {
    type V = UniverseView;

    closed spec fn view(&self) -> UniverseView {
        UniverseView { bricks: self.bricks@, pad: self.pad, ball: self.ball, status: self.status }
    }
}

/// Number of alive bricks among the first `n` of `bricks`.
pub open spec fn alive_in(bricks: Seq<Brick>, n: nat) -> nat
    decreases n,
{
    if n == 0 {
        0
    } else {
        alive_in(bricks, (n - 1) as nat) + if bricks[n - 1] == Brick::Alive {
            1nat
        } else {
            0nat
        }
    }
}

/// Number of alive bricks in the grid.
pub open spec fn alive_count(bricks: Seq<Brick>) -> nat {
    alive_in(bricks, bricks.len())
}

/// The brick at `i` is alive and touched by a ball centred at `(x, y)`.
pub open spec fn is_hit(bricks: Seq<Brick>, x: int, y: int, i: int) -> bool {
    bricks[i] == Brick::Alive && collision_side(x, y, i) != BrickCollision::No
}

/// The grid after every brick touched by a ball centred at `(x, y)` died.
pub open spec fn bricks_after_hits(bricks: Seq<Brick>, x: int, y: int) -> Seq<Brick> {
    Seq::new(
        bricks.len(),
        |i: int|
            if is_hit(bricks, x, y, i) {
                Brick::Dead
            } else {
                bricks[i]
            },
    )
}

/// Whether the hits on left or right sides among the first `n` bricks are odd
/// in number, that is whether they reverse the horizontal direction.
pub open spec fn flips_x(bricks: Seq<Brick>, x: int, y: int, n: nat) -> bool
    decreases n,
{
    if n == 0 {
        false
    } else {
        let i = n - 1;
        let side = collision_side(x, y, i);
        let here = is_hit(bricks, x, y, i) && (side == BrickCollision::Left || side
            == BrickCollision::Right);
        flips_x(bricks, x, y, (n - 1) as nat) != here
    }
}

/// Whether the hits on top or bottom sides among the first `n` bricks are odd
/// in number, that is whether they reverse the vertical direction.
pub open spec fn flips_y(bricks: Seq<Brick>, x: int, y: int, n: nat) -> bool
    decreases n,
{
    if n == 0 {
        false
    } else {
        let i = n - 1;
        let side = collision_side(x, y, i);
        let here = is_hit(bricks, x, y, i) && (side == BrickCollision::Top || side
            == BrickCollision::Bottom);
        flips_y(bricks, x, y, (n - 1) as nat) != here
    }
}

/// Horizontal coordinate the ball aims at in the next sub-step.
pub open spec fn target_x(b: Ball) -> int {
    if b.direction_right {
        b.x + 1
    } else {
        b.x - 1
    }
}

/// Vertical coordinate the ball aims at in the next sub-step.
pub open spec fn target_y(b: Ball) -> int {
    if b.direction_up {
        b.y - 1
    } else {
        b.y + 1
    }
}

/// The ball's centre is in the paddle's band and strictly over the paddle.
/// It is tested on the position the ball has after its move in a sub-step.
pub open spec fn over_pad(x: int, y: int, pad_left: int) -> bool {
    &&& y >= HEIGHT - 2 * PAD_HEIGHT - BALL_RADIUS
    &&& x > pad_left
    &&& x < pad_left + PAD_WIDTH
}

/// The ball after its one-unit move, given the directions left by the brick
/// scan: a move that would cross the right wall or the ceiling is replaced by
/// a reversal, then a ball touching a wall is turned away from it, and a ball
/// over the paddle is sent upwards.
pub open spec fn moved_ball(b: Ball, tx: int, ty: int, pad_left: int) -> Ball {
    let x1: int = if b.direction_right {
        if tx > WIDTH - BALL_RADIUS {
            b.x as int
        } else {
            b.x + 1
        }
    } else {
        b.x - 1
    };
    let right1 = b.direction_right && tx <= WIDTH - BALL_RADIUS;
    let y1: int = if b.direction_up {
        if ty < BALL_RADIUS {
            b.y as int
        } else {
            b.y - 1
        }
    } else {
        b.y + 1
    };
    let up1 = b.direction_up && ty >= BALL_RADIUS;
    let right2 = if x1 <= BALL_RADIUS {
        true
    } else if x1 >= WIDTH - BALL_RADIUS {
        false
    } else {
        right1
    };
    let up2 = if over_pad(x1, y1, pad_left) {
        true
    } else if y1 <= BALL_RADIUS {
        false
    } else {
        up1
    };
    Ball { x: x1 as u32, y: y1 as u32, direction_right: right2, direction_up: up2, ..b }
}

/// One sub-step of play: the grid is scanned against the ball's target,
/// touched bricks die and reverse the ball, a cleared grid wins at once;
/// otherwise the ball moves, and a ball on the floor away from the paddle
/// loses.
pub open spec fn sub_step(v: UniverseView) -> UniverseView {
    let tx = target_x(v.ball);
    let ty = target_y(v.ball);
    let n = v.bricks.len();
    let bricks = bricks_after_hits(v.bricks, tx, ty);
    let turned = Ball {
        direction_right: v.ball.direction_right != flips_x(v.bricks, tx, ty, n),
        direction_up: v.ball.direction_up != flips_y(v.bricks, tx, ty, n),
        ..v.ball
    };
    if alive_count(bricks) == 0 {
        UniverseView { bricks, ball: turned, status: GameStatus::Won, ..v }
    } else {
        let ball = moved_ball(turned, tx, ty, v.pad.left as int);
        let status = if !over_pad(ball.x as int, ball.y as int, v.pad.left as int) && ball.y
            >= HEIGHT - BALL_RADIUS {
            GameStatus::Lost
        } else {
            GameStatus::Playing
        };
        UniverseView { bricks, ball, status, ..v }
    }
}

/// Up to `n` sub-steps, stopping as soon as the game is not being played.
pub open spec fn run(v: UniverseView, n: nat) -> UniverseView
    decreases n,
{
    if n == 0 || v.status != GameStatus::Playing {
        v
    } else {
        run(sub_step(v), (n - 1) as nat)
    }
}

/// One frame: as many sub-steps as the ball's speed.
pub open spec fn tick_result(v: UniverseView) -> UniverseView {
    run(v, BALL_SPEED as nat)
}

/// The effect of one paddle move command.
pub open spec fn move_pad_result(v: UniverseView, right: bool) -> UniverseView {
    if v.status == GameStatus::Playing {
        UniverseView { pad: Pad { left: moved_left_edge(v.pad.left as int, right) as u32, ..v.pad }, ..v }
    } else {
        v
    }
}

/// The effect of the start command.
pub open spec fn start_result(v: UniverseView) -> UniverseView {
    if v.status == GameStatus::Start {
        UniverseView { status: GameStatus::Playing, ..v }
    } else {
        v
    }
}

impl UniverseView {
    /// The grid has its fixed size, paddle and ball are in the playfield,
    /// and a ball resting on the floor heading down means the game is lost.
    pub open spec fn wf(&self) -> bool {
        &&& self.bricks.len() == BRICK_COUNT
        &&& self.pad.wf()
        &&& self.ball.wf()
        &&& (self.ball.y == HEIGHT - BALL_RADIUS && !self.ball.direction_up) ==> self.status
            == GameStatus::Lost
    }
}

/// The centre of a ball that touches a brick is away from every wall.
pub open spec fn near_grid(x: int, y: int) -> bool {
    &&& MARGIN_WIDTH - BALL_RADIUS < x < MARGIN_WIDTH + COLUMN_COUNT * BRICK_WIDTH + BALL_RADIUS
    &&& MARGIN_HEIGHT - BALL_RADIUS < y < MARGIN_HEIGHT + ROW_COUNT * BRICK_HEIGHT
        + BALL_RADIUS
}

proof fn lemma_flips_need_hit(bricks: Seq<Brick>, x: int, y: int, n: nat)
    requires
        n <= BRICK_COUNT,
        flips_x(bricks, x, y, n) || flips_y(bricks, x, y, n),
    ensures
        near_grid(x, y),
    decreases n,
{
    let i = n - 1;
    if flips_x(bricks, x, y, (n - 1) as nat) || flips_y(bricks, x, y, (n - 1) as nat) {
        lemma_flips_need_hit(bricks, x, y, (n - 1) as nat);
    } else {
        lemma_collision_near_grid(x, y, i);
    }
}

/// A sub-step keeps the state well formed.
pub proof fn lemma_sub_step_wf(v: UniverseView)
    requires
        v.wf(),
        v.status == GameStatus::Playing,
    ensures
        sub_step(v).wf(),
{
    let tx = target_x(v.ball);
    let ty = target_y(v.ball);
    let n = v.bricks.len();
    if flips_x(v.bricks, tx, ty, n) || flips_y(v.bricks, tx, ty, n) {
        lemma_flips_need_hit(v.bricks, tx, ty, n);
    }
}


/// A fresh game: every brick alive, the paddle centred, the ball resting on
/// the paddle's band above its centre, heading up and right.
pub open spec fn initial_view() -> UniverseView {
    UniverseView {
        bricks: Seq::new(BRICK_COUNT as nat, |i: int| Brick::Alive),
        pad: Pad { left: (WIDTH / 2 - PAD_WIDTH / 2) as u32, top: (HEIGHT - 2 * PAD_HEIGHT) as u32 },
        ball: Ball {
            radius: BALL_RADIUS,
            x: (WIDTH / 2) as u32,
            y: (HEIGHT - 2 * PAD_HEIGHT - BALL_RADIUS) as u32,
            speed: BALL_SPEED,
            direction_right: true,
            direction_up: true,
        },
        status: GameStatus::Start,
    }
}

/// The state made of the given parts, with the fixed paddle row, radius and
/// speed.
pub open spec fn view_of(
    bricks: Seq<Brick>,
    pad_left: u32,
    ball_x: u32,
    ball_y: u32,
    direction_right: bool,
    direction_up: bool,
    status: GameStatus,
) -> UniverseView {
    UniverseView {
        bricks,
        pad: Pad { left: pad_left, top: (HEIGHT - 2 * PAD_HEIGHT) as u32 },
        ball: Ball {
            radius: BALL_RADIUS,
            x: ball_x,
            y: ball_y,
            speed: BALL_SPEED,
            direction_right,
            direction_up,
        },
        status,
    }
}

impl Universe {
    /// The game's state is well formed.
    pub open spec fn wf(&self) -> bool {
        self@.wf()
    }

    /// A fresh game, waiting for the start command.
    pub fn new() -> (r: Universe)
        ensures
            r.wf(),
            r@ == initial_view(),
    {
        let mut bricks: Vec<Brick> = Vec::new();
        let mut i: u32 = 0;
        while i < BRICK_COUNT
            invariant
                i <= BRICK_COUNT,
                bricks@ == Seq::new(i as nat, |j: int| Brick::Alive),
            decreases BRICK_COUNT - i,
        {
            bricks.push(Brick::Alive);
            i += 1;
        }
        let pad = Pad { left: WIDTH / 2 - PAD_WIDTH / 2, top: HEIGHT - 2 * PAD_HEIGHT };
        let ball = Ball {
            radius: BALL_RADIUS,
            x: WIDTH / 2,
            y: HEIGHT - 2 * PAD_HEIGHT - BALL_RADIUS,
            speed: BALL_SPEED,
            direction_right: true,
            direction_up: true,
        };
        let r = Universe { bricks, pad, ball, status: GameStatus::Start };
        assert(r@.bricks =~= initial_view().bricks);
        r
    }

    /// A game in the given state, or `None` when that state is not well
    /// formed: wrong grid size, paddle or ball outside the playfield, or a
    /// ball heading into a wall or ceiling that it touches, or into the floor
    /// while the game is not lost.
    pub fn from_state(
        bricks: Vec<Brick>,
        pad_left: u32,
        ball_x: u32,
        ball_y: u32,
        direction_right: bool,
        direction_up: bool,
        status: GameStatus,
    ) -> (r: Option<Universe>)
        ensures
            r is Some <==> view_of(
                bricks@,
                pad_left,
                ball_x,
                ball_y,
                direction_right,
                direction_up,
                status,
            ).wf(),
            r matches Some(u) ==> u.wf() && u@ == view_of(
                bricks@,
                pad_left,
                ball_x,
                ball_y,
                direction_right,
                direction_up,
                status,
            ),
    {
        if bricks.len() != BRICK_COUNT as usize || pad_left > WIDTH - PAD_WIDTH {
            return None;
        }
        if ball_x < BALL_RADIUS || ball_x > WIDTH - BALL_RADIUS || ball_y < BALL_RADIUS || ball_y
            > HEIGHT - BALL_RADIUS {
            return None;
        }
        if (ball_x == BALL_RADIUS && !direction_right) || (ball_x == WIDTH - BALL_RADIUS
            && direction_right) || (ball_y == BALL_RADIUS && direction_up) {
            return None;
        }
        if ball_y == HEIGHT - BALL_RADIUS && !direction_up && status != GameStatus::Lost {
            return None;
        }
        let pad = Pad { left: pad_left, top: HEIGHT - 2 * PAD_HEIGHT };
        let ball = Ball {
            radius: BALL_RADIUS,
            x: ball_x,
            y: ball_y,
            speed: BALL_SPEED,
            direction_right,
            direction_up,
        };
        Some(Universe { bricks, pad, ball, status })
    }

    /// Advances the game by one frame; does nothing unless it is being
    /// played. The frame ends early when the game is won or lost.
    pub fn tick(&mut self)
        requires
            old(self).wf(),
        ensures
            final(self).wf(),
            final(self)@ == tick_result(old(self)@),
    {
        let mut step: u32 = 0;
        while step < self.ball.speed
            invariant
                self.wf(),
                step <= BALL_SPEED,
                run(self@, (BALL_SPEED - step) as nat) == tick_result(old(self)@),
            decreases BALL_SPEED - step,
        {
            if self.status != GameStatus::Playing {
                return;
            }
            self.step();
            step += 1;
        }
    }

    /// Moves the paddle one step right or left; ignored unless the game is
    /// being played.
    pub fn move_pad(&mut self, right: bool)
        requires
            old(self).wf(),
        ensures
            final(self).wf(),
            final(self)@ == move_pad_result(old(self)@, right),
    {
        if self.status == GameStatus::Playing {
            if right {
                self.pad.move_right();
            } else {
                self.pad.move_left();
            }
        }
    }

    /// Starts a game that has not started yet; any other state is kept.
    pub fn start_ball(&mut self)
        requires
            old(self).wf(),
        ensures
            final(self).wf(),
            final(self)@ == start_result(old(self)@),
    {
        if self.status == GameStatus::Start {
            self.status = GameStatus::Playing;
        }
    }

    pub fn width(&self) -> (r: u32)
        ensures
            r == WIDTH,
    {
        WIDTH
    }

    pub fn height(&self) -> (r: u32)
        ensures
            r == HEIGHT,
    {
        HEIGHT
    }

    pub fn pad_top_position(&self) -> (r: u32)
        ensures
            r == self@.pad.top,
    {
        self.pad.top
    }

    pub fn pad_left_position(&self) -> (r: u32)
        ensures
            r == self@.pad.left,
    {
        self.pad.left
    }

    pub fn pad_width(&self) -> (r: u32)
        ensures
            r == PAD_WIDTH,
    {
        PAD_WIDTH
    }

    pub fn pad_height(&self) -> (r: u32)
        ensures
            r == PAD_HEIGHT,
    {
        PAD_HEIGHT
    }

    /// The brick grid, row by row.
    pub fn bricks(&self) -> (r: &[Brick])
        ensures
            r@ == self@.bricks,
    {
        self.bricks.as_slice()
    }

    pub fn bricks_count(&self) -> (r: usize)
        ensures
            r == self@.bricks.len(),
    {
        self.bricks.len()
    }

    pub fn row_count(&self) -> (r: u32)
        ensures
            r == ROW_COUNT,
    {
        ROW_COUNT
    }

    pub fn column_count(&self) -> (r: u32)
        ensures
            r == COLUMN_COUNT,
    {
        COLUMN_COUNT
    }

    pub fn brick_height(&self) -> (r: u32)
        ensures
            r == BRICK_HEIGHT,
    {
        BRICK_HEIGHT
    }

    pub fn brick_width(&self) -> (r: u32)
        ensures
            r == BRICK_WIDTH,
    {
        BRICK_WIDTH
    }

    pub fn margin_height(&self) -> (r: u32)
        ensures
            r == MARGIN_HEIGHT,
    {
        MARGIN_HEIGHT
    }

    pub fn margin_width(&self) -> (r: u32)
        ensures
            r == MARGIN_WIDTH,
    {
        MARGIN_WIDTH
    }

    pub fn ball_x_position(&self) -> (r: u32)
        ensures
            r == self@.ball.x,
    {
        self.ball.x
    }

    pub fn ball_y_position(&self) -> (r: u32)
        ensures
            r == self@.ball.y,
    {
        self.ball.y
    }

    pub fn ball_radius(&self) -> (r: u32)
        ensures
            r == self@.ball.radius,
    {
        self.ball.radius
    }

    /// Whether the ball is heading right.
    pub fn ball_direction_right(&self) -> (r: bool)
        ensures
            r == self@.ball.direction_right,
    {
        self.ball.direction_right
    }

    /// Whether the ball is heading up.
    pub fn ball_direction_up(&self) -> (r: bool)
        ensures
            r == self@.ball.direction_up,
    {
        self.ball.direction_up
    }

    pub fn get_status(&self) -> (r: GameStatus)
        ensures
            r == self@.status,
    {
        self.status
    }

    /// One sub-step of play.
    fn step(&mut self)
        requires
            old(self).wf(),
            old(self)@.status == GameStatus::Playing,
        ensures
            final(self).wf(),
            final(self)@ == sub_step(old(self)@),
    {
        proof {
            lemma_sub_step_wf(self@);
        }
        let ghost v0 = self@;
        let target_x: u32 = if self.ball.direction_right {
            self.ball.x + 1
        } else {
            self.ball.x - 1
        };
        let target_y: u32 = if self.ball.direction_up {
            self.ball.y - 1
        } else {
            self.ball.y + 1
        };
        let ghost after = bricks_after_hits(v0.bricks, target_x as int, target_y as int);
        let mut count: u32 = 0;
        let mut index: u32 = 0;
        while index < BRICK_COUNT
            invariant
                index <= BRICK_COUNT,
                count <= index,
                v0.bricks.len() == BRICK_COUNT,
                after == bricks_after_hits(v0.bricks, target_x as int, target_y as int),
                self.bricks@.len() == BRICK_COUNT,
                forall|i: int|
                    0 <= i < BRICK_COUNT ==> #[trigger] self.bricks@[i] == if i < index {
                        after[i]
                    } else {
                        v0.bricks[i]
                    },
                count == alive_in(after, index as nat),
                self.pad == v0.pad,
                self.status == v0.status,
                self.ball == (Ball {
                    direction_right: v0.ball.direction_right != flips_x(
                        v0.bricks,
                        target_x as int,
                        target_y as int,
                        index as nat,
                    ),
                    direction_up: v0.ball.direction_up != flips_y(
                        v0.bricks,
                        target_x as int,
                        target_y as int,
                        index as nat,
                    ),
                    ..v0.ball
                }),
            decreases BRICK_COUNT - index,
        {
            if self.bricks[index as usize] == Brick::Alive {
                let side = check_brick_collision(target_x, target_y, index);
                match side {
                    BrickCollision::No => {
                        count += 1;
                    },
                    BrickCollision::Top | BrickCollision::Bottom => {
                        self.bricks.set(index as usize, Brick::Dead);
                        self.ball.direction_up = !self.ball.direction_up;
                    },
                    BrickCollision::Left | BrickCollision::Right => {
                        self.bricks.set(index as usize, Brick::Dead);
                        self.ball.direction_right = !self.ball.direction_right;
                    },
                }
            }
            index += 1;
        }
        assert(self.bricks@ =~= after);
        if count == 0 {
            self.status = GameStatus::Won;
            return;
        }
        if self.ball.direction_right {
            if target_x > WIDTH - BALL_RADIUS {
                self.ball.direction_right = false;
            } else {
                self.ball.x += 1;
            }
        } else {
            self.ball.x -= 1;
        }
        if self.ball.direction_up {
            if target_y < BALL_RADIUS {
                self.ball.direction_up = false;
            } else {
                self.ball.y -= 1;
            }
        } else {
            self.ball.y += 1;
        }
        if self.ball.x >= WIDTH - BALL_RADIUS {
            self.ball.direction_right = false;
        }
        if self.ball.x <= BALL_RADIUS {
            self.ball.direction_right = true;
        }
        if self.ball.y <= BALL_RADIUS {
            self.ball.direction_up = false;
        }
        if self.ball.y >= HEIGHT - 2 * PAD_HEIGHT - BALL_RADIUS && self.ball.x > self.pad.left
            && self.ball.x < self.pad.left + PAD_WIDTH {
            self.ball.direction_up = true;
        } else if self.ball.y >= HEIGHT - BALL_RADIUS {
            self.status = GameStatus::Lost;
        }
    }
}

} // verus!
