use vstd::prelude::*;

use crate::config::{BALL_RADIUS, BALL_SPEED, HEIGHT, WIDTH};

verus! {

/// The ball: a centre, a radius, a speed in sub-steps per frame and a
/// direction on each axis.
#[derive(Clone, Copy, Debug, PartialEq, Eq, Structural)]
pub struct Ball {
    pub radius: u32,
    pub x: u32,
    pub y: u32,
    pub speed: u32,
    pub direction_up: bool,
    pub direction_right: bool,
}

impl Ball {
    /// The ball lies inside the playfield and never heads into a side wall
    /// or the ceiling that it already touches.
    pub open spec fn wf(&self) -> bool {
        &&& self.radius == BALL_RADIUS
        &&& self.speed == BALL_SPEED
        &&& BALL_RADIUS <= self.x <= WIDTH - BALL_RADIUS
        &&& BALL_RADIUS <= self.y <= HEIGHT - BALL_RADIUS
        &&& self.x == BALL_RADIUS ==> self.direction_right
        &&& self.x == WIDTH - BALL_RADIUS ==> !self.direction_right
        &&& self.y == BALL_RADIUS ==> !self.direction_up
    }
}

} // verus!
