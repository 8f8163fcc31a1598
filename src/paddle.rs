use vstd::prelude::*;

use crate::config::{HEIGHT, PAD_HEIGHT, PAD_STEP, PAD_WIDTH, WIDTH};

verus! {

/// The player's paddle; it moves horizontally only.
#[derive(Clone, Copy, Debug, PartialEq, Eq, Structural)]
pub struct Pad {
    pub top: u32,
    pub left: u32,
}

/// Rightmost position of the paddle's left edge.
pub open spec fn pad_max_left() -> int {
    WIDTH - PAD_WIDTH
}

/// Left edge after one move command: a fixed step, saturating at both ends.
pub open spec fn moved_left_edge(left: int, right: bool) -> int {
    if right {
        if left + PAD_STEP > pad_max_left() {
            pad_max_left()
        } else {
            left + PAD_STEP
        }
    } else {
        if left < PAD_STEP {
            0
        } else {
            left - PAD_STEP
        }
    }
}

impl Pad {
    /// The paddle is inside the playfield, on its fixed row.
    pub open spec fn wf(&self) -> bool {
        &&& self.left <= pad_max_left()
        &&& self.top == HEIGHT - 2 * PAD_HEIGHT
    }

    /// Moves one step left, stopping at the left wall.
    pub fn move_left(&mut self)
        requires
            old(self).wf(),
        ensures
            final(self).wf(),
            final(self).top == old(self).top,
            final(self).left == moved_left_edge(old(self).left as int, false),
    {
        if self.left < PAD_STEP {
            self.left = 0;
        } else {
            self.left -= PAD_STEP;
        }
    }

    /// Moves one step right, stopping at the right wall.
    pub fn move_right(&mut self)
        requires
            old(self).wf(),
        ensures
            final(self).wf(),
            final(self).top == old(self).top,
            final(self).left == moved_left_edge(old(self).left as int, true),
    {
        if self.left >= WIDTH - PAD_WIDTH - PAD_STEP {
            self.left = WIDTH - PAD_WIDTH;
        } else {
            self.left += PAD_STEP;
        }
    }
}

} // verus!
