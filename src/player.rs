//! Player input and the player sprite's animation frames.

use vstd::prelude::*;

verus! {

/// The movement keys pressed this frame.
#[derive(Clone, Copy, Debug, PartialEq, Eq, Structural, Default)]
pub struct MoveKeys {
    pub left: bool,
    pub right: bool,
    pub up: bool,
    pub down: bool,
}

/// The sum of `-1` for `neg` and `+1` for `pos`.
pub open spec fn key_axis(neg: bool, pos: bool) -> int {
    (if pos {
        1int
    } else {
        0int
    }) - (if neg {
        1int
    } else {
        0int
    })
}

impl MoveKeys {
    /// The on-screen movement delta the keys ask for: left and right act on
    /// `x` (the column), up and down on `y` (the row; up is toward row 0);
    /// opposite keys cancel.
    pub fn delta(&self) -> (r: (i64, i64))
        ensures
            r.0 == key_axis(self.left, self.right),
            r.1 == key_axis(self.up, self.down),
    {
        let mut dx: i64 = 0;
        let mut dy: i64 = 0;
        if self.left {
            dx = dx - 1;
        }
        if self.right {
            dx = dx + 1;
        }
        if self.up {
            dy = dy - 1;
        }
        if self.down {
            dy = dy + 1;
        }
        (dx, dy)
    }
}

/// The run of sprite-sheet frames an animation loops over.
#[derive(Clone, Copy, Debug, PartialEq, Eq, Structural)]
pub struct AnimationIndices {
    pub first: usize,
    pub last: usize,
}

impl AnimationIndices {
    /// The frame after `index`: the next one, wrapping from `last` to `first`.
    pub fn next_frame(&self, index: usize) -> (r: usize)
        requires
            index != self.last ==> index < usize::MAX,
        ensures
            r == if index == self.last {
                self.first as int
            } else {
                index + 1
            },
    {
        if index == self.last {
            self.first
        } else {
            index + 1
        }
    }
}

} // verus!
