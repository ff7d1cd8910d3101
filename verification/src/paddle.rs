//! The paddle: a bar near the bottom of the play area that moves sideways.

use vstd::prelude::*;
use crate::config::{
    PADDLE_BOTTOM_OFFSET, PADDLE_HEIGHT, PADDLE_SPEED, PADDLE_WIDTH, PLACEMENT_LIMIT,
};
use crate::geometry::{Rect, Viewport};

verus! {

/// The paddle, located by its top-left corner. Its size is fixed by
/// [`PADDLE_WIDTH`] and [`PADDLE_HEIGHT`].
#[derive(Clone, Copy, Debug, PartialEq, Eq, Structural)]
pub struct Paddle {
    pub x: i64,
    pub y: i64,
}

/// What a [`Paddle`] stands for: the position of its top-left corner.
pub struct PaddleView {
    pub x: int,
    pub y: int,
}

impl View for Paddle {
    type V = PaddleView;

    open spec fn view(&self) -> PaddleView {
        PaddleView { x: self.x as int, y: self.y as int }
    }
}

impl PaddleView {
    /// Where a round places the paddle: centred horizontally, with its top
    /// edge [`PADDLE_BOTTOM_OFFSET`] above the bottom of the play area.
    pub open spec fn spawn(viewport: Viewport) -> PaddleView {
        PaddleView {
            x: (viewport.width as int) / 2 - PADDLE_WIDTH / 2,
            y: viewport.height - PADDLE_BOTTOM_OFFSET,
        }
    }

    /// The area the paddle covers.
    pub open spec fn rect(self) -> Rect {
        Rect { x: self.x, y: self.y, width: PADDLE_WIDTH as int, height: PADDLE_HEIGHT as int }
    }

    /// The paddle after a step to the left, taken only while it is held and
    /// the left edge is still right of the left wall.
    pub open spec fn moved_left(self, left: bool) -> PaddleView {
        if left && self.x > 0 {
            PaddleView { x: self.x - PADDLE_SPEED, y: self.y }
        } else {
            self
        }
    }

    /// The paddle after a step to the right, taken only while it is held and
    /// the right edge is still left of the right wall.
    pub open spec fn moved_right(self, right: bool, viewport: Viewport) -> PaddleView {
        if right && self.x + PADDLE_WIDTH < viewport.width {
            PaddleView { x: self.x + PADDLE_SPEED, y: self.y }
        } else {
            self
        }
    }

    /// The paddle after one frame with the given keys held: first the step to
    /// the left, then, from wherever that ended, the step to the right.
    pub open spec fn moved(self, left: bool, right: bool, viewport: Viewport) -> PaddleView {
        self.moved_left(left).moved_right(right, viewport)
    }

    /// The paddle after one frame for each entry of `keys`, in order. An entry
    /// holds whether left and whether right was held in that frame.
    pub open spec fn moved_through(self, keys: Seq<(bool, bool)>, viewport: Viewport) -> PaddleView
        decreases keys.len(),
    {
        if keys.len() == 0 {
            self
        } else {
            self.moved_through(keys.drop_last(), viewport).moved(
                keys.last().0,
                keys.last().1,
                viewport,
            )
        }
    }

    /// Whether whole steps lead from the paddle's place exactly to the left
    /// wall.
    pub open spec fn reaches_left_wall(self) -> bool {
        self.x >= 0 && self.x % (PADDLE_SPEED as int) == 0
    }

    /// Whether whole steps lead from the paddle's place exactly to the right
    /// wall.
    pub open spec fn reaches_right_wall(self, viewport: Viewport) -> bool {
        let room = viewport.width - PADDLE_WIDTH - self.x;
        room >= 0 && room % (PADDLE_SPEED as int) == 0
    }
}

impl Paddle {
    /// The placement limits every paddle handed to the library must respect.
    pub open spec fn wf(&self) -> bool {
        &&& -PLACEMENT_LIMIT <= self.x <= PLACEMENT_LIMIT
        &&& -PLACEMENT_LIMIT <= self.y <= PLACEMENT_LIMIT
    }

    /// Tells whether the paddle respects the placement limits.
    pub fn is_wf(&self) -> (ok: bool)
        ensures
            ok == self.wf(),
    {
        -PLACEMENT_LIMIT <= self.x && self.x <= PLACEMENT_LIMIT
            && -PLACEMENT_LIMIT <= self.y && self.y <= PLACEMENT_LIMIT
    }

    /// Places a paddle for a new round.
    pub fn new(viewport: Viewport) -> (paddle: Paddle)
        ensures
            paddle@ == PaddleView::spawn(viewport),
            paddle.wf(),
    {
        Paddle {
            x: (viewport.width / 2) as i64 - PADDLE_WIDTH / 2,
            y: viewport.height as i64 - PADDLE_BOTTOM_OFFSET,
        }
    }

    /// Moves the paddle for one frame. `left` and `right` tell which keys are
    /// held; both may be.
    pub fn move_paddle(&mut self, left: bool, right: bool, viewport: Viewport)
        requires
            old(self).wf(),
        ensures
            final(self)@ == old(self)@.moved(left, right, viewport),
            final(self).y == old(self).y,
            final(self).wf(),
    {
        if left && self.x > 0 {
            self.x -= PADDLE_SPEED;
        }
        if right && self.x + PADDLE_WIDTH < viewport.width as i64 {
            self.x += PADDLE_SPEED;
        }
    }
}

/// A paddle that starts at or right of the left wall, a whole number of steps
/// away from it, never crosses that wall, whatever keys are held and for
/// however many frames.
pub proof fn paddle_stays_right_of_left_wall(
    paddle: PaddleView,
    keys: Seq<(bool, bool)>,
    viewport: Viewport,
)
    requires
        paddle.reaches_left_wall(),
    ensures
        paddle.moved_through(keys, viewport).reaches_left_wall(),
        paddle.moved_through(keys, viewport).x >= 0,
    decreases keys.len(),
{
    if keys.len() > 0 {
        paddle_stays_right_of_left_wall(paddle, keys.drop_last(), viewport);
    }
}

/// A paddle that starts at or left of the right wall, a whole number of steps
/// away from it, never crosses that wall, whatever keys are held and for
/// however many frames.
pub proof fn paddle_stays_left_of_right_wall(
    paddle: PaddleView,
    keys: Seq<(bool, bool)>,
    viewport: Viewport,
)
    requires
        paddle.reaches_right_wall(viewport),
    ensures
        paddle.moved_through(keys, viewport).reaches_right_wall(viewport),
        paddle.moved_through(keys, viewport).x + PADDLE_WIDTH <= viewport.width,
    decreases keys.len(),
{
    if keys.len() > 0 {
        paddle_stays_left_of_right_wall(paddle, keys.drop_last(), viewport);
    }
}

/// Moving never changes the paddle's height above the floor.
pub proof fn paddle_keeps_its_height(
    paddle: PaddleView,
    keys: Seq<(bool, bool)>,
    viewport: Viewport,
)
    ensures
        paddle.moved_through(keys, viewport).y == paddle.y,
    decreases keys.len(),
{
    if keys.len() > 0 {
        paddle_keeps_its_height(paddle, keys.drop_last(), viewport);
    }
}

} // verus!
