//! The ball: a circle that travels in straight lines and turns back at walls
//! and at the paddle.

use vstd::prelude::*;
use vstd::math::abs;
use crate::config::{BALL_RADIUS, BALL_SPEED, COORD_LIMIT, PADDLE_WIDTH, SPEED_LIMIT};
use crate::geometry::{Circle, Viewport};
use crate::paddle::{Paddle, PaddleView};

verus! {

/// The ball, located by its centre, with the distance it travels along each
/// axis in one frame. Its radius is fixed by [`BALL_RADIUS`].
#[derive(Clone, Copy, Debug, PartialEq, Eq, Structural)]
pub struct Ball {
    pub x: i64,
    pub y: i64,
    pub speed_x: i64,
    pub speed_y: i64,
}

/// What a [`Ball`] stands for: its centre and its velocity.
pub struct BallView {
    pub x: int,
    pub y: int,
    pub speed_x: int,
    pub speed_y: int,
}

impl View for Ball {
    type V = BallView;

    open spec fn view(&self) -> BallView {
        BallView {
            x: self.x as int,
            y: self.y as int,
            speed_x: self.speed_x as int,
            speed_y: self.speed_y as int,
        }
    }
}

impl BallView {
    /// Where a round places the ball: in the middle of the play area, heading
    /// down and to the right.
    pub open spec fn spawn(viewport: Viewport) -> BallView {
        BallView {
            x: (viewport.width as int) / 2,
            y: (viewport.height as int) / 2,
            speed_x: BALL_SPEED as int,
            speed_y: BALL_SPEED as int,
        }
    }

    /// The area the ball covers.
    pub open spec fn circle(self) -> Circle {
        Circle { x: self.x, y: self.y, radius: BALL_RADIUS as int }
    }

    /// The ball pokes through the left wall or reaches the right one.
    pub open spec fn at_side_wall(self, viewport: Viewport) -> bool {
        self.x - BALL_RADIUS < 0 || self.x + BALL_RADIUS >= viewport.width
    }

    /// The ball pokes through the ceiling or reaches the floor.
    pub open spec fn at_ceiling_or_floor(self, viewport: Viewport) -> bool {
        self.y - BALL_RADIUS < 0 || self.y + BALL_RADIUS >= viewport.height
    }

    /// The bottom of the ball reaches the floor: the paddle missed it.
    pub open spec fn at_floor(self, viewport: Viewport) -> bool {
        self.y + BALL_RADIUS >= viewport.height
    }

    /// The ball carried along by its velocity for one frame, not yet
    /// reflected.
    pub open spec fn advanced(self) -> BallView {
        BallView { x: self.x + self.speed_x, y: self.y + self.speed_y, ..self }
    }

    /// The ball after one frame of free flight: it advances, and then each
    /// component of its velocity changes sign if the new position is at a
    /// wall that component runs into. The position itself is not corrected.
    pub open spec fn updated(self, viewport: Viewport) -> BallView {
        let there = self.advanced();
        BallView {
            speed_x: if there.at_side_wall(viewport) {
                -self.speed_x
            } else {
                self.speed_x
            },
            speed_y: if there.at_ceiling_or_floor(viewport) {
                -self.speed_y
            } else {
                self.speed_y
            },
            ..there
        }
    }

    /// The bottom of the ball is at or below the top of the paddle while its
    /// centre is between the paddle's left and right edges.
    pub open spec fn meets_paddle(self, paddle: PaddleView) -> bool {
        let bar = paddle.rect();
        self.y + BALL_RADIUS >= bar.y && bar.x <= self.x <= bar.right()
    }

    /// The ball after the paddle had its say: where the two meet, the ball
    /// is set to rest on the paddle's top edge and its vertical speed changes
    /// sign; otherwise nothing changes.
    pub open spec fn after_paddle(self, paddle: PaddleView) -> BallView {
        if self.meets_paddle(paddle) {
            BallView { y: paddle.y - BALL_RADIUS, speed_y: -self.speed_y, ..self }
        } else {
            self
        }
    }

    /// Both components of the velocity have the magnitude of [`BALL_SPEED`].
    pub open spec fn at_game_speed(self) -> bool {
        abs(self.speed_x) == BALL_SPEED && abs(self.speed_y) == BALL_SPEED
    }

    /// `self` and `other` move equally fast along each axis.
    pub open spec fn as_fast_as(self, other: BallView) -> bool {
        abs(self.speed_x) == abs(other.speed_x) && abs(self.speed_y) == abs(other.speed_y)
    }
}

impl Ball {
    /// The limits every ball handed to the library must respect: speeds within
    /// [`SPEED_LIMIT`] and the centre, now and one frame ahead, within
    /// [`COORD_LIMIT`]. Every operation of the library keeps a ball inside
    /// them.
    pub open spec fn wf(&self) -> bool {
        &&& -SPEED_LIMIT <= self.speed_x <= SPEED_LIMIT
        &&& -SPEED_LIMIT <= self.speed_y <= SPEED_LIMIT
        &&& -COORD_LIMIT <= self.x <= COORD_LIMIT
        &&& -COORD_LIMIT <= self.y <= COORD_LIMIT
        &&& -COORD_LIMIT <= self.x + self.speed_x <= COORD_LIMIT
        &&& -COORD_LIMIT <= self.y + self.speed_y <= COORD_LIMIT
    }

    /// Tells whether the ball respects its limits.
    pub fn is_wf(&self) -> (ok: bool)
        ensures
            ok == self.wf(),
    {
        let speeds_fit = -SPEED_LIMIT <= self.speed_x && self.speed_x <= SPEED_LIMIT
            && -SPEED_LIMIT <= self.speed_y && self.speed_y <= SPEED_LIMIT;
        let centre_fits = -COORD_LIMIT <= self.x && self.x <= COORD_LIMIT
            && -COORD_LIMIT <= self.y && self.y <= COORD_LIMIT;
        speeds_fit && centre_fits
            && -COORD_LIMIT <= self.x + self.speed_x && self.x + self.speed_x <= COORD_LIMIT
            && -COORD_LIMIT <= self.y + self.speed_y && self.y + self.speed_y <= COORD_LIMIT
    }

    /// Places a ball for a new round.
    pub fn new(viewport: Viewport) -> (ball: Ball)
        ensures
            ball@ == BallView::spawn(viewport),
            ball.wf(),
    {
        Ball {
            x: (viewport.width / 2) as i64,
            y: (viewport.height / 2) as i64,
            speed_x: BALL_SPEED,
            speed_y: BALL_SPEED,
        }
    }

    /// Moves the ball for one frame and reflects it off the walls.
    pub fn update(&mut self, viewport: Viewport)
        requires
            old(self).wf(),
        ensures
            final(self)@ == old(self)@.updated(viewport),
            final(self).wf(),
    {
        self.x += self.speed_x;
        self.y += self.speed_y;

        if self.x - BALL_RADIUS < 0 || self.x + BALL_RADIUS >= viewport.width as i64 {
            self.speed_x = -self.speed_x;
        }
        if self.y - BALL_RADIUS < 0 || self.y + BALL_RADIUS >= viewport.height as i64 {
            self.speed_y = -self.speed_y;
        }
    }

    /// Bounces the ball off the paddle if the two meet.
    pub fn check_paddle_collision(&mut self, paddle: &Paddle)
        requires
            old(self).wf(),
            paddle.wf(),
        ensures
            final(self)@ == old(self)@.after_paddle(paddle@),
            final(self).wf(),
    {
        if self.y + BALL_RADIUS >= paddle.y
            && self.x >= paddle.x
            && self.x <= paddle.x + PADDLE_WIDTH
        {
            self.speed_y = -self.speed_y;
            self.y = paddle.y - BALL_RADIUS;
        }
    }
}

/// A ball that runs into a wall is turned back: after the frame in which it
/// arrives there its velocity points away from that wall, and so the next
/// frame carries it back towards the inside.
pub proof fn walls_turn_the_ball_back(ball: BallView, viewport: Viewport)
    ensures
        ball.speed_x < 0 && ball.x + ball.speed_x < BALL_RADIUS ==> {
            let turned = ball.updated(viewport);
            turned.speed_x == -ball.speed_x && turned.updated(viewport).x > turned.x
        },
        ball.speed_x > 0 && ball.x + ball.speed_x + BALL_RADIUS >= viewport.width ==> {
            let turned = ball.updated(viewport);
            turned.speed_x == -ball.speed_x && turned.updated(viewport).x < turned.x
        },
        ball.speed_y < 0 && ball.y + ball.speed_y < BALL_RADIUS ==> {
            let turned = ball.updated(viewport);
            turned.speed_y == -ball.speed_y && turned.updated(viewport).y > turned.y
        },
        ball.speed_y > 0 && ball.y + ball.speed_y + BALL_RADIUS >= viewport.height ==> {
            let turned = ball.updated(viewport);
            turned.speed_y == -ball.speed_y && turned.updated(viewport).y < turned.y
        },
{
}

/// Away from the walls a frame of free flight only carries the ball along:
/// its velocity is unchanged.
pub proof fn free_flight_keeps_velocity(ball: BallView, viewport: Viewport)
    requires
        !ball.advanced().at_side_wall(viewport),
        !ball.advanced().at_ceiling_or_floor(viewport),
    ensures
        ball.updated(viewport) == ball.advanced(),
{
}

/// Walls and paddle change at most the sign of a velocity component, never
/// its magnitude.
pub proof fn bounces_keep_speed(ball: BallView, paddle: PaddleView, viewport: Viewport)
    ensures
        ball.updated(viewport).as_fast_as(ball),
        ball.after_paddle(paddle).as_fast_as(ball),
        ball.after_paddle(paddle).x == ball.x,
        ball.after_paddle(paddle).speed_x == ball.speed_x,
{
}

} // verus!
