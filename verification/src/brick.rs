//! Bricks: the rectangles the ball destroys, how it bounces off one, and the
//! pass that clears every brick the ball touches.

use vstd::prelude::*;
use crate::ball::{Ball, BallView};
use crate::config::{
    BALL_RADIUS, BRICK_HEIGHT, BRICK_SPACING_X, BRICK_SPACING_Y, BRICK_WIDTH, NB_COLONNES,
    NB_LIGNES, PLACEMENT_LIMIT,
};
use crate::geometry::{Rect, Viewport};

verus! {

/// A brick, given by its top-left corner and its size.
#[derive(Clone, Copy, Debug, PartialEq, Eq, Structural)]
pub struct Brick {
    pub x: i64,
    pub y: i64,
    pub width: i64,
    pub height: i64,
}

impl View for Brick {
    type V = Rect;

    /// A brick stands for the rectangle it covers.
    open spec fn view(&self) -> Rect {
        Rect {
            x: self.x as int,
            y: self.y as int,
            width: self.width as int,
            height: self.height as int,
        }
    }
}

/// The rectangles a row of bricks stands for, in the same order.
pub open spec fn rects(bricks: Seq<Brick>) -> Seq<Rect> {
    Seq::new(bricks.len(), |i: int| bricks[i]@)
}

/// Every brick of the row respects the placement limits.
pub open spec fn all_wf(bricks: Seq<Brick>) -> bool {
    forall|i: int| 0 <= i < bricks.len() ==> (#[trigger] bricks[i]).wf()
}

impl BallView {
    /// The square around the ball overlaps the brick; touching counts.
    pub open spec fn touches(self, brick: Rect) -> bool {
        brick.overlaps(self.circle().bounding_box())
    }

    /// The ball comes from above: its centre is not below the brick's top
    /// edge, and one frame ahead its bottom is at or past that edge.
    pub open spec fn hits_top_of(self, brick: Rect) -> bool {
        self.advanced().y + BALL_RADIUS >= brick.y && self.y <= brick.y
    }

    /// The ball comes from below: its centre is not above the brick's bottom
    /// edge, and one frame ahead its top is at or past that edge.
    pub open spec fn hits_bottom_of(self, brick: Rect) -> bool {
        self.advanced().y - BALL_RADIUS <= brick.bottom() && self.y >= brick.bottom()
    }

    /// The ball comes from the left: its centre is not right of the brick's
    /// left edge, and one frame ahead its right side is at or past that edge.
    pub open spec fn hits_left_of(self, brick: Rect) -> bool {
        self.advanced().x + BALL_RADIUS >= brick.x && self.x <= brick.x
    }

    /// The ball comes from the right: its centre is not left of the brick's
    /// right edge, and one frame ahead its left side is at or past that edge.
    pub open spec fn hits_right_of(self, brick: Rect) -> bool {
        self.advanced().x - BALL_RADIUS <= brick.right() && self.x >= brick.right()
    }

    /// The ball after bouncing off the brick.
    ///
    /// Each axis is decided on its own, so a hit on a corner may turn the
    /// ball around on both. On an axis with a hit the speed changes sign and
    /// the ball is set just outside the edge it hit; should both edges of an
    /// axis report a hit, the top one and the left one win the placement.
    pub open spec fn deflected_by(self, brick: Rect) -> BallView {
        let top = self.hits_top_of(brick);
        let bottom = self.hits_bottom_of(brick);
        let left = self.hits_left_of(brick);
        let right = self.hits_right_of(brick);
        BallView {
            x: if left {
                brick.x - BALL_RADIUS
            } else if right {
                brick.right() + BALL_RADIUS
            } else {
                self.x
            },
            y: if top {
                brick.y - BALL_RADIUS
            } else if bottom {
                brick.bottom() + BALL_RADIUS
            } else {
                self.y
            },
            speed_x: if left || right {
                -self.speed_x
            } else {
                self.speed_x
            },
            speed_y: if top || bottom {
                -self.speed_y
            } else {
                self.speed_y
            },
        }
    }
}

impl Brick {
    /// The placement limits every brick handed to the library must respect.
    pub open spec fn wf(&self) -> bool {
        &&& -PLACEMENT_LIMIT <= self.x <= PLACEMENT_LIMIT
        &&& -PLACEMENT_LIMIT <= self.y <= PLACEMENT_LIMIT
        &&& 0 <= self.width <= PLACEMENT_LIMIT
        &&& 0 <= self.height <= PLACEMENT_LIMIT
    }

    /// Tells whether the brick respects the placement limits.
    pub fn is_wf(&self) -> (ok: bool)
        ensures
            ok == self.wf(),
    {
        -PLACEMENT_LIMIT <= self.x && self.x <= PLACEMENT_LIMIT
            && -PLACEMENT_LIMIT <= self.y && self.y <= PLACEMENT_LIMIT
            && 0 <= self.width && self.width <= PLACEMENT_LIMIT
            && 0 <= self.height && self.height <= PLACEMENT_LIMIT
    }

    /// A brick of the standard size with its top-left corner at `(x, y)`.
    pub fn new(x: i64, y: i64) -> (brick: Brick)
        ensures
            brick@ == (Rect {
                x: x as int,
                y: y as int,
                width: BRICK_WIDTH as int,
                height: BRICK_HEIGHT as int,
            }),
    {
        Brick { x, y, width: BRICK_WIDTH, height: BRICK_HEIGHT }
    }

    /// Tells whether the ball touches the brick.
    pub fn check_collision(&self, ball: &Ball) -> (hit: bool)
        requires
            self.wf(),
            ball.wf(),
        ensures
            hit == ball@.touches(self@),
    {
        ball.x + BALL_RADIUS >= self.x
            && ball.x - BALL_RADIUS <= self.x + self.width
            && ball.y + BALL_RADIUS >= self.y
            && ball.y - BALL_RADIUS <= self.y + self.height
    }

    /// Bounces the ball off the brick.
    pub fn handle_collision(&self, ball: &mut Ball)
        requires
            self.wf(),
            old(ball).wf(),
        ensures
            final(ball)@ == old(ball)@.deflected_by(self@),
            final(ball).wf(),
    {
        let ball_next_x: i64 = ball.x + ball.speed_x;
        let ball_next_y: i64 = ball.y + ball.speed_y;

        let hit_top = ball_next_y + BALL_RADIUS >= self.y && ball.y <= self.y;
        let hit_bottom = ball_next_y - BALL_RADIUS <= self.y + self.height
            && ball.y >= self.y + self.height;
        let hit_left = ball_next_x + BALL_RADIUS >= self.x && ball.x <= self.x;
        let hit_right = ball_next_x - BALL_RADIUS <= self.x + self.width
            && ball.x >= self.x + self.width;

        if hit_top || hit_bottom {
            ball.speed_y = -ball.speed_y;
        }
        if hit_left || hit_right {
            ball.speed_x = -ball.speed_x;
        }
        if hit_top {
            ball.y = self.y - BALL_RADIUS;
        } else if hit_bottom {
            ball.y = self.y + self.height + BALL_RADIUS;
        }
        if hit_left {
            ball.x = self.x - BALL_RADIUS;
        } else if hit_right {
            ball.x = self.x + self.width + BALL_RADIUS;
        }
    }
}

/// Outcome of offering every brick of a row to the ball, one after the other.
pub struct Sweep {
    /// The ball after its last bounce.
    pub ball: BallView,
    /// The bricks the ball did not touch, in their old order.
    pub kept: Seq<Rect>,
    /// How many bricks the ball touched.
    pub hits: nat,
}

/// Offers the bricks to the ball in order. A brick that the ball touches, as
/// the ball is when the brick's turn comes, deflects the ball and is dropped,
/// so the bricks behind it meet the deflected ball.
pub open spec fn sweep(ball: BallView, bricks: Seq<Rect>) -> Sweep
    decreases bricks.len(),
{
    if bricks.len() == 0 {
        Sweep { ball, kept: Seq::empty(), hits: 0 }
    } else {
        let before = sweep(ball, bricks.drop_last());
        let brick = bricks.last();
        if before.ball.touches(brick) {
            Sweep {
                ball: before.ball.deflected_by(brick),
                kept: before.kept,
                hits: before.hits + 1,
            }
        } else {
            Sweep { ball: before.ball, kept: before.kept.push(brick), hits: before.hits }
        }
    }
}

/// Lets the ball bounce off every brick it touches and removes those bricks.
///
/// The bricks are visited in order and each one meets the ball as the bricks
/// before it left it. The row is only rewritten once all bricks were visited.
/// Returns the number of bricks removed.
pub fn resolve_brick_collisions(bricks: &mut Vec<Brick>, ball: &mut Ball) -> (hits: usize)
    requires
        all_wf(old(bricks)@),
        old(ball).wf(),
    ensures
        final(ball)@ == sweep(old(ball)@, rects(old(bricks)@)).ball,
        rects(final(bricks)@) == sweep(old(ball)@, rects(old(bricks)@)).kept,
        hits == sweep(old(ball)@, rects(old(bricks)@)).hits,
        final(bricks).len() + hits == old(bricks).len(),
        all_wf(final(bricks)@),
        final(ball).wf(),
{
    let ghost start = ball@;
    let ghost row = rects(bricks@);
    let mut current: Ball = *ball;
    let mut kept: Vec<Brick> = Vec::new();
    let mut hits: usize = 0;
    let mut i: usize = 0;
    while i < bricks.len()
        invariant
            i <= bricks.len(),
            row == rects(bricks@),
            all_wf(bricks@),
            all_wf(kept@),
            current.wf(),
            kept.len() + hits == i,
            current@ == sweep(start, row.take(i as int)).ball,
            rects(kept@) == sweep(start, row.take(i as int)).kept,
            hits == sweep(start, row.take(i as int)).hits,
        decreases bricks.len() - i,
    {
        let brick: Brick = bricks[i];
        let ghost kept_before = kept@;
        proof {
            assert(row.take(i + 1).drop_last() == row.take(i as int));
            assert(row.take(i + 1).last() == brick@);
        }
        if brick.check_collision(&current) {
            brick.handle_collision(&mut current);
            hits += 1;
        } else {
            kept.push(brick);
            assert(rects(kept@) == rects(kept_before).push(brick@));
        }
        i += 1;
    }
    assert(row.take(i as int) == row);
    *bricks = kept;
    *ball = current;
    hits
}

/// A sweep only ever removes bricks: every brick it keeps was in the row, and
/// the bricks kept and the bricks hit add up to the row.
pub proof fn sweep_only_removes(ball: BallView, bricks: Seq<Rect>)
    ensures
        sweep(ball, bricks).kept.len() + sweep(ball, bricks).hits == bricks.len(),
        forall|i: int|
            0 <= i < sweep(ball, bricks).kept.len() ==> bricks.contains(
                #[trigger] sweep(ball, bricks).kept[i],
            ),
    decreases bricks.len(),
{
    if bricks.len() > 0 {
        let shorter = bricks.drop_last();
        sweep_only_removes(ball, shorter);
        let before = sweep(ball, shorter);
        let after = sweep(ball, bricks);
        assert forall|i: int| 0 <= i < after.kept.len() implies bricks.contains(
            #[trigger] after.kept[i],
        ) by {
            if i < before.kept.len() {
                let j = choose|j: int| 0 <= j < shorter.len() && shorter[j] == before.kept[i];
                assert(bricks[j] == after.kept[i]);
            } else {
                assert(bricks[bricks.len() - 1] == after.kept[i]);
            }
        }
    }
}

/// A ball that touches no brick of the row passes it unchanged and leaves
/// the row as it was.
pub proof fn sweep_without_touch(ball: BallView, bricks: Seq<Rect>)
    requires
        forall|j: int| 0 <= j < bricks.len() ==> !ball.touches(#[trigger] bricks[j]),
    ensures
        sweep(ball, bricks) == (Sweep { ball, kept: bricks, hits: 0 }),
    decreases bricks.len(),
{
    if bricks.len() > 0 {
        sweep_without_touch(ball, bricks.drop_last());
        assert(bricks.drop_last().push(bricks.last()) == bricks);
    } else {
        assert(bricks == Seq::<Rect>::empty());
    }
}

proof fn sweep_with_one_touch_up_to(ball: BallView, bricks: Seq<Rect>, k: int, n: int)
    requires
        0 <= k < n <= bricks.len(),
        ball.touches(bricks[k]),
        forall|j: int| 0 <= j < k ==> !ball.touches(#[trigger] bricks[j]),
        forall|j: int|
            k < j < bricks.len() ==> !ball.deflected_by(bricks[k]).touches(#[trigger] bricks[j]),
    ensures
        sweep(ball, bricks.take(n)) == (Sweep {
            ball: ball.deflected_by(bricks[k]),
            kept: bricks.take(n).remove(k),
            hits: 1,
        }),
    decreases n,
{
    let row = bricks.take(n);
    assert(row.drop_last() == bricks.take(n - 1));
    assert(row.last() == bricks[n - 1]);
    if n == k + 1 {
        sweep_without_touch(ball, bricks.take(k));
        assert(row.remove(k) == bricks.take(k));
    } else {
        sweep_with_one_touch_up_to(ball, bricks, k, n - 1);
        assert(row.remove(k) == bricks.take(n - 1).remove(k).push(bricks[n - 1]));
    }
}

/// One touch costs exactly one brick.
///
/// Let the ball touch the brick at index `k`, no brick before it, and, once
/// that brick has deflected it, no brick behind it. Then the sweep counts one
/// hit, removes that brick and no other, and leaves the ball as that brick
/// deflected it.
pub proof fn one_touch_removes_one_brick(ball: BallView, bricks: Seq<Rect>, k: int)
    requires
        0 <= k < bricks.len(),
        ball.touches(bricks[k]),
        forall|j: int| 0 <= j < k ==> !ball.touches(#[trigger] bricks[j]),
        forall|j: int|
            k < j < bricks.len() ==> !ball.deflected_by(bricks[k]).touches(#[trigger] bricks[j]),
    ensures
        sweep(ball, bricks).hits == 1,
        sweep(ball, bricks).kept == bricks.remove(k),
        sweep(ball, bricks).kept.len() == bricks.len() - 1,
        sweep(ball, bricks).ball == ball.deflected_by(bricks[k]),
{
    sweep_with_one_touch_up_to(ball, bricks, k, bricks.len() as int);
    assert(bricks.take(bricks.len() as int) == bricks);
}

/// Bricks change at most the sign of a velocity component, never its
/// magnitude, however many of them the ball meets in one sweep.
pub proof fn bricks_keep_speed(ball: BallView, bricks: Seq<Rect>)
    ensures
        forall|brick: Rect| (#[trigger] ball.deflected_by(brick)).as_fast_as(ball),
        sweep(ball, bricks).ball.as_fast_as(ball),
    decreases bricks.len(),
{
    if bricks.len() > 0 {
        bricks_keep_speed(ball, bricks.drop_last());
        let before = sweep(ball, bricks.drop_last()).ball;
        assert(before.deflected_by(bricks.last()).as_fast_as(before));
    }
}

/// Width of a fresh grid, from the left edge of its first column to the right
/// edge of its last.
pub open spec fn grid_width() -> int {
    NB_COLONNES * (BRICK_WIDTH + BRICK_SPACING_X) - BRICK_SPACING_X
}

/// Left edge of a fresh grid: the grid is centred, and where the space left
/// over is odd the spare pixel goes to the right.
pub open spec fn grid_left(viewport: Viewport) -> int {
    (viewport.width - grid_width()) / 2
}

/// Top edge of a fresh grid: a quarter of the way down.
pub open spec fn grid_top(viewport: Viewport) -> int {
    (viewport.height as int) / 4
}

/// The brick in the given row and column of a fresh grid.
pub open spec fn grid_brick(viewport: Viewport, row: int, col: int) -> Rect {
    Rect {
        x: grid_left(viewport) + col * (BRICK_WIDTH + BRICK_SPACING_X),
        y: grid_top(viewport) + row * (BRICK_HEIGHT + BRICK_SPACING_Y),
        width: BRICK_WIDTH as int,
        height: BRICK_HEIGHT as int,
    }
}

/// The bricks of a fresh grid, row by row from the top, each row from the
/// left.
pub open spec fn grid(viewport: Viewport) -> Seq<Rect> {
    Seq::new(
        (NB_LIGNES * NB_COLONNES) as nat,
        |k: int| grid_brick(viewport, k / (NB_COLONNES as int), k % (NB_COLONNES as int)),
    )
}

/// A fresh grid is centred to the pixel, starts a quarter of the way down and
/// holds bricks of the standard size that keep their distance: no two of
/// them overlap.
pub proof fn grid_is_centred_and_regular(viewport: Viewport)
    ensures
        grid(viewport).len() == NB_LIGNES * NB_COLONNES,
        ({
            let left_margin = grid_left(viewport);
            let right_margin = viewport.width - (grid_left(viewport) + grid_width());
            left_margin <= right_margin <= left_margin + 1
        }),
        4 * grid_top(viewport) <= viewport.height < 4 * grid_top(viewport) + 4,
        forall|i: int|
            0 <= i < grid(viewport).len() ==> {
                &&& (#[trigger] grid(viewport)[i]).width == BRICK_WIDTH
                &&& grid(viewport)[i].height == BRICK_HEIGHT
                &&& grid_left(viewport) <= grid(viewport)[i].x
                &&& grid(viewport)[i].right() <= grid_left(viewport) + grid_width()
                &&& grid_top(viewport) <= grid(viewport)[i].y
            },
        forall|i: int, j: int|
            0 <= i < j < grid(viewport).len() ==> !(#[trigger] grid(viewport)[i]).overlaps(
                #[trigger] grid(viewport)[j],
            ),
{
    let bricks = grid(viewport);
    assert forall|i: int, j: int| 0 <= i < j < bricks.len() implies !(#[trigger] bricks[i])
        .overlaps(#[trigger] bricks[j]) by {
        let (ri, ci) = (i / 10, i % 10);
        let (rj, cj) = (j / 10, j % 10);
        if ri == rj {
            assert(ci < cj);
            assert(bricks[i].right() < bricks[j].x);
        } else {
            assert(ri < rj);
            assert(bricks[i].bottom() < bricks[j].y);
        }
    }
}

} // verus!
