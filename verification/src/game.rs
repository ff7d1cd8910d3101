//! The game: paddle, ball, bricks, score and lives, and the rules that take
//! them from one frame to the next.

use vstd::prelude::*;
use crate::ball::{Ball, BallView};
use crate::brick::{
    all_wf, bricks_keep_speed, grid, grid_brick, grid_left, grid_top,
    one_touch_removes_one_brick, rects, resolve_brick_collisions, sweep, sweep_only_removes,
    Brick,
};
use crate::config::{
    BALL_RADIUS, BRICK_HEIGHT, BRICK_SPACING_X, BRICK_SPACING_Y, BRICK_WIDTH, NB_COLONNES,
    NB_LIGNES, PADDLE_WIDTH, STARTING_LIVES,
};
use crate::geometry::{Rect, Viewport};
use crate::paddle::{Paddle, PaddleView};

verus! {

/// Where the game stands.
#[derive(Clone, Copy, Debug, PartialEq, Eq, Structural)]
pub enum Phase {
    /// Nothing was played yet; the game waits for the start signal.
    Idle,
    /// A round is under way.
    Playing,
    /// The last life was lost; the game waits for the start signal.
    GameOver,
}

/// What the player does during one frame.
#[derive(Clone, Copy, Debug, PartialEq, Eq, Structural)]
pub struct Input {
    /// The key that moves the paddle left is held.
    pub left: bool,
    /// The key that moves the paddle right is held.
    pub right: bool,
    /// The key that starts a round was pressed in this frame.
    pub start: bool,
}

/// The whole state of the game.
#[derive(Clone, Debug, PartialEq, Eq)]
pub struct Game {
    pub paddle: Paddle,
    pub ball: Ball,
    /// The bricks still standing.
    pub bricks: Vec<Brick>,
    /// Bricks destroyed in the current round.
    pub score: u32,
    /// Misses the player can still afford, the one that ends the game
    /// included.
    pub lives: u32,
    pub phase: Phase,
}

/// What a [`Game`] stands for.
pub struct GameView {
    pub paddle: PaddleView,
    pub ball: BallView,
    pub bricks: Seq<Rect>,
    pub score: int,
    pub lives: int,
    pub phase: Phase,
}

impl View for Game {
    type V = GameView;

    open spec fn view(&self) -> GameView {
        GameView {
            paddle: self.paddle@,
            ball: self.ball@,
            bricks: rects(self.bricks@),
            score: self.score as int,
            lives: self.lives as int,
            phase: self.phase,
        }
    }
}

impl GameView {
    /// The game before its first round: paddle and ball in place, no bricks
    /// yet.
    pub open spec fn fresh(viewport: Viewport) -> GameView {
        GameView {
            paddle: PaddleView::spawn(viewport),
            ball: BallView::spawn(viewport),
            bricks: Seq::empty(),
            score: 0,
            lives: STARTING_LIVES as int,
            phase: Phase::Idle,
        }
    }

    /// The first frame of a round: paddle and ball in place, a full grid of
    /// bricks, no points and all lives.
    pub open spec fn round(viewport: Viewport) -> GameView {
        GameView {
            paddle: PaddleView::spawn(viewport),
            ball: BallView::spawn(viewport),
            bricks: grid(viewport),
            score: 0,
            lives: STARTING_LIVES as int,
            phase: Phase::Playing,
        }
    }

    /// The ball of this frame as the bricks will meet it: moved, reflected
    /// off the walls, and bounced off the paddle where the paddle, itself
    /// already moved, is in its way.
    pub open spec fn incoming_ball(self, left: bool, right: bool, viewport: Viewport) -> BallView {
        self.ball.updated(viewport).after_paddle(self.paddle.moved(left, right, viewport))
    }

    /// The paddle missed: the incoming ball reaches the floor.
    pub open spec fn misses(self, left: bool, right: bool, viewport: Viewport) -> bool {
        self.incoming_ball(left, right, viewport).at_floor(viewport)
    }

    /// One frame of a round.
    ///
    /// The paddle moves, then the ball flies and bounces off walls and
    /// paddle. A ball that reaches the floor costs a life, and the loss of
    /// the last life ends the game. In every case the bricks the ball touches
    /// are then cleared, one point each.
    pub open spec fn played(self, left: bool, right: bool, viewport: Viewport) -> GameView {
        let missed = self.misses(left, right, viewport);
        let lives = if missed {
            self.lives - 1
        } else {
            self.lives
        };
        let swept = sweep(self.incoming_ball(left, right, viewport), self.bricks);
        GameView {
            paddle: self.paddle.moved(left, right, viewport),
            ball: swept.ball,
            bricks: swept.kept,
            score: self.score + swept.hits,
            lives,
            phase: if missed && lives == 0 {
                Phase::GameOver
            } else {
                self.phase
            },
        }
    }

    /// One frame of the game. While a round is under way that is a frame of
    /// play, whatever `input.start` says. Otherwise the game rests until the
    /// start signal comes, which begins a new round.
    pub open spec fn stepped(self, input: Input, viewport: Viewport) -> GameView {
        if self.phase is Playing {
            self.played(input.left, input.right, viewport)
        } else if input.start {
            GameView::round(viewport)
        } else {
            self
        }
    }

    /// What holds of every game that began fresh and was only ever stepped:
    /// lives and phase agree, the ball flies at game speed, and from the
    /// first round on the score counts the bricks missing from the grid.
    pub open spec fn consistent(self) -> bool {
        &&& 0 <= self.lives <= STARTING_LIVES
        &&& self.phase is Playing ==> self.lives >= 1
        &&& self.phase is GameOver ==> self.lives == 0
        &&& self.phase is Idle ==> self.score == 0 && self.bricks.len() == 0
        &&& !(self.phase is Idle) ==> self.score + self.bricks.len() == NB_LIGNES * NB_COLONNES
        &&& 0 <= self.score
        &&& self.ball.at_game_speed()
    }

    /// The game after one frame for each entry of `inputs`, in order.
    pub open spec fn stepped_through(self, inputs: Seq<Input>, viewport: Viewport) -> GameView
        decreases inputs.len(),
    {
        if inputs.len() == 0 {
            self
        } else {
            self.stepped_through(inputs.drop_last(), viewport).stepped(inputs.last(), viewport)
        }
    }
}

impl Game {
    /// What holds of a game between any two frames: its parts respect their
    /// limits, the score still has room for every brick left, a round under
    /// way has a life to lose, and a game that is over has none.
    pub open spec fn wf(&self) -> bool {
        &&& self.paddle.wf()
        &&& self.ball.wf()
        &&& all_wf(self.bricks@)
        &&& self.score + self.bricks.len() <= u32::MAX
        &&& self.phase is Playing ==> self.lives >= 1
        &&& self.phase is GameOver ==> self.lives == 0
    }

    /// Tells whether the game is in a state that [`Game::step`] accepts.
    pub fn is_wf(&self) -> (ok: bool)
        ensures
            ok == self.wf(),
    {
        if !self.paddle.is_wf() || !self.ball.is_wf() {
            return false;
        }
        if self.bricks.len() > (u32::MAX - self.score) as usize {
            return false;
        }
        let lives_fit = match self.phase {
            Phase::Idle => true,
            Phase::Playing => self.lives >= 1,
            Phase::GameOver => self.lives == 0,
        };
        if !lives_fit {
            return false;
        }
        let mut i: usize = 0;
        while i < self.bricks.len()
            invariant
                i <= self.bricks.len(),
                forall|k: int| 0 <= k < i ==> (#[trigger] self.bricks[k]).wf(),
            decreases self.bricks.len() - i,
        {
            if !self.bricks[i].is_wf() {
                return false;
            }
            i += 1;
        }
        true
    }

    /// A game that waits for its first round.
    pub fn new(viewport: Viewport) -> (game: Game)
        ensures
            game@ == GameView::fresh(viewport),
            game.wf(),
    {
        let game = Game {
            paddle: Paddle::new(viewport),
            ball: Ball::new(viewport),
            bricks: Vec::new(),
            score: 0,
            lives: STARTING_LIVES,
            phase: Phase::Idle,
        };
        assert(rects(game.bricks@) == Seq::<Rect>::empty());
        game
    }

    /// Replaces the bricks by a fresh grid, centred in the play area.
    pub fn spawn_bricks(&mut self, viewport: Viewport)
        ensures
            rects(final(self).bricks@) == grid(viewport),
            final(self).bricks.len() == NB_LIGNES * NB_COLONNES,
            all_wf(final(self).bricks@),
            final(self).paddle == old(self).paddle,
            final(self).ball == old(self).ball,
            final(self).score == old(self).score,
            final(self).lives == old(self).lives,
            final(self).phase == old(self).phase,
    {
        let pitch_x: i64 = BRICK_WIDTH + BRICK_SPACING_X;
        let pitch_y: i64 = BRICK_HEIGHT + BRICK_SPACING_Y;
        let total_width: i64 = NB_COLONNES * pitch_x - BRICK_SPACING_X;
        let spare: i64 = viewport.width as i64 - total_width;
        let start_x: i64 = if spare >= 0 {
            spare / 2
        } else {
            -((1 - spare) / 2)
        };
        let start_y: i64 = (viewport.height / 4) as i64;

        let mut bricks: Vec<Brick> = Vec::new();
        let mut i: i64 = 0;
        while i < NB_LIGNES
            invariant
                0 <= i <= NB_LIGNES,
                pitch_x == 55,
                pitch_y == 25,
                start_x == grid_left(viewport),
                start_y == grid_top(viewport),
                bricks.len() == i * 10,
                all_wf(bricks@),
                forall|k: int|
                    0 <= k < bricks.len() ==> (#[trigger] bricks[k])@ == grid(viewport)[k],
            decreases NB_LIGNES - i,
        {
            let mut j: i64 = 0;
            while j < NB_COLONNES
                invariant
                    0 <= i < NB_LIGNES,
                    0 <= j <= NB_COLONNES,
                    pitch_x == 55,
                    pitch_y == 25,
                    start_x == grid_left(viewport),
                    start_y == grid_top(viewport),
                    bricks.len() == i * 10 + j,
                    all_wf(bricks@),
                    forall|k: int|
                        0 <= k < bricks.len() ==> (#[trigger] bricks[k])@ == grid(viewport)[k],
                decreases NB_COLONNES - j,
            {
                proof {
                    assert(j * pitch_x == j * 55 && i * pitch_y == i * 25) by (nonlinear_arith)
                        requires
                            pitch_x == 55,
                            pitch_y == 25,
                    ;
                    let k = bricks.len() as int;
                    assert(k / 10 == i && k % 10 == j);
                    assert(grid(viewport)[k] == grid_brick(viewport, i as int, j as int));
                    assert(j * (BRICK_WIDTH + BRICK_SPACING_X) == j * 55 && i * (BRICK_HEIGHT
                        + BRICK_SPACING_Y) == i * 25) by (nonlinear_arith)
                        requires
                            BRICK_WIDTH + BRICK_SPACING_X == 55,
                            BRICK_HEIGHT + BRICK_SPACING_Y == 25,
                    ;
                }
                let x: i64 = start_x + j * pitch_x;
                let y: i64 = start_y + i * pitch_y;
                bricks.push(Brick::new(x, y));
                j += 1;
            }
            i += 1;
        }
        assert(rects(bricks@) == grid(viewport));
        self.bricks = bricks;
    }

    /// Begins a round: all lives, no points, paddle and ball in place and a
    /// fresh grid of bricks.
    pub fn start_round(&mut self, viewport: Viewport)
        ensures
            final(self)@ == GameView::round(viewport),
            final(self).phase is Playing,
            final(self).lives == STARTING_LIVES,
            final(self).score == 0,
            final(self).bricks.len() == NB_LIGNES * NB_COLONNES,
            final(self).wf(),
    {
        self.phase = Phase::Playing;
        self.lives = STARTING_LIVES;
        self.score = 0;
        self.ball = Ball::new(viewport);
        self.paddle = Paddle::new(viewport);
        self.spawn_bricks(viewport);
    }

    /// Plays one frame of a round under way.
    pub fn play(&mut self, left: bool, right: bool, viewport: Viewport)
        requires
            old(self).wf(),
            old(self).phase is Playing,
        ensures
            final(self)@ == old(self)@.played(left, right, viewport),
            final(self).wf(),
    {
        self.paddle.move_paddle(left, right, viewport);

        self.ball.update(viewport);
        self.ball.check_paddle_collision(&self.paddle);

        if self.ball.y + BALL_RADIUS >= viewport.height as i64 {
            self.lives -= 1;
            if self.lives == 0 {
                self.phase = Phase::GameOver;
            }
        }

        let hits = resolve_brick_collisions(&mut self.bricks, &mut self.ball);
        self.score += hits as u32;
    }

    /// Advances the game by one frame.
    pub fn step(&mut self, input: Input, viewport: Viewport)
        requires
            old(self).wf(),
        ensures
            final(self)@ == old(self)@.stepped(input, viewport),
            final(self).wf(),
    {
        match self.phase {
            Phase::Playing => {
                self.play(input.left, input.right, viewport);
            },
            Phase::Idle | Phase::GameOver => {
                if input.start {
                    self.start_round(viewport);
                }
            },
        }
    }
}

/// The start signal, given while no round is under way, begins a full round:
/// all lives, no points, every brick of the grid, paddle and ball in place.
/// It does so from the idle game and from the lost one alike.
pub proof fn start_signal_begins_a_full_round(game: GameView, input: Input, viewport: Viewport)
    requires
        !(game.phase is Playing),
        input.start,
    ensures
        game.stepped(input, viewport) == GameView::round(viewport),
        game.stepped(input, viewport).phase is Playing,
        game.stepped(input, viewport).lives == 3,
        game.stepped(input, viewport).score == 0,
        game.stepped(input, viewport).bricks == grid(viewport),
        game.stepped(input, viewport).bricks.len() == NB_LIGNES * NB_COLONNES,
        game.stepped(input, viewport).ball == BallView::spawn(viewport),
        game.stepped(input, viewport).paddle == PaddleView::spawn(viewport),
{
}

/// A round ends exactly in the frame in which the paddle misses the ball
/// with one life left. The game is then over and no life remains.
pub proof fn last_miss_ends_the_game(game: GameView, input: Input, viewport: Viewport)
    requires
        game.phase is Playing,
        game.lives >= 1,
    ensures
        game.stepped(input, viewport).phase is GameOver <==> game.lives == 1 && game.misses(
            input.left,
            input.right,
            viewport,
        ),
        game.stepped(input, viewport).phase is GameOver ==> game.stepped(input, viewport).lives
            == 0,
        !(game.stepped(input, viewport).phase is GameOver) ==> game.stepped(
            input,
            viewport,
        ).phase is Playing,
{
}

/// While no round is under way the game does not change until the start
/// signal comes: a lost game stays lost and an idle game stays idle,
/// whatever else is pressed and for however many frames.
pub proof fn game_rests_until_start_signal(game: GameView, inputs: Seq<Input>, viewport: Viewport)
    requires
        !(game.phase is Playing),
        forall|i: int| 0 <= i < inputs.len() ==> !(#[trigger] inputs[i]).start,
    ensures
        game.stepped_through(inputs, viewport) == game,
    decreases inputs.len(),
{
    if inputs.len() > 0 {
        game_rests_until_start_signal(game, inputs.drop_last(), viewport);
        assert(!inputs[inputs.len() - 1].start);
    }
}

/// A frame of play keeps the books: every point stands for one brick removed
/// in that frame, so the score never falls and no brick appears; a life is
/// lost exactly on a miss, one at a time, and none is ever gained.
pub proof fn play_keeps_the_books(game: GameView, left: bool, right: bool, viewport: Viewport)
    ensures
        ({
            let next = game.played(left, right, viewport);
            &&& next.score >= game.score
            &&& next.score - game.score == game.bricks.len() - next.bricks.len()
            &&& forall|i: int|
                0 <= i < next.bricks.len() ==> game.bricks.contains(#[trigger] next.bricks[i])
            &&& next.lives == if game.misses(left, right, viewport) {
                game.lives - 1
            } else {
                game.lives
            }
            &&& next.ball.as_fast_as(game.ball)
        }),
{
    let incoming = game.incoming_ball(left, right, viewport);
    sweep_only_removes(incoming, game.bricks);
    bricks_keep_speed(incoming, game.bricks);
}

/// One touch scores exactly one point and costs exactly one brick.
///
/// Let the ball, as it comes in this frame, touch the brick at index `k`, no
/// brick before it, and, once that brick has deflected it, no brick behind
/// it. Then the frame adds one to the score and removes that brick and no
/// other.
pub proof fn one_touch_scores_one_point(
    game: GameView,
    left: bool,
    right: bool,
    viewport: Viewport,
    k: int,
)
    requires
        0 <= k < game.bricks.len(),
        game.incoming_ball(left, right, viewport).touches(game.bricks[k]),
        forall|j: int|
            0 <= j < k ==> !game.incoming_ball(left, right, viewport).touches(
                #[trigger] game.bricks[j],
            ),
        forall|j: int|
            k < j < game.bricks.len() ==> !game.incoming_ball(left, right, viewport).deflected_by(
                game.bricks[k],
            ).touches(#[trigger] game.bricks[j]),
    ensures
        game.played(left, right, viewport).score == game.score + 1,
        game.played(left, right, viewport).bricks.len() == game.bricks.len() - 1,
        game.played(left, right, viewport).bricks == game.bricks.remove(k),
        game.played(left, right, viewport).ball == game.incoming_ball(
            left,
            right,
            viewport,
        ).deflected_by(game.bricks[k]),
{
    one_touch_removes_one_brick(game.incoming_ball(left, right, viewport), game.bricks, k);
}

/// A game that waits for its first round is consistent.
pub proof fn fresh_game_is_consistent(viewport: Viewport)
    ensures
        GameView::fresh(viewport).consistent(),
{
}

/// Every frame keeps a consistent game consistent, whatever the input and
/// whatever size the play area has in that frame.
pub proof fn frame_keeps_the_game_consistent(game: GameView, input: Input, viewport: Viewport)
    requires
        game.consistent(),
    ensures
        game.stepped(input, viewport).consistent(),
{
    if game.phase is Playing {
        play_keeps_the_books(game, input.left, input.right, viewport);
    }
}

/// Every game reached from a fresh one is consistent: lives and phase agree,
/// the ball flies at game speed, and the score counts the bricks missing
/// from the grid.
pub proof fn reachable_games_are_consistent(inputs: Seq<Input>, viewport: Viewport)
    ensures
        GameView::fresh(viewport).stepped_through(inputs, viewport).consistent(),
    decreases inputs.len(),
{
    if inputs.len() > 0 {
        reachable_games_are_consistent(inputs.drop_last(), viewport);
        frame_keeps_the_game_consistent(
            GameView::fresh(viewport).stepped_through(inputs.drop_last(), viewport),
            inputs.last(),
            viewport,
        );
    } else {
        fresh_game_is_consistent(viewport);
    }
}

/// On a play area whose width lets the paddle reach both walls in whole steps
/// from where a round places it, the paddle of a game reached from a fresh
/// one is always entirely on screen, at the height the round gave it.
pub proof fn paddle_stays_on_screen(inputs: Seq<Input>, viewport: Viewport)
    requires
        PaddleView::spawn(viewport).reaches_left_wall(),
        PaddleView::spawn(viewport).reaches_right_wall(viewport),
    ensures
        ({
            let paddle = GameView::fresh(viewport).stepped_through(inputs, viewport).paddle;
            &&& paddle.reaches_left_wall()
            &&& paddle.reaches_right_wall(viewport)
            &&& 0 <= paddle.x
            &&& paddle.x + PADDLE_WIDTH <= viewport.width
            &&& paddle.y == PaddleView::spawn(viewport).y
        }),
    decreases inputs.len(),
{
    if inputs.len() > 0 {
        paddle_stays_on_screen(inputs.drop_last(), viewport);
    }
}

} // verus!
