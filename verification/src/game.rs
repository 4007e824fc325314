//! The game state and the per-frame physics step.
//!
//! Positions and velocities are fixed-point integers in units of one
//! hundredth of a pixel; sprite sizes are whole pixels. The spec function
//! [`step`] is the mathematical description of one frame, and the
//! executable [`GameState::update`] is proved to compute exactly it.

use vstd::prelude::*;
use crate::geom::{overlaps, rect_fits, Rect, RectModel};

verus! {

/// Fixed-point units in one pixel.
pub const UNITS_PER_PIXEL: i64 = 100;

/// Fixed-point units in half a pixel.
pub const UNITS_PER_HALF_PIXEL: i64 = 50;

/// Window width, in units.
pub const WINDOW_WIDTH: i64 = 640 * UNITS_PER_PIXEL;

/// Window height, in units.
pub const WINDOW_HEIGHT: i64 = 480 * UNITS_PER_PIXEL;

/// Half the window width, in units.
pub const HALF_WINDOW_WIDTH: i64 = 320 * UNITS_PER_PIXEL;

/// Half the window height, in units.
pub const HALF_WINDOW_HEIGHT: i64 = 240 * UNITS_PER_PIXEL;

/// Horizontal inset of each paddle from its side of the window, in units.
pub const PADDLE_INSET: i64 = 45 * UNITS_PER_PIXEL;

/// Units a paddle moves per frame while a direction key is held (6 pixels).
pub const PADDLE_SPEED: i64 = 600;

/// The ball's initial rightward speed, in units per frame (4 pixels).
pub const BALL_SPEED: i64 = 400;

/// Dimensionless multiplier applied to the strike offset to get spin.
pub const PADDLE_SPIN: i64 = 2;

/// Units added to the ball's x-speed on each paddle hit (0.05 pixels).
pub const BALL_ACCELERATION: i64 = 5;

/// Bound on every position and velocity of a state that `update` accepts;
/// far beyond anything reachable in play, yet small enough that one frame's
/// arithmetic stays within `i64`.
pub const POS_LIMIT: i64 = 1_000_000_000_000_000;

/// Largest accepted sprite dimension, in pixels.
pub const MAX_SPRITE_DIM: i64 = 1_000_000;

/// Which player won an ended match.
#[derive(Clone, Copy, Debug, PartialEq, Eq, Structural)]
pub enum Winner {
    PlayerOne,
    PlayerTwo,
}

/// Phase of the match: it is being played, or it has ended with a winner.
/// `Ended` is terminal: a frame step of an ended match changes nothing.
#[derive(Clone, Copy, Debug, PartialEq, Eq, Structural)]
pub enum Status {
    Playing,
    Ended(Winner),
}

/// The four logical direction keys polled each frame by the host loop.
#[derive(Clone, Copy, Debug, PartialEq, Eq, Structural)]
pub struct Input {
    pub player1_up: bool,
    pub player1_down: bool,
    pub player2_up: bool,
    pub player2_down: bool,
}

/// Mathematical model of a paddle: position in units, sprite size in
/// pixels. The sprite is drawn rotated a quarter turn, so its bounding
/// rectangle swaps the sprite's width and height and extends left of `x`.
pub struct PaddleModel {
    pub x: int,
    pub y: int,
    pub w: int,
    pub h: int,
}

/// Mathematical model of the ball: position and velocity in units, sprite
/// size in pixels.
pub struct BallModel {
    pub x: int,
    pub y: int,
    pub vx: int,
    pub vy: int,
    pub w: int,
    pub h: int,
}

/// Mathematical model of the whole game.
pub struct GameModel {
    pub player1: PaddleModel,
    pub player2: PaddleModel,
    pub ball: BallModel,
    pub status: Status,
}

/// A player-controlled paddle. `x`, `y` are the sprite's drawing origin in
/// units; `w`, `h` are the sprite's pixel dimensions.
#[derive(Clone, Copy, Debug, PartialEq, Eq, Structural)]
pub struct Paddle {
    pub x: i64,
    pub y: i64,
    pub w: i64,
    pub h: i64,
}

/// The moving ball. `x`, `y`, `vx`, `vy` are in units; `w`, `h` are the
/// sprite's pixel dimensions.
#[derive(Clone, Copy, Debug, PartialEq, Eq, Structural)]
pub struct Ball {
    pub x: i64,
    pub y: i64,
    pub vx: i64,
    pub vy: i64,
    pub w: i64,
    pub h: i64,
}

/// The full game state advanced once per frame.
#[derive(Clone, Copy, Debug, PartialEq, Eq, Structural)]
pub struct GameState {
    pub player1: Paddle,
    pub player2: Paddle,
    pub ball: Ball,
    pub status: Status,
}

impl View for Paddle {
    type V = PaddleModel;

    open spec fn view(&self) -> PaddleModel {
        PaddleModel { x: self.x as int, y: self.y as int, w: self.w as int, h: self.h as int }
    }
}

impl View for Ball {
    type V = BallModel;

    open spec fn view(&self) -> BallModel {
        BallModel {
            x: self.x as int,
            y: self.y as int,
            vx: self.vx as int,
            vy: self.vy as int,
            w: self.w as int,
            h: self.h as int,
        }
    }
}

impl View for GameState {
    type V = GameModel;

    open spec fn view(&self) -> GameModel {
        GameModel {
            player1: self.player1@,
            player2: self.player2@,
            ball: self.ball@,
            status: self.status,
        }
    }
}

/// Sign of an integer: 1, -1, or 0.
pub open spec fn sign(v: int) -> int {
    if v > 0 {
        1
    } else if v < 0 {
        -1
    } else {
        0
    }
}

/// Division truncating toward zero, as machine division does; the spin
/// offset is defined with it.
pub open spec fn div_toward_zero(a: int, b: int) -> int {
    if a >= 0 {
        a / b
    } else {
        -((-a) / b)
    }
}

/// A paddle's bounding rectangle. The sprite is rotated a quarter turn
/// about its origin, so the box extends one sprite-height to the left of
/// `x`, and the sprite's width becomes the box's height.
pub open spec fn paddle_rect(p: PaddleModel) -> RectModel {
    RectModel { x: p.x - p.h * UNITS_PER_PIXEL, y: p.y, w: p.h * UNITS_PER_PIXEL, h: p.w * UNITS_PER_PIXEL }
}

/// The ball's bounding rectangle.
pub open spec fn ball_rect(b: BallModel) -> RectModel {
    RectModel { x: b.x, y: b.y, w: b.w * UNITS_PER_PIXEL, h: b.h * UNITS_PER_PIXEL }
}

/// Vertical centre of a paddle, in units.
pub open spec fn paddle_centre(p: PaddleModel) -> int {
    p.y + p.h * UNITS_PER_HALF_PIXEL
}

/// Vertical centre of the ball, in units.
pub open spec fn ball_centre(b: BallModel) -> int {
    b.y + b.h * UNITS_PER_HALF_PIXEL
}

/// The ball advanced by its velocity.
pub open spec fn integrated(b: BallModel) -> BallModel {
    BallModel { x: b.x + b.vx, y: b.y + b.vy, ..b }
}

/// A paddle after one frame of key input: each held direction key shifts
/// it by `speed` units, unclamped.
pub open spec fn paddle_moved(p: PaddleModel, up: bool, down: bool, speed: int) -> PaddleModel {
    PaddleModel { y: p.y + (if down { speed } else { 0 }) - (if up { speed } else { 0 }), ..p }
}

/// Whether the ball's bounding rectangle overlaps the paddle's.
pub open spec fn hits_paddle(b: BallModel, p: PaddleModel) -> bool {
    overlaps(ball_rect(b), paddle_rect(p))
}

/// The ball reflected off a paddle: the x-velocity flips sign and grows by
/// the acceleration constant in its direction of travel, and the offset of
/// the strike from the paddle's centre, divided by the paddle's pixel
/// height, feeds back into the y-velocity as spin.
pub open spec fn bounced(b: BallModel, p: PaddleModel) -> BallModel {
    BallModel {
        vx: -(b.vx + BALL_ACCELERATION * sign(b.vx)),
        vy: b.vy - PADDLE_SPIN * div_toward_zero(paddle_centre(p) - ball_centre(b), p.h),
        ..b
    }
}

/// Whether the ball's top edge is at or above the top of the window, or
/// its bottom edge at or below the bottom.
pub open spec fn wall_contact(b: BallModel) -> bool {
    b.y <= 0 || b.y + b.h * UNITS_PER_PIXEL >= WINDOW_HEIGHT
}

/// The ball after the wall check: on wall contact the y-velocity flips.
pub open spec fn wall_bounced(b: BallModel) -> BallModel {
    if wall_contact(b) {
        BallModel { vy: -b.vy, ..b }
    } else {
        b
    }
}

/// The ball after the paddle collision test: paddle one is tested first,
/// and the first overlap wins.
pub open spec fn ball_after_paddles(b: BallModel, p1: PaddleModel, p2: PaddleModel) -> BallModel {
    if hits_paddle(b, p1) {
        bounced(b, p1)
    } else if hits_paddle(b, p2) {
        bounced(b, p2)
    } else {
        b
    }
}

/// Whether the ball sits at or beyond a side of the window, which ends the
/// match.
pub open spec fn side_exit(b: BallModel) -> bool {
    b.x <= 0 || b.x >= WINDOW_WIDTH
}

/// The winner when the ball exits a side: leaving on the left hands the
/// match to player two, on the right to player one.
pub open spec fn exit_winner(b: BallModel) -> Winner {
    if b.x <= 0 {
        Winner::PlayerTwo
    } else {
        Winner::PlayerOne
    }
}

/// The ball mid-frame: integrated, then bounced off whichever moved paddle
/// it overlaps, before the wall check.
pub open spec fn mid_ball(s: GameModel, input: Input) -> BallModel {
    ball_after_paddles(
        integrated(s.ball),
        paddle_moved(s.player1, input.player1_up, input.player1_down, PADDLE_SPEED as int),
        paddle_moved(s.player2, input.player2_up, input.player2_down, PADDLE_SPEED as int),
    )
}

/// One frame of the game. An ended match is unchanged. A playing match
/// whose ball sits at or beyond a side boundary ends at once, untouched.
/// Otherwise the ball integrates, the paddles move by the held keys, the
/// ball reflects off the first paddle it overlaps, and the wall check
/// flips its y-velocity on contact with the top or bottom edge.
pub open spec fn step(s: GameModel, input: Input) -> GameModel {
    if !(s.status is Playing) {
        s
    } else if side_exit(s.ball) {
        GameModel { status: Status::Ended(exit_winner(s.ball)), ..s }
    } else {
        GameModel {
            player1: paddle_moved(s.player1, input.player1_up, input.player1_down, PADDLE_SPEED as int),
            player2: paddle_moved(s.player2, input.player2_up, input.player2_down, PADDLE_SPEED as int),
            ball: wall_bounced(mid_ball(s, input)),
            status: Status::Playing,
        }
    }
}

/// Paddle fields small enough for one frame of arithmetic.
pub open spec fn paddle_in_bounds(p: PaddleModel) -> bool {
    &&& 1 <= p.w <= MAX_SPRITE_DIM
    &&& 1 <= p.h <= MAX_SPRITE_DIM
    &&& -POS_LIMIT <= p.x <= POS_LIMIT
    &&& -POS_LIMIT <= p.y <= POS_LIMIT
}

/// Ball fields small enough for one frame of arithmetic.
pub open spec fn ball_in_bounds(b: BallModel) -> bool {
    &&& 1 <= b.w <= MAX_SPRITE_DIM
    &&& 1 <= b.h <= MAX_SPRITE_DIM
    &&& -POS_LIMIT <= b.x <= POS_LIMIT
    &&& -POS_LIMIT <= b.y <= POS_LIMIT
    &&& -POS_LIMIT <= b.vx <= POS_LIMIT
    &&& -POS_LIMIT <= b.vy <= POS_LIMIT
}

/// Every coordinate of the state within [`POS_LIMIT`] and every sprite
/// dimension in `1 ..= MAX_SPRITE_DIM`: what one call of `update` needs to
/// stay within `i64`.
pub open spec fn in_bounds(s: GameModel) -> bool {
    paddle_in_bounds(s.player1) && paddle_in_bounds(s.player2) && ball_in_bounds(s.ball)
}

/// Paddle fields with room for the arithmetic of a frame already under
/// way: like [`paddle_in_bounds`], with three times the position head-room.
pub open spec fn paddle_fits(p: PaddleModel) -> bool {
    &&& 1 <= p.w <= MAX_SPRITE_DIM
    &&& 1 <= p.h <= MAX_SPRITE_DIM
    &&& -3 * POS_LIMIT <= p.x <= 3 * POS_LIMIT
    &&& -3 * POS_LIMIT <= p.y <= 3 * POS_LIMIT
}

/// Ball fields with room for the arithmetic of a frame already under way.
pub open spec fn ball_fits(b: BallModel) -> bool {
    &&& 1 <= b.w <= MAX_SPRITE_DIM
    &&& 1 <= b.h <= MAX_SPRITE_DIM
    &&& -3 * POS_LIMIT <= b.x <= 3 * POS_LIMIT
    &&& -3 * POS_LIMIT <= b.y <= 3 * POS_LIMIT
    &&& -3 * POS_LIMIT <= b.vx <= 3 * POS_LIMIT
    &&& -3 * POS_LIMIT <= b.vy <= 3 * POS_LIMIT
}

/// Sign of an `i64`: 1, -1, or 0.
fn sign_i64(v: i64) -> (s: i64)
    ensures
        s as int == sign(v as int),
{
    if v > 0 {
        1
    } else if v < 0 {
        -1
    } else {
        0
    }
}

/// Division of an `i64` by a positive `i64`, truncating toward zero.
fn div_trunc_i64(a: i64, b: i64) -> (q: i64)
    requires
        1 <= b,
        -0x4000_0000_0000_0000 <= a <= 0x4000_0000_0000_0000,
    ensures
        q == div_toward_zero(a as int, b as int),
{
    if a >= 0 {
        let q = a as u64 / b as u64;
        proof {
            vstd::arithmetic::div_mod::lemma_div_pos_is_pos(a as int, b as int);
            vstd::arithmetic::div_mod::lemma_div_nonincreasing(a as int, b as int);
        }
        q as i64
    } else {
        let n = -a;
        let q = n as u64 / b as u64;
        proof {
            vstd::arithmetic::div_mod::lemma_div_pos_is_pos(n as int, b as int);
            vstd::arithmetic::div_mod::lemma_div_nonincreasing(n as int, b as int);
        }
        -(q as i64)
    }
}

impl Paddle {
    /// A paddle from its drawing origin (in units) and sprite size (in
    /// pixels).
    pub fn new(x: i64, y: i64, w: i64, h: i64) -> (p: Paddle)
        ensures
            p@ == (PaddleModel { x: x as int, y: y as int, w: w as int, h: h as int }),
    {
        Paddle { x, y, w, h }
    }

    /// The paddle's bounding rectangle.
    pub fn bounds(&self) -> (r: Rect)
        requires
            paddle_fits(self@),
        ensures
            r@ == paddle_rect(self@),
    {
        Rect::new(
            self.x - self.h * UNITS_PER_PIXEL,
            self.y,
            self.h * UNITS_PER_PIXEL,
            self.w * UNITS_PER_PIXEL,
        )
    }

    /// The paddle's vertical centre, in units.
    pub fn centre(&self) -> (c: i64)
        requires
            paddle_fits(self@),
        ensures
            c as int == paddle_centre(self@),
    {
        self.y + self.h * UNITS_PER_HALF_PIXEL
    }

    /// One frame of key input: each held direction key shifts the paddle
    /// by `speed` units, up before down, unclamped.
    pub fn apply_input(&mut self, up: bool, down: bool, speed: i64)
        requires
            0 <= speed <= POS_LIMIT,
            -3 * POS_LIMIT <= old(self)@.y <= 3 * POS_LIMIT,
        ensures
            final(self)@ == paddle_moved(old(self)@, up, down, speed as int),
    {
        if up {
            self.y = self.y - speed;
        }
        if down {
            self.y = self.y + speed;
        }
    }
}

impl Ball {
    /// A ball from its position and velocity (in units) and sprite size
    /// (in pixels).
    pub fn new(x: i64, y: i64, vx: i64, vy: i64, w: i64, h: i64) -> (b: Ball)
        ensures
            b@ == (BallModel {
                x: x as int,
                y: y as int,
                vx: vx as int,
                vy: vy as int,
                w: w as int,
                h: h as int,
            }),
    {
        Ball { x, y, vx, vy, w, h }
    }

    /// The ball's bounding rectangle.
    pub fn bounds(&self) -> (r: Rect)
        requires
            ball_fits(self@),
        ensures
            r@ == ball_rect(self@),
    {
        Rect::new(self.x, self.y, self.w * UNITS_PER_PIXEL, self.h * UNITS_PER_PIXEL)
    }

    /// The ball's vertical centre, in units.
    pub fn centre(&self) -> (c: i64)
        requires
            ball_fits(self@),
        ensures
            c as int == ball_centre(self@),
    {
        self.y + self.h * UNITS_PER_HALF_PIXEL
    }
}

/// Reflect the ball off a paddle it overlaps: flip and accelerate the
/// x-velocity, and add spin from the strike offset.
fn bounce(ball: &mut Ball, paddle: &Paddle)
    requires
        ball_fits(old(ball)@),
        paddle_fits(paddle@),
    ensures
        final(ball)@ == bounced(old(ball)@, paddle@),
{
    let offset = div_trunc_i64(paddle.centre() - ball.centre(), paddle.h);
    let accel = BALL_ACCELERATION * sign_i64(ball.vx);
    ball.vx = -(ball.vx + accel);
    ball.vy = ball.vy - PADDLE_SPIN * offset;
}

/// Acceptable sprite dimension: positive and at most [`MAX_SPRITE_DIM`]
/// pixels.
pub open spec fn dim_ok(d: int) -> bool {
    1 <= d <= MAX_SPRITE_DIM
}

/// The initial state of a match: each paddle inset from its side of the
/// window and offset above the middle by its sprite height; the ball
/// centred, moving right at [`BALL_SPEED`].
pub open spec fn initial_state(
    p1_w: int,
    p1_h: int,
    p2_w: int,
    p2_h: int,
    ball_w: int,
    ball_h: int,
) -> GameModel {
    GameModel {
        player1: PaddleModel {
            x: PADDLE_INSET as int,
            y: HALF_WINDOW_HEIGHT - p1_h * UNITS_PER_PIXEL,
            w: p1_w,
            h: p1_h,
        },
        player2: PaddleModel {
            x: WINDOW_WIDTH - PADDLE_INSET,
            y: HALF_WINDOW_HEIGHT - p2_h * UNITS_PER_PIXEL,
            w: p2_w,
            h: p2_h,
        },
        ball: BallModel {
            x: HALF_WINDOW_WIDTH - ball_w * UNITS_PER_HALF_PIXEL,
            y: HALF_WINDOW_HEIGHT - ball_h * UNITS_PER_HALF_PIXEL,
            vx: BALL_SPEED as int,
            vy: 0,
            w: ball_w,
            h: ball_h,
        },
        status: Status::Playing,
    }
}

impl GameState {
    /// The initial state of a match, from the pixel dimensions of the two
    /// paddle sprites and the ball sprite. A sprite with a dimension that
    /// is not positive, or too large for the frame arithmetic, is rejected
    /// (the spin offset divides by the paddle's height, so a zero-height
    /// paddle must never enter a state).
    pub fn new(
        p1_w: i64,
        p1_h: i64,
        p2_w: i64,
        p2_h: i64,
        ball_w: i64,
        ball_h: i64,
    ) -> (r: Option<GameState>)
        ensures
            r is Some <==> dim_ok(p1_w as int) && dim_ok(p1_h as int) && dim_ok(p2_w as int)
                && dim_ok(p2_h as int) && dim_ok(ball_w as int) && dim_ok(ball_h as int),
            r is Some ==> r.unwrap()@ == initial_state(
                p1_w as int,
                p1_h as int,
                p2_w as int,
                p2_h as int,
                ball_w as int,
                ball_h as int,
            ),
            r is Some ==> in_bounds(r.unwrap()@),
    {
        if p1_w < 1 || p1_w > MAX_SPRITE_DIM || p1_h < 1 || p1_h > MAX_SPRITE_DIM || p2_w < 1
            || p2_w > MAX_SPRITE_DIM || p2_h < 1 || p2_h > MAX_SPRITE_DIM || ball_w < 1
            || ball_w > MAX_SPRITE_DIM || ball_h < 1 || ball_h > MAX_SPRITE_DIM {
            return None;
        }
        Some(
            GameState {
                player1: Paddle::new(
                    PADDLE_INSET,
                    HALF_WINDOW_HEIGHT - p1_h * UNITS_PER_PIXEL,
                    p1_w,
                    p1_h,
                ),
                player2: Paddle::new(
                    WINDOW_WIDTH - PADDLE_INSET,
                    HALF_WINDOW_HEIGHT - p2_h * UNITS_PER_PIXEL,
                    p2_w,
                    p2_h,
                ),
                ball: Ball::new(
                    HALF_WINDOW_WIDTH - ball_w * UNITS_PER_HALF_PIXEL,
                    HALF_WINDOW_HEIGHT - ball_h * UNITS_PER_HALF_PIXEL,
                    BALL_SPEED,
                    0,
                    ball_w,
                    ball_h,
                ),
                status: Status::Playing,
            },
        )
    }

    /// Whether the state satisfies the precondition of [`GameState::update`];
    /// a host loop can test it before each frame.
    pub fn is_in_bounds(&self) -> (b: bool)
        ensures
            b == in_bounds(self@),
    {
        self.player1.w >= 1 && self.player1.w <= MAX_SPRITE_DIM && self.player1.h >= 1
            && self.player1.h <= MAX_SPRITE_DIM && self.player1.x >= -POS_LIMIT
            && self.player1.x <= POS_LIMIT && self.player1.y >= -POS_LIMIT
            && self.player1.y <= POS_LIMIT && self.player2.w >= 1
            && self.player2.w <= MAX_SPRITE_DIM && self.player2.h >= 1
            && self.player2.h <= MAX_SPRITE_DIM && self.player2.x >= -POS_LIMIT
            && self.player2.x <= POS_LIMIT && self.player2.y >= -POS_LIMIT
            && self.player2.y <= POS_LIMIT && self.ball.w >= 1 && self.ball.w <= MAX_SPRITE_DIM
            && self.ball.h >= 1 && self.ball.h <= MAX_SPRITE_DIM && self.ball.x >= -POS_LIMIT
            && self.ball.x <= POS_LIMIT && self.ball.y >= -POS_LIMIT && self.ball.y <= POS_LIMIT
            && self.ball.vx >= -POS_LIMIT && self.ball.vx <= POS_LIMIT
            && self.ball.vy >= -POS_LIMIT && self.ball.vy <= POS_LIMIT
    }

    /// One frame of the game, exactly the mathematical [`step`]: end the
    /// match if the ball sits at or beyond a side boundary; otherwise
    /// integrate the ball, move the paddles by the held keys, reflect the
    /// ball off the first paddle it overlaps, and flip its y-velocity on
    /// contact with the top or bottom wall. An ended match is unchanged.
    pub fn update(&mut self, input: Input)
        requires
            in_bounds(old(self)@),
        ensures
            final(self)@ == step(old(self)@, input),
    {
        match self.status {
            Status::Ended(_) => {
                return;
            },
            Status::Playing => {},
        }
        if self.ball.x <= 0 {
            self.status = Status::Ended(Winner::PlayerTwo);
            return;
        }
        if self.ball.x >= WINDOW_WIDTH {
            self.status = Status::Ended(Winner::PlayerOne);
            return;
        }
        self.ball.x = self.ball.x + self.ball.vx;
        self.ball.y = self.ball.y + self.ball.vy;
        self.player1.apply_input(input.player1_up, input.player1_down, PADDLE_SPEED);
        self.player2.apply_input(input.player2_up, input.player2_down, PADDLE_SPEED);
        let ball_box = self.ball.bounds();
        let hit_player1 = ball_box.intersects(&self.player1.bounds());
        let hit_player2 = ball_box.intersects(&self.player2.bounds());
        if hit_player1 {
            bounce(&mut self.ball, &self.player1);
        } else if hit_player2 {
            bounce(&mut self.ball, &self.player2);
        }
        if self.ball.y <= 0 || self.ball.y + self.ball.h * UNITS_PER_PIXEL >= WINDOW_HEIGHT {
            self.ball.vy = -self.ball.vy;
        }
    }
}

} // verus!
