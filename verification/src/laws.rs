//! Frame-level laws of the physics step, proved once and for all states.

use vstd::prelude::*;
use crate::game::{
    hits_paddle, integrated, mid_ball, paddle_moved, side_exit, step, wall_contact, GameModel,
    Input, Status, Winner, PADDLE_SPEED,
};

verus! {

/// Free flight: in a playing frame where no direction key is held and the
/// ball reaches neither paddle, a side boundary, nor the top or bottom
/// wall, its position advances by exactly its current velocity vector.
pub proof fn lemma_free_flight(s: GameModel, input: Input)
    requires
        s.status is Playing,
        !input.player1_up,
        !input.player1_down,
        !input.player2_up,
        !input.player2_down,
        !side_exit(s.ball),
        !hits_paddle(integrated(s.ball), s.player1),
        !hits_paddle(integrated(s.ball), s.player2),
        !wall_contact(integrated(s.ball)),
    ensures
        step(s, input).ball.x == s.ball.x + s.ball.vx,
        step(s, input).ball.y == s.ball.y + s.ball.vy,
{
    assert(paddle_moved(s.player1, false, false, PADDLE_SPEED as int) == s.player1);
    assert(paddle_moved(s.player2, false, false, PADDLE_SPEED as int) == s.player2);
}

/// Reflection law: whenever a paddle collision is detected in a frame, the
/// sign of the ball's x-velocity after the frame is opposite to its sign
/// before the collision. The x-velocity is untouched between the start of
/// the frame and the bounce, so the pre-collision sign is the sign at the
/// start of the frame. (A ball with zero x-velocity has no sign to flip
/// and keeps it: such inputs are left out.)
pub proof fn lemma_reflection(s: GameModel, input: Input)
    requires
        s.status is Playing,
        !side_exit(s.ball),
        s.ball.vx != 0,
        hits_paddle(
            integrated(s.ball),
            paddle_moved(s.player1, input.player1_up, input.player1_down, PADDLE_SPEED as int),
        ) || hits_paddle(
            integrated(s.ball),
            paddle_moved(s.player2, input.player2_up, input.player2_down, PADDLE_SPEED as int),
        ),
    ensures
        s.ball.vx > 0 ==> step(s, input).ball.vx < 0,
        s.ball.vx < 0 ==> step(s, input).ball.vx > 0,
{
}

/// Wall law: whenever, at the wall check, the ball's top edge is at or
/// above the top of the window or its bottom edge at or below the bottom,
/// the frame ends with the y-velocity it had there negated.
pub proof fn lemma_wall_bounce(s: GameModel, input: Input)
    requires
        s.status is Playing,
        !side_exit(s.ball),
        wall_contact(mid_ball(s, input)),
    ensures
        step(s, input).ball.vy == -mid_ball(s, input).vy,
        mid_ball(s, input).vy > 0 ==> step(s, input).ball.vy < 0,
        mid_ball(s, input).vy < 0 ==> step(s, input).ball.vy > 0,
{
}

/// Termination law, entry: a playing frame that starts with the ball at or
/// beyond a side boundary ends the match at once — the right winner is
/// declared and no position is updated.
pub proof fn lemma_side_exit_ends_match(s: GameModel, input: Input)
    requires
        s.status is Playing,
        side_exit(s.ball),
    ensures
        step(s, input).status is Ended,
        step(s, input).ball == s.ball,
        step(s, input).player1 == s.player1,
        step(s, input).player2 == s.player2,
        s.ball.x <= 0 ==> step(s, input).status == Status::Ended(Winner::PlayerTwo),
        s.ball.x > 0 ==> step(s, input).status == Status::Ended(Winner::PlayerOne),
{
}

/// Termination law, rest: `Ended` is terminal. A frame step of an ended
/// match changes nothing at all, whatever keys are held.
pub proof fn lemma_ended_is_terminal(s: GameModel, input: Input)
    requires
        s.status is Ended,
    ensures
        step(s, input) == s,
{
}

} // verus!
