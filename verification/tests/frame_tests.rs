use pong::game::{Ball, GameState, Input, Paddle, Status, Winner};
use pong::geom::Rect;

fn no_keys() -> Input {
    Input { player1_up: false, player1_down: false, player2_up: false, player2_down: false }
}

/// A playing state whose ball is far from both paddles and both walls.
fn quiet_state() -> GameState {
    GameState {
        player1: Paddle { x: 4500, y: 20000, w: 16, h: 64 },
        player2: Paddle { x: 59500, y: 20000, w: 16, h: 64 },
        ball: Ball { x: 320, y: 240, vx: 5, vy: 0, w: 1, h: 1 },
        status: Status::Playing,
    }
}

#[test]
fn ball_advances_by_velocity() {
    let mut s = quiet_state();
    s.ball = Ball { x: 320, y: 240, vx: 5, vy: 0, w: 1, h: 1 };
    s.update(no_keys());
    assert_eq!(s.ball.x, 325);
    assert_eq!(s.ball.y, 240);
    assert_eq!(s.ball.vx, 5);
    assert_eq!(s.ball.vy, 0);
    assert_eq!(s.status, Status::Playing);
}

#[test]
fn ball_advances_by_velocity_full_scale() {
    let mut s = quiet_state();
    s.ball = Ball { x: 32000, y: 24000, vx: 500, vy: 0, w: 1, h: 1 };
    s.update(no_keys());
    assert_eq!(s.ball.x, 32500);
    assert_eq!(s.ball.y, 24000);
}

#[test]
fn reflection_flips_positive_x_velocity() {
    let mut s = quiet_state();
    s.ball = Ball { x: 1500, y: 20500, vx: 400, vy: 0, w: 1, h: 1 };
    s.update(no_keys());
    // Integrated to x = 1900, inside paddle one's box: reflected and
    // accelerated by 5 units against the direction of travel.
    assert_eq!(s.ball.vx, -405);
    assert!(s.ball.vx < 0);
}

#[test]
fn reflection_flips_negative_x_velocity() {
    let mut s = quiet_state();
    s.ball = Ball { x: 53500, y: 20500, vx: -400, vy: 0, w: 1, h: 1 };
    s.update(no_keys());
    // Integrated to x = 53100, inside paddle two's box.
    assert_eq!(s.ball.vx, 405);
    assert!(s.ball.vx > 0);
}

#[test]
fn reflection_adds_spin_from_strike_offset() {
    let mut s = quiet_state();
    s.ball = Ball { x: 1500, y: 20500, vx: 400, vy: 0, w: 1, h: 1 };
    s.update(no_keys());
    // Paddle centre 23200, ball centre 20550: offset (23200 - 20550) / 64
    // truncates to 41, and the spin constant doubles it downward.
    assert_eq!(s.ball.vy, -82);
}

#[test]
fn spin_vanishes_at_centre_strike() {
    let mut s = quiet_state();
    s.player1 = Paddle { x: 4500, y: 23000, w: 64, h: 64 };
    s.ball = Ball { x: 1000, y: 26150, vx: 400, vy: 0, w: 1, h: 1 };
    s.update(no_keys());
    // Ball centre equals paddle centre (26200): zero offset, no spin.
    assert_eq!(s.ball.vx, -405);
    assert_eq!(s.ball.vy, 0);
}

#[test]
fn spin_drops_ball_struck_below_centre() {
    let mut s = quiet_state();
    s.player1 = Paddle { x: 4500, y: 23000, w: 64, h: 64 };
    s.ball = Ball { x: 1000, y: 27000, vx: 400, vy: 0, w: 1, h: 1 };
    s.update(no_keys());
    // Offset (26200 - 27050) / 64 truncates toward zero to -13.
    assert_eq!(s.ball.vy, 26);
}

#[test]
fn spin_lifts_ball_struck_above_centre() {
    let mut s = quiet_state();
    s.player1 = Paddle { x: 4500, y: 23000, w: 64, h: 64 };
    s.ball = Ball { x: 1000, y: 25000, vx: 400, vy: 0, w: 1, h: 1 };
    s.update(no_keys());
    // Offset (26200 - 25050) / 64 truncates to 17.
    assert_eq!(s.ball.vy, -34);
}

#[test]
fn paddle_up_moves_by_speed() {
    let mut p = Paddle { x: 0, y: 100, w: 16, h: 64 };
    p.apply_input(true, false, 8);
    assert_eq!(p.y, 92);
}

#[test]
fn paddle_down_moves_by_speed() {
    let mut p = Paddle { x: 0, y: 100, w: 16, h: 64 };
    p.apply_input(false, true, 8);
    assert_eq!(p.y, 108);
}

#[test]
fn paddle_may_leave_the_window() {
    let mut p = Paddle { x: 0, y: 4, w: 16, h: 64 };
    p.apply_input(true, false, 8);
    assert_eq!(p.y, -4);
}

#[test]
fn paddle_both_keys_cancel() {
    let mut p = Paddle { x: 0, y: 100, w: 16, h: 64 };
    p.apply_input(true, true, 8);
    assert_eq!(p.y, 100);
}

#[test]
fn update_moves_paddles_by_held_keys() {
    let mut s = quiet_state();
    let keys = Input { player1_up: false, player1_down: true, player2_up: true, player2_down: false };
    s.update(keys);
    assert_eq!(s.player1.y, 20600);
    assert_eq!(s.player2.y, 19400);
}

#[test]
fn top_wall_flips_y_velocity() {
    let mut s = quiet_state();
    s.ball = Ball { x: 10000, y: 50, vx: 400, vy: -100, w: 1, h: 1 };
    s.update(no_keys());
    assert_eq!(s.ball.y, -50);
    assert_eq!(s.ball.vy, 100);
}

#[test]
fn bottom_wall_flips_y_velocity() {
    let mut s = quiet_state();
    s.ball = Ball { x: 10000, y: 47800, vx: 400, vy: 150, w: 1, h: 1 };
    s.update(no_keys());
    // Integrated bottom edge 47950 + 100 reaches the window height.
    assert_eq!(s.ball.y, 47950);
    assert_eq!(s.ball.vy, -150);
}

#[test]
fn left_exit_ends_match_player_two_wins() {
    let mut s = quiet_state();
    s.ball = Ball { x: 0, y: 24000, vx: -400, vy: 7, w: 1, h: 1 };
    let before = s.ball;
    s.update(no_keys());
    assert_eq!(s.status, Status::Ended(Winner::PlayerTwo));
    assert_eq!(s.ball, before);
}

#[test]
fn right_exit_ends_match_player_one_wins() {
    let mut s = quiet_state();
    s.ball = Ball { x: 64000, y: 24000, vx: 400, vy: 0, w: 1, h: 1 };
    s.update(no_keys());
    assert_eq!(s.status, Status::Ended(Winner::PlayerOne));
    assert_eq!(s.ball.x, 64000);
}

#[test]
fn ended_match_is_frozen() {
    let mut s = quiet_state();
    s.ball = Ball { x: 0, y: 24000, vx: -400, vy: 7, w: 1, h: 1 };
    s.update(no_keys());
    let ended = s;
    let keys = Input { player1_up: true, player1_down: false, player2_up: false, player2_down: true };
    s.update(keys);
    assert_eq!(s, ended);
}

#[test]
fn new_builds_initial_state() {
    let s = GameState::new(16, 64, 16, 64, 10, 10).unwrap();
    assert_eq!(s.player1, Paddle { x: 4500, y: 17600, w: 16, h: 64 });
    assert_eq!(s.player2, Paddle { x: 59500, y: 17600, w: 16, h: 64 });
    assert_eq!(s.ball, Ball { x: 31500, y: 23500, vx: 400, vy: 0, w: 10, h: 10 });
    assert_eq!(s.status, Status::Playing);
    assert!(s.is_in_bounds());
}

#[test]
fn new_rejects_zero_dimension() {
    assert!(GameState::new(16, 0, 16, 64, 10, 10).is_none());
    assert!(GameState::new(16, 64, 16, 64, 0, 10).is_none());
}

#[test]
fn new_rejects_negative_dimension() {
    assert!(GameState::new(-16, 64, 16, 64, 10, 10).is_none());
}

#[test]
fn new_rejects_oversized_dimension() {
    assert!(GameState::new(16, 64, 16, 2_000_000, 10, 10).is_none());
}

#[test]
fn rect_overlap_detected() {
    let a = Rect::new(0, 0, 10, 10);
    let b = Rect::new(5, 5, 10, 10);
    assert!(a.intersects(&b));
    assert!(b.intersects(&a));
}

#[test]
fn rect_touching_edges_do_not_intersect() {
    let a = Rect::new(0, 0, 10, 10);
    let right = Rect::new(10, 0, 10, 10);
    let below = Rect::new(0, 10, 10, 10);
    let corner = Rect::new(10, 10, 10, 10);
    assert!(!a.intersects(&right));
    assert!(!a.intersects(&below));
    assert!(!a.intersects(&corner));
}

#[test]
fn rect_disjoint_do_not_intersect() {
    let a = Rect::new(0, 0, 10, 10);
    let b = Rect::new(30, 40, 10, 10);
    assert!(!a.intersects(&b));
}

#[test]
fn paddle_bounds_swap_sprite_axes() {
    let p = Paddle { x: 4500, y: 20000, w: 16, h: 64 };
    assert_eq!(p.bounds(), Rect { x: -1900, y: 20000, w: 6400, h: 1600 });
}

#[test]
fn ball_bounds_match_sprite() {
    let b = Ball { x: 320, y: 240, vx: 5, vy: 0, w: 10, h: 12 };
    assert_eq!(b.bounds(), Rect { x: 320, y: 240, w: 1000, h: 1200 });
}

#[test]
fn centres_sit_half_a_sprite_below_origin() {
    let p = Paddle { x: 4500, y: 20000, w: 16, h: 64 };
    let b = Ball { x: 320, y: 240, vx: 5, vy: 0, w: 10, h: 12 };
    assert_eq!(p.centre(), 23200);
    assert_eq!(b.centre(), 840);
}

#[test]
fn is_in_bounds_accepts_playable_state() {
    assert!(quiet_state().is_in_bounds());
}

#[test]
fn is_in_bounds_rejects_runaway_state() {
    let mut s = quiet_state();
    s.ball.vy = 2_000_000_000_000_000;
    assert!(!s.is_in_bounds());
}
