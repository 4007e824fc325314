//! Verified core of a two-paddle pong game.
//!
//! The library holds the whole per-frame simulation: integrating the ball,
//! moving the paddles from the held keys, resolving paddle and wall
//! collisions, and ending the match when the ball leaves a side of the
//! window. Positions and velocities are kept in fixed-point units of one
//! hundredth of a pixel, so the fractional speed constants are exact
//! integers. A host loop polls the keyboard, hands the key state in, and
//! renders the resulting positions; none of that enters the library.

pub mod game;
pub mod geom;
pub mod laws;
