//! A Pong game's rules on an integer playfield: ball movement, paddle
//! control, circle-against-box collision and scoring.
//!
//! Coordinates are whole world units, with the origin at the center of the
//! window. The engine that draws the game, reads the keyboard, stores the
//! entities and runs the frame's systems in order lives outside this crate.

/// Plain 2D vectors.
pub mod vec2;
/// Where entities stand, how they move and how large they are.
pub mod positions;
/// The ball striking walls and paddles.
pub mod collision;
/// The ball's creation and flight.
pub mod ball;
/// The walls along the top and bottom of the playfield.
pub mod gutter;
/// The paddles and the player's control of them.
pub mod paddle;
/// Points won when the ball leaves the playfield.
pub mod scoring;

pub use ball::{move_ball, BallBundle, BALL_SIZE, BALL_SPEED};
pub use collision::{
    bounce, collide_with_side, handle_collisions, Aabb2d, BoundingCircle, Collision, Point,
};
pub use gutter::{gutter_bundles, GutterBundle, GUTTER_HEIGHT};
pub use paddle::{
    handle_player_input, move_paddle, paddle_bundles, paddle_max_y, PaddleBundle, PADDLE_HEIGHT,
    PADDLE_PADDING, PADDLE_SPEED, PADDLE_WIDTH,
};
pub use positions::{Position, Shape, Velocity};
pub use scoring::{detect_scoring, reset_ball, update_score, Score, Scored, Scorer};
pub use vec2::Vec2;
