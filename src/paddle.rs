use vstd::prelude::*;
use crate::vec2::{fits_i32, Vec2};
use crate::positions::{Position, Shape, Velocity};
use crate::collision::abs;
use crate::gutter::GUTTER_HEIGHT;

verus! {

/// A paddle's full width.
pub const PADDLE_WIDTH: i32 = 10;

/// A paddle's full height.
pub const PADDLE_HEIGHT: i32 = 50;

/// How far a paddle goes per frame for each unit of its velocity.
pub const PADDLE_SPEED: i32 = 5;

/// The distance from a side of the window to the paddle in front of it.
pub const PADDLE_PADDING: i32 = 50;

/// What a paddle entity is made of.
#[derive(Clone, Copy, Debug, PartialEq, Eq, Structural)]
pub struct PaddleBundle {
    pub shape: Shape,
    pub position: Position,
    pub velocity: Velocity,
}

/// A paddle at rest, centered on `(x, y)`.
pub open spec fn paddle_at(x: i32, y: i32) -> PaddleBundle {
    PaddleBundle {
        shape: Shape(Vec2 { x: PADDLE_WIDTH, y: PADDLE_HEIGHT }),
        position: Position(Vec2 { x, y }),
        velocity: Velocity(Vec2 { x: 0, y: 0 }),
    }
}

impl PaddleBundle {
    /// A paddle at rest, centered on `(x, y)`.
    pub fn new(x: i32, y: i32) -> (r: Self)
        ensures
            r == paddle_at(x, y),
    {
        PaddleBundle {
            shape: Shape(Vec2::new(PADDLE_WIDTH, PADDLE_HEIGHT)),
            position: Position(Vec2::new(x, y)),
            velocity: Velocity(Vec2::new(0, 0)),
        }
    }
}

/// The player's paddle, on the right, and the other one, on the left, of a
/// window `window_width` wide; both on the horizontal midline.
pub fn paddle_bundles(window_width: u32) -> (r: (PaddleBundle, PaddleBundle))
    ensures
        r.0 == paddle_at((window_width / 2 - PADDLE_PADDING) as i32, 0),
        r.1 == paddle_at((PADDLE_PADDING - window_width / 2) as i32, 0),
{
    let half = (window_width / 2) as i32;
    let player = PaddleBundle::new(half - PADDLE_PADDING, 0);
    let ai = PaddleBundle::new(-half + PADDLE_PADDING, 0);
    (player, ai)
}

/// The vertical velocity that the player's intents ask for; up wins when
/// both are held.
pub open spec fn input_velocity_y(up: bool, down: bool) -> i32 {
    if up {
        1
    } else if down {
        -1i32
    } else {
        0
    }
}

/// Sets the paddle's vertical velocity from the player's intents to move
/// up and to move down. The horizontal velocity is kept.
pub fn handle_player_input(up: bool, down: bool, velocity: &mut Velocity)
    ensures
        final(velocity).0.x == old(velocity).0.x,
        final(velocity).0.y == input_velocity_y(up, down),
        final(velocity).0.y == -1 || final(velocity).0.y == 0 || final(velocity).0.y == 1,
{
    if up {
        velocity.0.y = 1;
    } else if down {
        velocity.0.y = -1;
    } else {
        velocity.0.y = 0;
    }
}

/// How far from the midline a paddle's center may go in a window
/// `window_height` high: half the height, less a wall and half a paddle.
pub open spec fn max_y_of(window_height: u32) -> int {
    window_height / 2 - GUTTER_HEIGHT - PADDLE_HEIGHT / 2
}

/// How far from the midline a paddle's center may go in a window
/// `window_height` high.
pub fn paddle_max_y(window_height: u32) -> (r: i32)
    ensures
        r == max_y_of(window_height),
{
    (window_height / 2) as i32 - GUTTER_HEIGHT - PADDLE_HEIGHT / 2
}

/// Where a paddle stands after one frame: it takes its step only if the
/// step ends strictly within `max_y` of the midline, and otherwise stays.
pub open spec fn paddle_moved(p: (int, int), v: (int, int), max_y: int) -> (int, int) {
    let next = (p.0 + v.0 * PADDLE_SPEED, p.1 + v.1 * PADDLE_SPEED);
    if abs(next.1) < max_y {
        next
    } else {
        p
    }
}

/// Moves a paddle one frame along its velocity, unless that would take it
/// to `max_y` from the midline or beyond, in which case it stays put.
pub fn move_paddle(position: &mut Position, velocity: &Velocity, max_y: i32)
    requires
        fits_i32(old(position).0.x + velocity.0.x * PADDLE_SPEED),
    ensures
        final(position).0@ == paddle_moved(old(position).0@, velocity.0@, max_y as int),
        abs(old(position).0.y + velocity.0.y * PADDLE_SPEED) >= max_y ==> *final(position)
            == *old(position),
{
    let x = position.0.x as i64 + velocity.0.x as i64 * PADDLE_SPEED as i64;
    let y = position.0.y as i64 + velocity.0.y as i64 * PADDLE_SPEED as i64;
    let ay = if y < 0 { -y } else { y };
    if ay < max_y as i64 {
        position.0 = Vec2::new(x as i32, y as i32);
    }
}

} // verus!
