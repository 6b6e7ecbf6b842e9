use vstd::prelude::*;
use crate::vec2::{fits_i32, Vec2};
use crate::positions::{Position, Shape, Velocity};

verus! {

/// The ball's radius.
pub const BALL_SIZE: i32 = 5;

/// How far the ball goes per frame for each unit of its velocity.
pub const BALL_SPEED: i32 = 2;

/// What a ball entity is made of.
#[derive(Clone, Copy, Debug, PartialEq, Eq, Structural)]
pub struct BallBundle {
    pub shape: Shape,
    pub velocity: Velocity,
    pub position: Position,
}

impl BallBundle {
    /// A ball at the origin, moving with `velocity`.
    pub fn new(velocity: Vec2) -> (r: Self)
        ensures
            r.shape.0 == (Vec2 { x: BALL_SIZE, y: BALL_SIZE }),
            r.velocity.0 == velocity,
            r.position.0 == (Vec2 { x: 0, y: 0 }),
    {
        BallBundle {
            shape: Shape(Vec2::new(BALL_SIZE, BALL_SIZE)),
            velocity: Velocity(velocity),
            position: Position(Vec2::new(0, 0)),
        }
    }
}

/// One frame's move: `p + v * speed`.
pub open spec fn step(p: (int, int), v: (int, int), speed: int) -> (int, int) {
    (p.0 + v.0 * speed, p.1 + v.1 * speed)
}

/// Where the ball stands after `n` frames of free flight from `p` with `v`.
pub open spec fn frames(p: (int, int), v: (int, int), n: nat) -> (int, int)
    decreases n,
{
    if n == 0 {
        p
    } else {
        step(frames(p, v, (n - 1) as nat), v, BALL_SPEED as int)
    }
}

/// The ball's next position fits the coordinate type.
pub open spec fn can_move_ball(p: Vec2, v: Vec2) -> bool {
    fits_i32(p.x + v.x * BALL_SPEED) && fits_i32(p.y + v.y * BALL_SPEED)
}

/// Moves the ball one frame along its velocity. The position is not held
/// within the playfield.
pub fn move_ball(position: &mut Position, velocity: &Velocity)
    requires
        can_move_ball(old(position).0, velocity.0),
    ensures
        final(position).0@ == step(old(position).0@, velocity.0@, BALL_SPEED as int),
        final(position).0@ == frames(old(position).0@, velocity.0@, 1),
{
    position.0 = position.0.add_scaled(velocity.0, BALL_SPEED);
    proof {
        reveal_with_fuel(frames, 2);
    }
}

/// After `n` frames of free flight with velocity `v`, the ball has moved by
/// exactly `v * BALL_SPEED * n`.
pub proof fn lemma_frames_without_collisions(p: (int, int), v: (int, int), n: nat)
    ensures
        frames(p, v, n) == (p.0 + v.0 * BALL_SPEED * n, p.1 + v.1 * BALL_SPEED * n),
    decreases n,
{
    let s = BALL_SPEED as int;
    if n == 0 {
        assert(v.0 * s * n == 0 && v.1 * s * n == 0) by (nonlinear_arith)
            requires
                n == 0,
        ;
    } else {
        lemma_frames_without_collisions(p, v, (n - 1) as nat);
        assert(v.0 * s * (n - 1) + v.0 * s == v.0 * s * n) by (nonlinear_arith);
        assert(v.1 * s * (n - 1) + v.1 * s == v.1 * s * n) by (nonlinear_arith);
    }
}

} // verus!
