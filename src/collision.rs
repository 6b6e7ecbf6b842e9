use vstd::prelude::*;
use crate::vec2::Vec2;
use crate::positions::{Position, Shape, Velocity};

verus! {

/// A point of the collision plane.
///
/// The collision plane counts in half world units, so that a box whose
/// size is odd still has its edges on whole coordinates.
#[derive(Clone, Copy, Debug, PartialEq, Eq, Structural)]
pub struct Point {
    pub x: i64,
    pub y: i64,
}

/// A circle of the collision plane.
#[derive(Clone, Copy, Debug, PartialEq, Eq, Structural)]
pub struct BoundingCircle {
    pub center: Point,
    pub radius: i64,
}

/// An axis-aligned box of the collision plane, edges included.
#[derive(Clone, Copy, Debug, PartialEq, Eq, Structural)]
pub struct Aabb2d {
    pub min: Point,
    pub max: Point,
}

/// The side of a box that the ball struck.
#[derive(Clone, Copy, Debug, PartialEq, Eq, Structural)]
pub enum Collision {
    Left,
    Right,
    Top,
    Bottom,
}

pub open spec fn abs(n: int) -> int {
    if n < 0 { -n } else { n }
}

/// `v` held within `[lo, hi]`.
pub open spec fn clamp(v: int, lo: int, hi: int) -> int {
    if v < lo { lo } else if v > hi { hi } else { v }
}

impl Aabb2d {
    /// Neither extent of the box is negative.
    pub open spec fn wf(self) -> bool {
        self.min.x <= self.max.x && self.min.y <= self.max.y
    }
}

/// The ball's center minus the point of the box closest to it, on `x`.
pub open spec fn offset_x(ball: BoundingCircle, wall: Aabb2d) -> int {
    ball.center.x - clamp(ball.center.x as int, wall.min.x as int, wall.max.x as int)
}

/// The ball's center minus the point of the box closest to it, on `y`.
pub open spec fn offset_y(ball: BoundingCircle, wall: Aabb2d) -> int {
    ball.center.y - clamp(ball.center.y as int, wall.min.y as int, wall.max.y as int)
}

/// The circle and the box share at least one point.
pub open spec fn intersects(ball: BoundingCircle, wall: Aabb2d) -> bool {
    let dx = offset_x(ball, wall);
    let dy = offset_y(ball, wall);
    dx * dx + dy * dy <= ball.radius * ball.radius
}

/// The side named by an offset from the box: the dominant axis decides,
/// and equal magnitudes count as vertical.
pub open spec fn side_of(dx: int, dy: int) -> Collision {
    if abs(dx) > abs(dy) {
        if dx < 0 { Collision::Left } else { Collision::Right }
    } else if dy > 0 {
        Collision::Top
    } else {
        Collision::Bottom
    }
}

/// What the ball striking the box amounts to, if anything.
pub open spec fn collision_of(ball: BoundingCircle, wall: Aabb2d) -> Option<Collision> {
    if intersects(ball, wall) {
        Some(side_of(offset_x(ball, wall), offset_y(ball, wall)))
    } else {
        None
    }
}

/// `v` held within `[lo, hi]`.
fn clamp_i64(v: i64, lo: i64, hi: i64) -> (r: i64)
    requires
        lo <= hi,
    ensures
        r == clamp(v as int, lo as int, hi as int),
{
    if v < lo {
        lo
    } else if v > hi {
        hi
    } else {
        v
    }
}

/// Whether the ball strikes the box, and on which side.
pub fn collide_with_side(ball: BoundingCircle, wall: Aabb2d) -> (r: Option<Collision>)
    requires
        ball.radius >= 0,
        wall.wf(),
    ensures
        r == collision_of(ball, wall),
        !intersects(ball, wall) ==> r is None,
{
    let cx = clamp_i64(ball.center.x, wall.min.x, wall.max.x);
    let cy = clamp_i64(ball.center.y, wall.min.y, wall.max.y);
    let dx: i128 = ball.center.x as i128 - cx as i128;
    let dy: i128 = ball.center.y as i128 - cy as i128;
    let rad: i128 = ball.radius as i128;
    let adx: i128 = if dx < 0 { -dx } else { dx };
    let ady: i128 = if dy < 0 { -dy } else { dy };
    // An offset longer than the radius rules the box out at once, and
    // otherwise bounds the squares below well within `i128`.
    if adx > rad || ady > rad {
        proof {
            assert(dx * dx + dy * dy > rad * rad) by (nonlinear_arith)
                requires
                    adx == abs(dx as int),
                    ady == abs(dy as int),
                    adx > rad || ady > rad,
                    rad >= 0,
            ;
        }
        return None;
    }
    proof {
        assert(0 <= adx * adx <= rad * rad) by (nonlinear_arith)
            requires
                0 <= adx <= rad,
        ;
        assert(0 <= ady * ady <= rad * rad) by (nonlinear_arith)
            requires
                0 <= ady <= rad,
        ;
        assert(rad * rad <= 0x7fff_ffff_ffff_ffffi128 * 0x7fff_ffff_ffff_ffffi128) by (nonlinear_arith)
            requires
                0 <= rad <= 0x7fff_ffff_ffff_ffffi128,
        ;
        assert(adx * adx == dx * dx && ady * ady == dy * dy) by (nonlinear_arith)
            requires
                adx == abs(dx as int),
                ady == abs(dy as int),
        ;
    }
    if adx * adx + ady * ady > rad * rad {
        return None;
    }
    let side = if adx > ady {
        if dx < 0 {
            Collision::Left
        } else {
            Collision::Right
        }
    } else if dy > 0 {
        Collision::Top
    } else {
        Collision::Bottom
    };
    Some(side)
}

/// Whether `v` can have either component reversed within an `i32`.
pub open spec fn can_bounce(v: Vec2) -> bool {
    v.x != i32::MIN && v.y != i32::MIN
}

/// The velocity after striking `side`: the axis that the side faces is
/// reversed, the other kept.
pub open spec fn bounced(v: Vec2, side: Collision) -> Vec2 {
    match side {
        Collision::Left | Collision::Right => Vec2 { x: (-v.x) as i32, y: v.y },
        Collision::Top | Collision::Bottom => Vec2 { x: v.x, y: (-v.y) as i32 },
    }
}

/// The velocity after the ball met the box: reversed on one axis if it
/// struck it, kept otherwise.
pub open spec fn collided(v: Vec2, ball: BoundingCircle, wall: Aabb2d) -> Vec2 {
    match collision_of(ball, wall) {
        Some(side) => bounced(v, side),
        None => v,
    }
}

/// The ball as a circle of the collision plane: its radius is its shape's `x`.
pub open spec fn circle_of(position: Position, shape: Shape) -> BoundingCircle {
    BoundingCircle {
        center: Point { x: (2 * position.0.x) as i64, y: (2 * position.0.y) as i64 },
        radius: (2 * shape.0.x) as i64,
    }
}

/// A box entity as a box of the collision plane: its shape is its full
/// width and height around its position.
pub open spec fn box_of(position: Position, shape: Shape) -> Aabb2d {
    Aabb2d {
        min: Point {
            x: (2 * position.0.x - shape.0.x) as i64,
            y: (2 * position.0.y - shape.0.y) as i64,
        },
        max: Point {
            x: (2 * position.0.x + shape.0.x) as i64,
            y: (2 * position.0.y + shape.0.y) as i64,
        },
    }
}

/// Neither extent of the shape is negative.
pub open spec fn shape_ok(shape: Shape) -> bool {
    shape.0.x >= 0 && shape.0.y >= 0
}

/// The ball's velocity after meeting each box of `others`, in order.
pub open spec fn after_collisions(
    v: Vec2,
    ball: BoundingCircle,
    others: Seq<(Position, Shape)>,
) -> Vec2
    decreases others.len(),
{
    if others.len() == 0 {
        v
    } else {
        let (p, s) = others.last();
        collided(after_collisions(v, ball, others.drop_last()), ball, box_of(p, s))
    }
}

impl BoundingCircle {
    /// The circle of a ball at `position` with `shape`.
    pub fn of_ball(position: &Position, shape: &Shape) -> (r: BoundingCircle)
        requires
            shape.0.x >= 0,
        ensures
            r == circle_of(*position, *shape),
            r.radius >= 0,
    {
        BoundingCircle {
            center: Point { x: 2 * position.0.x as i64, y: 2 * position.0.y as i64 },
            radius: 2 * shape.0.x as i64,
        }
    }
}

impl Aabb2d {
    /// The box of an entity at `position` with `shape`.
    pub fn of_box(position: &Position, shape: &Shape) -> (r: Aabb2d)
        requires
            shape_ok(*shape),
        ensures
            r == box_of(*position, *shape),
            r.wf(),
    {
        let cx = 2 * position.0.x as i64;
        let cy = 2 * position.0.y as i64;
        let sx = shape.0.x as i64;
        let sy = shape.0.y as i64;
        Aabb2d { min: Point { x: cx - sx, y: cy - sy }, max: Point { x: cx + sx, y: cy + sy } }
    }
}

/// Reverses the axis of the velocity that `side` faces.
pub fn bounce(velocity: &mut Velocity, side: Collision)
    requires
        can_bounce(old(velocity).0),
    ensures
        final(velocity).0 == bounced(old(velocity).0, side),
        can_bounce(final(velocity).0),
{
    match side {
        Collision::Left | Collision::Right => velocity.0.x = -velocity.0.x,
        Collision::Top | Collision::Bottom => velocity.0.y = -velocity.0.y,
    }
}

/// Bounces the ball off every box in `others` that it currently touches,
/// one after another in the order given.
pub fn handle_collisions(
    velocity: &mut Velocity,
    ball_position: &Position,
    ball_shape: &Shape,
    others: &Vec<(Position, Shape)>,
)
    requires
        can_bounce(old(velocity).0),
        ball_shape.0.x >= 0,
        forall|i: int| 0 <= i < others.len() ==> shape_ok(#[trigger] others[i].1),
    ensures
        final(velocity).0 == after_collisions(
            old(velocity).0,
            circle_of(*ball_position, *ball_shape),
            others@,
        ),
{
    let ball = BoundingCircle::of_ball(ball_position, ball_shape);
    let mut i: usize = 0;
    while i < others.len()
        invariant
            0 <= i <= others.len(),
            ball == circle_of(*ball_position, *ball_shape),
            ball.radius >= 0,
            can_bounce(velocity.0),
            forall|j: int| 0 <= j < others.len() ==> shape_ok(#[trigger] others[j].1),
            velocity.0 == after_collisions(
                old(velocity).0,
                ball,
                others@.subrange(0, i as int),
            ),
        decreases others.len() - i,
    {
        let (position, shape) = &others[i];
        let wall = Aabb2d::of_box(position, shape);
        let hit = collide_with_side(ball, wall);
        if let Some(side) = hit {
            bounce(velocity, side);
        }
        proof {
            let next = others@.subrange(0, i + 1);
            assert(next.drop_last() =~= others@.subrange(0, i as int));
            assert(next.last() == others@[i as int]);
        }
        i = i + 1;
    }
    assert(others@.subrange(0, others.len() as int) =~= others@);
}

/// The point `(px, py)` lies within the circle, rim included.
pub open spec fn in_circle(ball: BoundingCircle, px: int, py: int) -> bool {
    (ball.center.x - px) * (ball.center.x - px) + (ball.center.y - py) * (ball.center.y - py)
        <= ball.radius * ball.radius
}

/// The point `(px, py)` lies within the box, edges included.
pub open spec fn in_box(wall: Aabb2d, px: int, py: int) -> bool {
    wall.min.x <= px <= wall.max.x && wall.min.y <= py <= wall.max.y
}

/// When no point of the box lies within the circle, the ball does not
/// strike it.
pub proof fn lemma_apart_means_no_collision(ball: BoundingCircle, wall: Aabb2d)
    requires
        wall.wf(),
        forall|px: int, py: int| in_box(wall, px, py) ==> !#[trigger] in_circle(ball, px, py),
    ensures
        collision_of(ball, wall) is None,
{
    let px = clamp(ball.center.x as int, wall.min.x as int, wall.max.x as int);
    let py = clamp(ball.center.y as int, wall.min.y as int, wall.max.y as int);
    assert(in_box(wall, px, py));
    assert(!in_circle(ball, px, py));
}

/// A ball that strikes a box has exactly one axis of its velocity
/// reversed: `x` when the horizontal offset from the box is strictly the
/// larger, `y` otherwise. Equal offsets count as a strike on the top or
/// bottom, and a center on the box counts as a strike on the bottom.
pub proof fn lemma_strike_reverses_one_axis(v: Vec2, ball: BoundingCircle, wall: Aabb2d)
    requires
        intersects(ball, wall),
        can_bounce(v),
    ensures
        collision_of(ball, wall) != None::<Collision>,
        abs(offset_x(ball, wall)) > abs(offset_y(ball, wall)) ==> (collided(v, ball, wall)
            == Vec2 { x: (-v.x) as i32, y: v.y }),
        abs(offset_x(ball, wall)) <= abs(offset_y(ball, wall)) ==> (collided(v, ball, wall)
            == Vec2 { x: v.x, y: (-v.y) as i32 }),
        abs(offset_x(ball, wall)) == abs(offset_y(ball, wall)) ==> (collision_of(ball, wall)
            == Some(Collision::Top) || collision_of(ball, wall) == Some(Collision::Bottom)),
        offset_x(ball, wall) == 0 && offset_y(ball, wall) == 0 ==> (collision_of(ball, wall)
            == Some(Collision::Bottom)),
{
}

} // verus!
