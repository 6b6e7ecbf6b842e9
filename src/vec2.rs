use vstd::prelude::*;

verus! {

/// A 2D vector of whole world units.
#[derive(Clone, Copy, Debug, PartialEq, Eq, Structural)]
pub struct Vec2 {
    pub x: i32,
    pub y: i32,
}

/// Whether `n` fits in an `i32`.
pub open spec fn fits_i32(n: int) -> bool {
    i32::MIN <= n <= i32::MAX
}

impl Vec2 {
    /// The vector as a pair of mathematical integers.
    pub open spec fn view(self) -> (int, int) {
        (self.x as int, self.y as int)
    }

    pub fn new(x: i32, y: i32) -> (r: Vec2)
        ensures
            r.x == x,
            r.y == y,
    {
        Vec2 { x, y }
    }

    /// `self + v * speed`, computed exactly.
    pub fn add_scaled(self, v: Vec2, speed: i32) -> (r: Vec2)
        requires
            fits_i32(self.x + v.x * speed),
            fits_i32(self.y + v.y * speed),
        ensures
            r.x == self.x + v.x * speed,
            r.y == self.y + v.y * speed,
    {
        let x = self.x as i64 + v.x as i64 * speed as i64;
        let y = self.y as i64 + v.y as i64 * speed as i64;
        Vec2 { x: x as i32, y: y as i32 }
    }
}

} // verus!
