use vstd::prelude::*;
use crate::vec2::Vec2;
use crate::positions::{Position, Shape};

verus! {

/// The height of the walls along the top and bottom of the playfield.
pub const GUTTER_HEIGHT: i32 = 20;

/// What a wall entity is made of.
#[derive(Clone, Copy, Debug, PartialEq, Eq, Structural)]
pub struct GutterBundle {
    pub shape: Shape,
    pub position: Position,
}

/// A wall centered on `(x, y)`, `width` wide.
pub open spec fn gutter_at(x: i32, y: i32, width: i32) -> GutterBundle {
    GutterBundle {
        shape: Shape(Vec2 { x: width, y: GUTTER_HEIGHT }),
        position: Position(Vec2 { x, y }),
    }
}

impl GutterBundle {
    /// A wall centered on `(x, y)`, `width` wide.
    pub fn new(x: i32, y: i32, width: i32) -> (r: Self)
        ensures
            r == gutter_at(x, y, width),
    {
        GutterBundle {
            shape: Shape(Vec2::new(width, GUTTER_HEIGHT)),
            position: Position(Vec2::new(x, y)),
        }
    }
}

/// The top and bottom walls of a window of the given size, each as wide
/// as the window and lying just inside its edge.
pub fn gutter_bundles(window_width: u32, window_height: u32) -> (r: (GutterBundle, GutterBundle))
    requires
        window_width <= i32::MAX,
    ensures
        r.0 == gutter_at(0, (window_height / 2 - GUTTER_HEIGHT / 2) as i32, window_width as i32),
        r.1 == gutter_at(0, (GUTTER_HEIGHT / 2 - window_height / 2) as i32, window_width as i32),
{
    let half = (window_height / 2) as i32;
    let top = GutterBundle::new(0, half - GUTTER_HEIGHT / 2, window_width as i32);
    let bottom = GutterBundle::new(0, -half + GUTTER_HEIGHT / 2, window_width as i32);
    (top, bottom)
}

} // verus!
