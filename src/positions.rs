use vstd::prelude::*;
use crate::vec2::Vec2;

verus! {

/// Where an entity's center stands.
#[derive(Clone, Copy, Debug, PartialEq, Eq, Structural)]
pub struct Position(pub Vec2);

/// How far an entity moves per unit of its speed, on each axis.
#[derive(Clone, Copy, Debug, PartialEq, Eq, Structural)]
pub struct Velocity(pub Vec2);

/// An entity's size: the full width and height of a box, or, for the
/// ball, its radius on `x`.
#[derive(Clone, Copy, Debug, PartialEq, Eq, Structural)]
pub struct Shape(pub Vec2);

} // verus!
