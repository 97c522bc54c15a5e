//! The three value pairs that every entity is made of.

use vstd::prelude::*;

verus! {

/// A point of the window. The x axis runs to the right, the y axis downwards,
/// and the window's top-left corner is the origin.
#[derive(Clone, Copy, Debug, PartialEq, Eq, Structural)]
pub struct PositionVec2 {
    pub x: i64,
    pub y: i64,
}

/// The extent of a rectangle.
#[derive(Clone, Copy, Debug, PartialEq, Eq, Structural)]
pub struct SizeVec2 {
    pub width: i64,
    pub height: i64,
}

/// A displacement per tick. The sign of a component is its direction.
#[derive(Clone, Copy, Debug, PartialEq, Eq, Structural)]
pub struct VelocityVec2 {
    pub x: i64,
    pub y: i64,
}

impl PositionVec2 {
    pub fn new(x: i64, y: i64) -> (p: Self)
        ensures
            p == (PositionVec2 { x, y }),
    {
        PositionVec2 { x, y }
    }
}

impl SizeVec2 {
    pub fn new(width: i64, height: i64) -> (s: Self)
        ensures
            s == (SizeVec2 { width, height }),
    {
        SizeVec2 { width, height }
    }
}

impl VelocityVec2 {
    pub fn new(x: i64, y: i64) -> (v: Self)
        ensures
            v == (VelocityVec2 { x, y }),
    {
        VelocityVec2 { x, y }
    }
}

} // verus!
