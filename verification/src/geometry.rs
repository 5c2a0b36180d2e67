//! Points and sizes in whole scene units.

use vstd::prelude::*;

verus! {

/// A place in the scene. `x` grows to the right and `y` grows downwards.
#[derive(Clone, Copy, Debug, PartialEq, Eq, Structural)]
pub struct Point {
    pub x: i32,
    pub y: i32,
}

/// The extent of an object's footprint in the scene.
#[derive(Clone, Copy, Debug, PartialEq, Eq, Structural)]
pub struct Size {
    pub width: u32,
    pub height: u32,
}

/// Horizontal coordinate of the middle of a footprint.
pub open spec fn anchor_x(position: Point, size: Size) -> int {
    position.x + size.width / 2
}

/// Vertical coordinate of the lower edge of a footprint.
pub open spec fn anchor_y(position: Point, size: Size) -> int {
    position.y + size.height
}

/// Whether the middle of a footprint's lower edge is a point of the scene.
pub open spec fn anchor_fits(position: Point, size: Size) -> bool {
    anchor_x(position, size) <= i32::MAX && anchor_y(position, size) <= i32::MAX
}

/// The middle of the lower edge of a footprint, where its countdown hangs.
pub open spec fn anchor(position: Point, size: Size) -> Point
    recommends
        anchor_fits(position, size),
{
    Point { x: anchor_x(position, size) as i32, y: anchor_y(position, size) as i32 }
}

impl Point {
    pub fn new(x: i32, y: i32) -> (point: Point)
        ensures
            point == (Point { x, y }),
    {
        Point { x, y }
    }
}

impl Size {
    pub fn new(width: u32, height: u32) -> (size: Size)
        ensures
            size == (Size { width, height }),
    {
        Size { width, height }
    }

    /// The empty footprint.
    pub fn zero() -> (size: Size)
        ensures
            size == (Size { width: 0, height: 0 }),
    {
        Size { width: 0, height: 0 }
    }
}

/// Whether `anchor` can be computed for this footprint.
pub fn footprint_fits(position: Point, size: Size) -> (fits: bool)
    ensures
        fits == anchor_fits(position, size),
{
    let x: i64 = position.x as i64 + (size.width / 2) as i64;
    let y: i64 = position.y as i64 + size.height as i64;
    x <= i32::MAX as i64 && y <= i32::MAX as i64
}

/// The middle of the lower edge of a footprint.
pub fn footprint_anchor(position: Point, size: Size) -> (point: Point)
    requires
        anchor_fits(position, size),
    ensures
        point == anchor(position, size),
{
    let x: i64 = position.x as i64 + (size.width / 2) as i64;
    let y: i64 = position.y as i64 + size.height as i64;
    Point { x: x as i32, y: y as i32 }
}

} // verus!
