//! Plain geometry for the drawing API.
//!
//! Scalars are fixed-point (see [`crate::fixed`]).  A transform is kept
//! as the 3x3 matrix the script supplied together with the point it is
//! to be applied about; the renderer backend performs the conjugation
//! when it replays a command, so no matrix arithmetic happens here.

use vstd::prelude::*;
use crate::fixed::{div_trunc, trunc_div, SCALE};

verus! {

/// A 2D point or extent, fixed-point.
#[derive(Clone, Copy, Debug, PartialEq, Eq, Structural)]
pub struct Vector {
    pub x: i64,
    pub y: i64,
}

impl Vector {
    /// Builds a vector from its two components.
    pub fn new(x: i64, y: i64) -> (r: Vector)
        ensures
            r == (Vector { x, y }),
    {
        Vector { x, y }
    }

    /// The origin.
    pub fn zero() -> (r: Vector)
        ensures
            r == (Vector { x: 0, y: 0 }),
    {
        Vector { x: 0, y: 0 }
    }

    /// True when both components are small enough to have arrived from
    /// a script.
    pub open spec fn in_range(self) -> bool {
        crate::fixed::num_in_range(self.x as int) && crate::fixed::num_in_range(self.y as int)
    }
}

/// An axis-aligned rectangle: top-left corner and extent.
#[derive(Clone, Copy, Debug, PartialEq, Eq, Structural)]
pub struct Rectangle {
    pub pos: Vector,
    pub size: Vector,
}

/// The centre of a rectangle: `pos + size / 2`, componentwise, with
/// truncating division.
pub open spec fn rect_center(r: Rectangle) -> Vector {
    Vector {
        x: (r.pos.x + trunc_div(r.size.x as int, 2)) as i64,
        y: (r.pos.y + trunc_div(r.size.y as int, 2)) as i64,
    }
}

impl Rectangle {
    /// Builds a rectangle from corner and extent.
    pub fn new(pos: Vector, size: Vector) -> (r: Rectangle)
        ensures
            r == (Rectangle { pos, size }),
    {
        Rectangle { pos, size }
    }

    pub open spec fn in_range(self) -> bool {
        self.pos.in_range() && self.size.in_range()
    }

    /// The centre point of the rectangle.
    pub fn center(&self) -> (r: Vector)
        requires
            self.in_range(),
        ensures
            r == rect_center(*self),
    {
        Vector { x: self.pos.x + div_trunc(self.size.x, 2), y: self.pos.y + div_trunc(self.size.y, 2) }
    }
}

/// A circle: centre and radius.
#[derive(Clone, Copy, Debug, PartialEq, Eq, Structural)]
pub struct Circle {
    pub center: Vector,
    pub radius: i64,
}

/// A triangle given by its three corners.
#[derive(Clone, Copy, Debug, PartialEq, Eq, Structural)]
pub struct Triangle {
    pub a: Vector,
    pub b: Vector,
    pub c: Vector,
}

/// The centroid of a triangle: the componentwise mean of its corners,
/// with truncating division.
pub open spec fn triangle_centroid(t: Triangle) -> Vector {
    Vector {
        x: trunc_div(t.a.x + t.b.x + t.c.x, 3) as i64,
        y: trunc_div(t.a.y + t.b.y + t.c.y, 3) as i64,
    }
}

impl Triangle {
    pub open spec fn in_range(self) -> bool {
        self.a.in_range() && self.b.in_range() && self.c.in_range()
    }

    /// The centroid, about which a transform on the triangle is applied.
    pub fn centroid(&self) -> (r: Vector)
        requires
            self.in_range(),
        ensures
            r == triangle_centroid(*self),
    {
        Vector {
            x: div_trunc(self.a.x + self.b.x + self.c.x, 3),
            y: div_trunc(self.a.y + self.b.y + self.c.y, 3),
        }
    }
}

/// An RGBA color; each channel is fixed-point with `SCALE` meaning full
/// intensity.
#[derive(Clone, Copy, Debug, PartialEq, Eq, Structural)]
pub struct Color {
    pub r: i64,
    pub g: i64,
    pub b: i64,
    pub a: i64,
}

/// Opaque black, the surface-clearing color.
pub open spec fn color_black() -> Color {
    Color { r: 0, g: 0, b: 0, a: SCALE }
}

/// Opaque red, the default shape color.
pub open spec fn color_red() -> Color {
    Color { r: SCALE, g: 0, b: 0, a: SCALE }
}

impl Color {
    /// Opaque black.
    pub fn black() -> (c: Color)
        ensures
            c == color_black(),
    {
        Color { r: 0, g: 0, b: 0, a: SCALE }
    }

    /// Opaque red.
    pub fn red() -> (c: Color)
        ensures
            c == color_red(),
    {
        Color { r: SCALE, g: 0, b: 0, a: SCALE }
    }
}

/// A row of a 3x3 transform matrix.
#[derive(Clone, Copy, Debug, PartialEq, Eq, Structural)]
pub struct TransformRow {
    pub x: i64,
    pub y: i64,
    pub z: i64,
}

/// A 3x3 matrix as the script supplied it, row-major, fixed-point
/// (the identity has `SCALE` on the diagonal).
#[derive(Clone, Copy, Debug, PartialEq, Eq, Structural)]
pub struct Transform {
    pub r0: TransformRow,
    pub r1: TransformRow,
    pub r2: TransformRow,
}

/// The identity transform.
pub open spec fn transform_identity() -> Transform {
    Transform {
        r0: TransformRow { x: SCALE, y: 0, z: 0 },
        r1: TransformRow { x: 0, y: SCALE, z: 0 },
        r2: TransformRow { x: 0, y: 0, z: SCALE },
    }
}

impl Transform {
    /// The identity transform.
    pub fn identity() -> (t: Transform)
        ensures
            t == transform_identity(),
    {
        Transform {
            r0: TransformRow { x: SCALE, y: 0, z: 0 },
            r1: TransformRow { x: 0, y: SCALE, z: 0 },
            r2: TransformRow { x: 0, y: 0, z: SCALE },
        }
    }
}

/// A transform paired with the point it is applied about: the renderer
/// conjugates the matrix by a translation to that point when replaying.
#[derive(Clone, Copy, Debug, PartialEq, Eq, Structural)]
pub struct AnchoredTransform {
    pub transform: Transform,
    pub about: Vector,
}

/// Anchors a transform at a shape's own centre, so that it acts about
/// the shape rather than about the origin.
pub fn shape_transform(trans: Transform, center: Vector) -> (r: AnchoredTransform)
    ensures
        r == (AnchoredTransform { transform: trans, about: center }),
{
    AnchoredTransform { transform: trans, about: center }
}

} // verus!
