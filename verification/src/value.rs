//! Script-facing values and argument parsing.
//!
//! Arguments reach the API as a small dynamic value type: numbers are
//! already fixed-point, strings and lists are plain, and anything the
//! host cannot read is [`Value::Other`].  Each parser normalizes one
//! duck-typed argument shape into a geometry type, or reports exactly
//! which shape was expected.

use vstd::prelude::*;
use crate::fixed::{num_in_range, NUM_LIMIT};
use crate::geom::{Color, Rectangle, Transform, TransformRow, Triangle, Vector};

verus! {

/// A value handed to an API call by the script.
#[derive(Debug)]
pub enum Value {
    /// A number, fixed-point.
    Num(i64),
    /// A string.
    Text(String),
    /// A list or tuple of values.
    List(Vec<Value>),
    /// A value of a kind the API cannot read.
    Other,
}

/// Why an argument was rejected.
#[derive(Clone, Copy, Debug, PartialEq, Eq, Structural)]
pub enum ArgError {
    /// A number was expected.
    ExpectedNumber,
    /// The number is too large in magnitude for the host's fixed-point
    /// range.
    NumberOutOfRange,
    /// A pair of numbers was expected.
    ExpectedPoint,
    /// A pair of points was expected.
    ExpectedRectangle,
    /// Three points were expected.
    ExpectedTriangle,
    /// Four numbers were expected.
    ExpectedColor,
    /// A transform row must be three numbers.
    ExpectedTransformRow,
    /// A transform must be three rows.
    ExpectedTransform,
    /// A `[name, path]` pair was expected.
    ExpectedNamePath,
    /// A `[name, path, frame_count, duration]` entry was expected.
    ExpectedAnimEntry,
    /// A `[name, path, size]` entry was expected.
    ExpectedFontEntry,
    /// A list of entries was expected.
    ExpectedList,
    /// A drawing position needs either a rectangle or a point.
    MissingPosition,
    /// A drawing position takes a rectangle or a point, not both.
    ConflictingPosition,
    /// A duration must be positive.
    NonPositiveDuration,
    /// A frame count must be at least one and fit the host's limit.
    BadFrameCount,
    /// The update rate must be positive.
    NonPositiveRate,
    /// A font size must not be negative.
    NegativeFontSize,
}

/// What [`parse_num`] returns.
pub open spec fn parse_num_spec(v: Value) -> Result<i64, ArgError> {
    match v {
        Value::Num(n) => if num_in_range(n as int) {
            Ok(n)
        } else {
            Err(ArgError::NumberOutOfRange)
        },
        _ => Err(ArgError::ExpectedNumber),
    }
}

/// Reads one number.
pub fn parse_num(v: &Value) -> (r: Result<i64, ArgError>)
    ensures
        r == parse_num_spec(*v),
{
    match v {
        Value::Num(n) => if -NUM_LIMIT <= *n && *n <= NUM_LIMIT {
            Ok(*n)
        } else {
            Err(ArgError::NumberOutOfRange)
        },
        _ => Err(ArgError::ExpectedNumber),
    }
}

/// What [`parse_point`] returns.
pub open spec fn parse_point_spec(v: Value) -> Result<Vector, ArgError> {
    match v {
        Value::List(l) => if l@.len() != 2 {
            Err(ArgError::ExpectedPoint)
        } else {
            match (parse_num_spec(l@[0]), parse_num_spec(l@[1])) {
                (Ok(x), Ok(y)) => Ok(Vector { x, y }),
                (Err(e), _) => Err(e),
                (_, Err(e)) => Err(e),
            }
        },
        _ => Err(ArgError::ExpectedPoint),
    }
}

/// Reads a point given as `[x, y]`.
pub fn parse_point(v: &Value) -> (r: Result<Vector, ArgError>)
    ensures
        r == parse_point_spec(*v),
        r is Ok ==> r.unwrap().in_range(),
{
    match v {
        Value::List(l) => {
            if l.len() != 2 {
                return Err(ArgError::ExpectedPoint);
            }
            let x: i64 = match parse_num(&l[0]) {
                Ok(x) => x,
                Err(e) => {
                    return Err(e);
                },
            };
            let y: i64 = match parse_num(&l[1]) {
                Ok(y) => y,
                Err(e) => {
                    return Err(e);
                },
            };
            Ok(Vector { x, y })
        },
        _ => Err(ArgError::ExpectedPoint),
    }
}

/// What [`parse_rect`] returns.
pub open spec fn parse_rect_spec(v: Value) -> Result<Rectangle, ArgError> {
    match v {
        Value::List(l) => if l@.len() != 2 {
            Err(ArgError::ExpectedRectangle)
        } else {
            match (parse_point_spec(l@[0]), parse_point_spec(l@[1])) {
                (Ok(p0), Ok(p1)) => Ok(Rectangle { pos: p0, size: p1 }),
                (Err(e), _) => Err(e),
                (_, Err(e)) => Err(e),
            }
        },
        _ => Err(ArgError::ExpectedRectangle),
    }
}

/// Reads a rectangle given as `[[x, y], [w, h]]`.
pub fn parse_rect(v: &Value) -> (r: Result<Rectangle, ArgError>)
    ensures
        r == parse_rect_spec(*v),
        r is Ok ==> r.unwrap().in_range(),
{
    match v {
        Value::List(l) => {
            if l.len() != 2 {
                return Err(ArgError::ExpectedRectangle);
            }
            let p0: Vector = match parse_point(&l[0]) {
                Ok(p) => p,
                Err(e) => {
                    return Err(e);
                },
            };
            let p1: Vector = match parse_point(&l[1]) {
                Ok(p) => p,
                Err(e) => {
                    return Err(e);
                },
            };
            Ok(Rectangle { pos: p0, size: p1 })
        },
        _ => Err(ArgError::ExpectedRectangle),
    }
}

/// What [`parse_triangle`] returns.
pub open spec fn parse_triangle_spec(v: Value) -> Result<Triangle, ArgError> {
    match v {
        Value::List(l) => if l@.len() != 3 {
            Err(ArgError::ExpectedTriangle)
        } else {
            match (parse_point_spec(l@[0]), parse_point_spec(l@[1]), parse_point_spec(l@[2])) {
                (Ok(a), Ok(b), Ok(c)) => Ok(Triangle { a, b, c }),
                (Err(e), _, _) => Err(e),
                (_, Err(e), _) => Err(e),
                (_, _, Err(e)) => Err(e),
            }
        },
        _ => Err(ArgError::ExpectedTriangle),
    }
}

/// Reads a triangle given as `[[x1, y1], [x2, y2], [x3, y3]]`.
pub fn parse_triangle(v: &Value) -> (r: Result<Triangle, ArgError>)
    ensures
        r == parse_triangle_spec(*v),
        r is Ok ==> r.unwrap().in_range(),
{
    match v {
        Value::List(l) => {
            if l.len() != 3 {
                return Err(ArgError::ExpectedTriangle);
            }
            let a: Vector = match parse_point(&l[0]) {
                Ok(p) => p,
                Err(e) => {
                    return Err(e);
                },
            };
            let b: Vector = match parse_point(&l[1]) {
                Ok(p) => p,
                Err(e) => {
                    return Err(e);
                },
            };
            let c: Vector = match parse_point(&l[2]) {
                Ok(p) => p,
                Err(e) => {
                    return Err(e);
                },
            };
            Ok(Triangle { a, b, c })
        },
        _ => Err(ArgError::ExpectedTriangle),
    }
}

/// What [`parse_color`] returns.
pub open spec fn parse_color_spec(v: Value) -> Result<Color, ArgError> {
    match v {
        Value::List(l) => if l@.len() != 4 {
            Err(ArgError::ExpectedColor)
        } else {
            match (parse_num_spec(l@[0]), parse_num_spec(l@[1]), parse_num_spec(l@[2]),
            parse_num_spec(l@[3])) {
                (Ok(r), Ok(g), Ok(b), Ok(a)) => Ok(Color { r, g, b, a }),
                (Err(e), _, _, _) => Err(e),
                (_, Err(e), _, _) => Err(e),
                (_, _, Err(e), _) => Err(e),
                (_, _, _, Err(e)) => Err(e),
            }
        },
        _ => Err(ArgError::ExpectedColor),
    }
}

/// Reads a color given as `[r, g, b, a]`.
pub fn parse_color(v: &Value) -> (res: Result<Color, ArgError>)
    ensures
        res == parse_color_spec(*v),
{
    match v {
        Value::List(l) => {
            if l.len() != 4 {
                return Err(ArgError::ExpectedColor);
            }
            let r: i64 = match parse_num(&l[0]) {
                Ok(x) => x,
                Err(e) => {
                    return Err(e);
                },
            };
            let g: i64 = match parse_num(&l[1]) {
                Ok(x) => x,
                Err(e) => {
                    return Err(e);
                },
            };
            let b: i64 = match parse_num(&l[2]) {
                Ok(x) => x,
                Err(e) => {
                    return Err(e);
                },
            };
            let a: i64 = match parse_num(&l[3]) {
                Ok(x) => x,
                Err(e) => {
                    return Err(e);
                },
            };
            Ok(Color { r, g, b, a })
        },
        _ => Err(ArgError::ExpectedColor),
    }
}

/// What [`parse_transform_row`] returns.
pub open spec fn parse_transform_row_spec(v: Value) -> Result<TransformRow, ArgError> {
    match v {
        Value::List(l) => if l@.len() != 3 {
            Err(ArgError::ExpectedTransformRow)
        } else {
            match (parse_num_spec(l@[0]), parse_num_spec(l@[1]), parse_num_spec(l@[2])) {
                (Ok(x), Ok(y), Ok(z)) => Ok(TransformRow { x, y, z }),
                (Err(e), _, _) => Err(e),
                (_, Err(e), _) => Err(e),
                (_, _, Err(e)) => Err(e),
            }
        },
        _ => Err(ArgError::ExpectedTransformRow),
    }
}

/// Reads one row of a transform matrix, given as `[x, y, z]`.
pub fn parse_transform_row(v: &Value) -> (r: Result<TransformRow, ArgError>)
    ensures
        r == parse_transform_row_spec(*v),
{
    match v {
        Value::List(l) => {
            if l.len() != 3 {
                return Err(ArgError::ExpectedTransformRow);
            }
            let x: i64 = match parse_num(&l[0]) {
                Ok(x) => x,
                Err(e) => {
                    return Err(e);
                },
            };
            let y: i64 = match parse_num(&l[1]) {
                Ok(x) => x,
                Err(e) => {
                    return Err(e);
                },
            };
            let z: i64 = match parse_num(&l[2]) {
                Ok(x) => x,
                Err(e) => {
                    return Err(e);
                },
            };
            Ok(TransformRow { x, y, z })
        },
        _ => Err(ArgError::ExpectedTransformRow),
    }
}

/// What [`parse_transform`] returns.
pub open spec fn parse_transform_spec(v: Value) -> Result<Transform, ArgError> {
    match v {
        Value::List(l) => if l@.len() != 3 {
            Err(ArgError::ExpectedTransform)
        } else {
            match (parse_transform_row_spec(l@[0]), parse_transform_row_spec(l@[1]),
            parse_transform_row_spec(l@[2])) {
                (Ok(r0), Ok(r1), Ok(r2)) => Ok(Transform { r0, r1, r2 }),
                (Err(e), _, _) => Err(e),
                (_, Err(e), _) => Err(e),
                (_, _, Err(e)) => Err(e),
            }
        },
        _ => Err(ArgError::ExpectedTransform),
    }
}

/// Reads a 3x3 transform matrix, given as three rows of three numbers.
pub fn parse_transform(v: &Value) -> (r: Result<Transform, ArgError>)
    ensures
        r == parse_transform_spec(*v),
{
    match v {
        Value::List(l) => {
            if l.len() != 3 {
                return Err(ArgError::ExpectedTransform);
            }
            let r0: TransformRow = match parse_transform_row(&l[0]) {
                Ok(x) => x,
                Err(e) => {
                    return Err(e);
                },
            };
            let r1: TransformRow = match parse_transform_row(&l[1]) {
                Ok(x) => x,
                Err(e) => {
                    return Err(e);
                },
            };
            let r2: TransformRow = match parse_transform_row(&l[2]) {
                Ok(x) => x,
                Err(e) => {
                    return Err(e);
                },
            };
            Ok(Transform { r0, r1, r2 })
        },
        _ => Err(ArgError::ExpectedTransform),
    }
}

/// The point value handed back to the script for a position query:
/// `[x, y]` as numbers.
pub fn new_py_point(v: Vector) -> (r: Value)
    ensures
        r is List,
        r->List_0@.len() == 2,
        r->List_0@[0] == Value::Num(v.x),
        r->List_0@[1] == Value::Num(v.y),
{
    let mut l: Vec<Value> = Vec::new();
    l.push(Value::Num(v.x));
    l.push(Value::Num(v.y));
    Value::List(l)
}

} // verus!
