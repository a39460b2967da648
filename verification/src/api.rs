//! The native API surface: every function a script can call during a
//! callback, and the frame context those calls operate on.
//!
//! Host-owned state (the command sink standing for the renderer, the
//! resource tables, the input snapshot, the declaration list) lives in
//! a [`Ctx`].  Which parts a call may touch is gated by binding flags
//! that the lifecycle host raises for exactly one callback invocation
//! and lowers afterwards; a call made while its binding is down fails
//! with [`ApiError::NoContext`] instead of reaching stale state.
//! Arguments are parsed first, then the binding is checked, then names
//! are resolved; a name miss reports the name and its kind and touches
//! nothing.

use vstd::prelude::*;
use crate::fixed::{NUM_LIMIT, SCALE};
use crate::geom::{
    color_black, color_red, rect_center, shape_transform, transform_identity, triangle_centroid,
    AnchoredTransform, Circle, Color, Rectangle, Transform, Triangle, Vector,
};
use crate::input::{is_down_spec, ButtonState, InputSnapshot};
use crate::resources::{FontEntry, ImageHandle, ResourceConfig, ResourceKind, Resources, SoundData};
use crate::value::{
    new_py_point, parse_color, parse_color_spec, parse_num, parse_num_spec, parse_point,
    parse_point_spec, parse_rect, parse_rect_spec, parse_transform, parse_transform_spec,
    parse_triangle, parse_triangle_spec, ArgError, Value,
};
use crate::anim::{frame_index, Animation};

verus! {

/// The largest duration a script may set, in fixed-point seconds
/// (so that the microsecond count stays within the host's range).
pub const MAX_DURATION_MS: i64 = 1073741;

/// Which piece of host state an API call needed but found unbound.
#[derive(Clone, Copy, Debug, PartialEq, Eq, Structural)]
pub enum Binding {
    /// The frame's drawing surface.
    Graphics,
    /// The input and timing snapshot.
    State,
    /// The resolved resource tables.
    Sprites,
    /// The resource declaration list (module evaluation only).
    Config,
}

/// Why an API call failed.  All of these surface to the script as
/// catchable errors; none aborts the host.
#[derive(Debug, PartialEq, Eq)]
pub enum ApiError {
    /// An argument had the wrong shape.
    Argument(ArgError),
    /// A name was not found in the table of the given kind.
    NotFound { kind: ResourceKind, name: String },
    /// The call was made outside a callback extent that binds the
    /// needed state.
    NoContext(Binding),
}

/// One recorded drawing or playback action, replayed against the real
/// renderer and mixer after the callback returns.
#[derive(Debug, PartialEq)]
pub enum DrawCmd {
    /// Clear the surface to a color.
    Clear(Color),
    /// Use this transform, applied about the given anchor, for what
    /// follows.
    SetTransform(AnchoredTransform),
    /// Map the view rectangle onto a window of the given size.
    SetView { rect: Rectangle, winsize: Vector },
    /// Fill a rectangle.
    FillRect(Rectangle, Color),
    /// Fill a circle.
    FillCircle(Circle, Color),
    /// Fill a triangle.
    FillTriangle(Triangle, Color),
    /// Stroke a one-unit line.
    StrokeLine { start: Vector, end: Vector, color: Color },
    /// Fill a line of the given thickness.
    ThickLine { start: Vector, end: Vector, thickness: i64, color: Color },
    /// Draw a whole image into a destination rectangle.
    DrawImage { image: ImageHandle, dest: Rectangle },
    /// Draw one region of an image into a destination rectangle.
    DrawFrame { image: ImageHandle, region: Rectangle, dest: Rectangle },
    /// Draw a text run.
    DrawText { font: FontEntry, text: String, color: Color, origin: Vector },
    /// Start one fire-and-forget playback of a sound.
    PlaySound(SoundData),
}

/// The host state one callback invocation observes.
pub struct Ctx {
    /// Whether the drawing surface is bound.
    pub gfx_bound: bool,
    /// Whether the input and timing snapshot is bound.
    pub state_bound: bool,
    /// Whether the resource tables are bound.
    pub sprites_bound: bool,
    /// Whether the declaration list is bound (module evaluation).
    pub config_bound: bool,
    /// The recorded drawing commands of the current frame.
    pub commands: Vec<DrawCmd>,
    /// The resolved resource tables.
    pub resources: Resources,
    /// The input and timing snapshot.
    pub input: InputSnapshot,
    /// The declaration list being collected during module evaluation.
    pub config: ResourceConfig,
}

impl Ctx {
    pub open spec fn wf(self) -> bool {
        &&& self.resources.wf()
        &&& self.input.wf()
        &&& self.config.wf()
    }
}

/// The spec-level value of an optional borrowed argument.
pub open spec fn deref_opt(o: Option<&Value>) -> Option<Value> {
    match o {
        Some(v) => Some(*v),
        None => None,
    }
}

/// `after` is `before` with exactly `cmds` appended to the command
/// sink and nothing else changed.
pub open spec fn appended(before: Ctx, after: Ctx, cmds: Seq<DrawCmd>) -> bool {
    &&& after == Ctx { commands: after.commands, ..before }
    &&& after.commands@ == before.commands@ + cmds
}

/// The shared named arguments of the shape calls: an optional
/// transform (identity if absent) and a color (red if absent).
#[derive(Clone, Copy, Debug, PartialEq, Eq, Structural)]
pub struct ShapeArgs {
    pub transform: Transform,
    pub color: Color,
}

/// How the shape argument pair parses: the transform first, then the
/// color, each falling back to its default when absent.
pub open spec fn shape_args_spec(t: Option<Value>, col: Option<Value>) -> Result<
    ShapeArgs,
    ArgError,
> {
    let tr = match t {
        Some(v) => parse_transform_spec(v),
        None => Ok(transform_identity()),
    };
    match tr {
        Err(e) => Err(e),
        Ok(tr) => match (match col {
            Some(v) => parse_color_spec(v),
            None => Ok(color_red()),
        }) {
            Err(e) => Err(e),
            Ok(c) => Ok(ShapeArgs { transform: tr, color: c }),
        },
    }
}

impl ShapeArgs {
    /// Parses the two named arguments, supplying the defaults.
    pub fn from_values(t: Option<&Value>, col: Option<&Value>) -> (r: Result<ShapeArgs, ArgError>)
        ensures
            r == shape_args_spec(deref_opt(t), deref_opt(col)),
    {
        let transform: Transform = match t {
            Some(v) => match parse_transform(v) {
                Ok(tr) => tr,
                Err(e) => {
                    return Err(e);
                },
            },
            None => Transform::identity(),
        };
        let color: Color = match col {
            Some(v) => match parse_color(v) {
                Ok(c) => c,
                Err(e) => {
                    return Err(e);
                },
            },
            None => Color::red(),
        };
        Ok(ShapeArgs { transform, color })
    }

    /// The color and transform a shape call draws with.
    pub fn into_drawable(self) -> (r: (Color, Transform))
        ensures
            r == (self.color, self.transform),
    {
        (self.color, self.transform)
    }
}

/// A drawing position: either an explicit destination rectangle or a
/// top-left point to pair with the asset's natural size.
#[derive(Clone, Copy, Debug, PartialEq, Eq, Structural)]
pub enum RectOrPoint {
    Rect(Rectangle),
    Point(Vector),
}

/// How the position argument pair parses: exactly one of `rect=` and
/// `p0=` must be present.
pub open spec fn rect_or_point_spec(rect: Option<Value>, p0: Option<Value>) -> Result<
    RectOrPoint,
    ArgError,
> {
    match (rect, p0) {
        (Some(r), None) => match parse_rect_spec(r) {
            Ok(rc) => Ok(RectOrPoint::Rect(rc)),
            Err(e) => Err(e),
        },
        (None, Some(p)) => match parse_point_spec(p) {
            Ok(pt) => Ok(RectOrPoint::Point(pt)),
            Err(e) => Err(e),
        },
        (None, None) => Err(ArgError::MissingPosition),
        (Some(_), Some(_)) => Err(ArgError::ConflictingPosition),
    }
}

/// The destination rectangle a position resolves to against an asset's
/// natural size.
pub open spec fn to_rect_spec(rp: RectOrPoint, size: Vector) -> Rectangle {
    match rp {
        RectOrPoint::Rect(r) => r,
        RectOrPoint::Point(p) => Rectangle { pos: p, size },
    }
}

impl RectOrPoint {
    pub open spec fn in_range(self) -> bool {
        match self {
            RectOrPoint::Rect(r) => r.in_range(),
            RectOrPoint::Point(p) => p.in_range(),
        }
    }

    /// Parses the position out of the two optional named arguments.
    pub fn from_args(rect: Option<&Value>, p0: Option<&Value>) -> (r: Result<
        RectOrPoint,
        ArgError,
    >)
        ensures
            r == rect_or_point_spec(deref_opt(rect), deref_opt(p0)),
            r is Ok ==> r.unwrap().in_range(),
    {
        match (rect, p0) {
            (Some(rv), None) => match parse_rect(rv) {
                Ok(rc) => Ok(RectOrPoint::Rect(rc)),
                Err(e) => Err(e),
            },
            (None, Some(pv)) => match parse_point(pv) {
                Ok(pt) => Ok(RectOrPoint::Point(pt)),
                Err(e) => Err(e),
            },
            (None, None) => Err(ArgError::MissingPosition),
            (Some(_), Some(_)) => Err(ArgError::ConflictingPosition),
        }
    }

    /// Resolves to a destination rectangle, completing a bare point
    /// with the asset's natural size.
    pub fn to_rect(self, size: Vector) -> (r: Rectangle)
        ensures
            r == to_rect_spec(self, size),
    {
        match self {
            RectOrPoint::Rect(r) => r,
            RectOrPoint::Point(p) => Rectangle { pos: p, size },
        }
    }
}

// BINDING CONTROL (used by the lifecycle host, not callable by the
// script).

/// Raises the module-evaluation binding: only resource declaration is
/// available while the entry module runs.
pub fn bind_module(ctx: &mut Ctx)
    ensures
        *final(ctx) == (Ctx { config_bound: true, ..*old(ctx) }),
{
    ctx.config_bound = true;
}

/// Raises the frame bindings for an `onload`, `update` or `draw`
/// invocation.
pub fn bind_frame(ctx: &mut Ctx)
    ensures
        *final(ctx) == (Ctx {
            gfx_bound: true,
            state_bound: true,
            sprites_bound: true,
            ..*old(ctx)
        }),
{
    ctx.gfx_bound = true;
    ctx.state_bound = true;
    ctx.sprites_bound = true;
}

/// Raises the binding for an `event` invocation: only the input
/// snapshot is visible there.
pub fn bind_event(ctx: &mut Ctx)
    ensures
        *final(ctx) == (Ctx { state_bound: true, ..*old(ctx) }),
{
    ctx.state_bound = true;
}

/// Tears every binding down; called after each callback returns,
/// normally or not, so nothing stays reachable between invocations.
pub fn unbind(ctx: &mut Ctx)
    ensures
        *final(ctx) == (Ctx {
            gfx_bound: false,
            state_bound: false,
            sprites_bound: false,
            config_bound: false,
            ..*old(ctx)
        }),
{
    ctx.gfx_bound = false;
    ctx.state_bound = false;
    ctx.sprites_bound = false;
    ctx.config_bound = false;
}

/// Records the frame-start clear to black.  The lifecycle host calls
/// this itself before raising any binding, so it is not gated.
pub fn clear_black(ctx: &mut Ctx)
    requires
        old(ctx).wf(),
    ensures
        final(ctx).wf(),
        appended(*old(ctx), *final(ctx), seq![DrawCmd::Clear(color_black())]),
{
    let black: Color = Color::black();
    ctx.commands.push(DrawCmd::Clear(black));
    proof {
        assert(ctx.commands@ =~= old(ctx).commands@ + seq![DrawCmd::Clear(color_black())]);
    }
}

// WINDOW AND INPUT FUNCTIONS

/// What [`clear`] does.
pub open spec fn clear_spec(c0: Ctx, v: Value, c1: Ctx, r: Result<(), ApiError>) -> bool {
    match parse_color_spec(v) {
        Err(e) => r == Err::<(), ApiError>(ApiError::Argument(e)) && c1 == c0,
        Ok(col) => if c0.gfx_bound {
            r == Ok::<(), ApiError>(()) && appended(c0, c1, seq![DrawCmd::Clear(col)])
        } else {
            r == Err::<(), ApiError>(ApiError::NoContext(Binding::Graphics)) && c1 == c0
        },
    }
}

/// Clears the drawing surface to the given color.
pub fn clear(ctx: &mut Ctx, color: &Value) -> (r: Result<(), ApiError>)
    requires
        old(ctx).wf(),
    ensures
        final(ctx).wf(),
        clear_spec(*old(ctx), *color, *final(ctx), r),
{
    let col: Color = match parse_color(color) {
        Ok(c) => c,
        Err(e) => {
            return Err(ApiError::Argument(e));
        },
    };
    if !ctx.gfx_bound {
        return Err(ApiError::NoContext(Binding::Graphics));
    }
    ctx.commands.push(DrawCmd::Clear(col));
    proof {
        assert(ctx.commands@ =~= old(ctx).commands@ + seq![DrawCmd::Clear(col)]);
    }
    Ok(())
}

/// What [`mouse_wheel_delta`] and [`mouse_pos`] hand back on success.
pub open spec fn is_point_value(v: Value, p: Vector) -> bool {
    &&& v is List
    &&& v->List_0@.len() == 2
    &&& v->List_0@[0] == Value::Num(p.x)
    &&& v->List_0@[1] == Value::Num(p.y)
}

/// The last wheel delta, as a script point.
pub fn mouse_wheel_delta(ctx: &Ctx) -> (r: Result<Value, ApiError>)
    ensures
        !ctx.state_bound ==> r == Err::<Value, ApiError>(ApiError::NoContext(Binding::State)),
        ctx.state_bound ==> r is Ok && is_point_value(r.unwrap(), ctx.input.wheel_delta),
{
    if !ctx.state_bound {
        return Err(ApiError::NoContext(Binding::State));
    }
    Ok(new_py_point(ctx.input.wheel_delta))
}

/// The pointer position, as a script point.
pub fn mouse_pos(ctx: &Ctx) -> (r: Result<Value, ApiError>)
    ensures
        !ctx.state_bound ==> r == Err::<Value, ApiError>(ApiError::NoContext(Binding::State)),
        ctx.state_bound ==> r is Ok && is_point_value(r.unwrap(), ctx.input.mouse_pos),
{
    if !ctx.state_bound {
        return Err(ApiError::NoContext(Binding::State));
    }
    Ok(new_py_point(ctx.input.mouse_pos))
}

/// The configured update period, in fixed-point milliseconds.
pub fn update_rate(ctx: &Ctx) -> (r: Result<Value, ApiError>)
    requires
        ctx.wf(),
    ensures
        !ctx.state_bound ==> r == Err::<Value, ApiError>(ApiError::NoContext(Binding::State)),
        ctx.state_bound ==> r == Ok::<Value, ApiError>(
            Value::Num(ctx.input.update_rate_us as i64),
        ),
{
    if !ctx.state_bound {
        return Err(ApiError::NoContext(Binding::State));
    }
    Ok(Value::Num(ctx.input.update_rate_us as i64))
}

/// What [`set_update_rate`] does.
pub open spec fn set_update_rate_spec(c0: Ctx, v: Value, c1: Ctx, r: Result<(), ApiError>) -> bool {
    match parse_num_spec(v) {
        Err(e) => r == Err::<(), ApiError>(ApiError::Argument(e)) && c1 == c0,
        Ok(n) => if n <= 0 {
            r == Err::<(), ApiError>(ApiError::Argument(ArgError::NonPositiveRate)) && c1 == c0
        } else if !c0.state_bound {
            r == Err::<(), ApiError>(ApiError::NoContext(Binding::State)) && c1 == c0
        } else {
            &&& r == Ok::<(), ApiError>(())
            &&& c1 == (Ctx { input: c1.input, ..c0 })
            &&& c1.input@ == crate::input::SnapshotView { update_rate_us: n as u64, ..c0.input@ }
        },
    }
}

/// Sets the update period, given in fixed-point milliseconds; it must
/// be positive.
pub fn set_update_rate(ctx: &mut Ctx, rate: &Value) -> (r: Result<(), ApiError>)
    requires
        old(ctx).wf(),
    ensures
        final(ctx).wf(),
        set_update_rate_spec(*old(ctx), *rate, *final(ctx), r),
{
    let n: i64 = match parse_num(rate) {
        Ok(n) => n,
        Err(e) => {
            return Err(ApiError::Argument(e));
        },
    };
    if n <= 0 {
        return Err(ApiError::Argument(ArgError::NonPositiveRate));
    }
    if !ctx.state_bound {
        return Err(ApiError::NoContext(Binding::State));
    }
    ctx.input.update_rate_us = n as u64;
    Ok(())
}

/// Every key's state, indexed by key identifier.
pub fn keyboard(ctx: &Ctx) -> (r: Result<Vec<ButtonState>, ApiError>)
    requires
        ctx.wf(),
    ensures
        !ctx.state_bound ==> r == Err::<Vec<ButtonState>, ApiError>(
            ApiError::NoContext(Binding::State),
        ),
        ctx.state_bound ==> r is Ok && r.unwrap()@ == ctx.input.keyboard@,
{
    if !ctx.state_bound {
        return Err(ApiError::NoContext(Binding::State));
    }
    let mut out: Vec<ButtonState> = Vec::new();
    let mut i: usize = 0;
    while i < ctx.input.keyboard.len()
        invariant
            i <= ctx.input.keyboard@.len(),
            out@.len() == i,
            forall|j: int| 0 <= j < i ==> out@[j] == ctx.input.keyboard@[j],
        decreases ctx.input.keyboard@.len() - i,
    {
        out.push(ctx.input.keyboard[i]);
        i = i + 1;
    }
    proof {
        assert(out@ =~= ctx.input.keyboard@);
    }
    Ok(out)
}

/// Every key's down/up state, indexed by key identifier.
pub fn keyboard_bool(ctx: &Ctx) -> (r: Result<Vec<bool>, ApiError>)
    requires
        ctx.wf(),
    ensures
        !ctx.state_bound ==> r == Err::<Vec<bool>, ApiError>(ApiError::NoContext(Binding::State)),
        ctx.state_bound ==> r is Ok && r.unwrap()@.len() == ctx.input.keyboard@.len() && forall|
            j: int,
        |
            0 <= j < ctx.input.keyboard@.len() ==> r.unwrap()@[j] == is_down_spec(
                ctx.input.keyboard@[j],
            ),
{
    if !ctx.state_bound {
        return Err(ApiError::NoContext(Binding::State));
    }
    let mut out: Vec<bool> = Vec::new();
    let mut i: usize = 0;
    while i < ctx.input.keyboard.len()
        invariant
            i <= ctx.input.keyboard@.len(),
            out@.len() == i,
            forall|j: int| 0 <= j < i ==> out@[j] == is_down_spec(ctx.input.keyboard@[j]),
        decreases ctx.input.keyboard@.len() - i,
    {
        let st: ButtonState = ctx.input.keyboard[i];
        out.push(st.is_down());
        i = i + 1;
    }
    Ok(out)
}

/// What [`set_view`] does.
pub open spec fn set_view_spec(c0: Ctx, v: Value, c1: Ctx, r: Result<(), ApiError>) -> bool {
    match parse_rect_spec(v) {
        Err(e) => r == Err::<(), ApiError>(ApiError::Argument(e)) && c1 == c0,
        Ok(rect) => if !c0.state_bound {
            r == Err::<(), ApiError>(ApiError::NoContext(Binding::State)) && c1 == c0
        } else if !c0.gfx_bound {
            r == Err::<(), ApiError>(ApiError::NoContext(Binding::Graphics)) && c1 == c0
        } else {
            r == Ok::<(), ApiError>(()) && appended(
                c0,
                c1,
                seq![DrawCmd::SetView { rect, winsize: c0.input.winsize }],
            )
        },
    }
}

/// Sets the camera: the given world rectangle is mapped onto the
/// window.
pub fn set_view(ctx: &mut Ctx, rect: &Value) -> (r: Result<(), ApiError>)
    requires
        old(ctx).wf(),
    ensures
        final(ctx).wf(),
        set_view_spec(*old(ctx), *rect, *final(ctx), r),
{
    let rc: Rectangle = match parse_rect(rect) {
        Ok(rc) => rc,
        Err(e) => {
            return Err(ApiError::Argument(e));
        },
    };
    if !ctx.state_bound {
        return Err(ApiError::NoContext(Binding::State));
    }
    if !ctx.gfx_bound {
        return Err(ApiError::NoContext(Binding::Graphics));
    }
    let winsize: Vector = ctx.input.winsize;
    ctx.commands.push(DrawCmd::SetView { rect: rc, winsize });
    proof {
        assert(ctx.commands@ =~= old(ctx).commands@ + seq![
            DrawCmd::SetView { rect: rc, winsize: old(ctx).input.winsize },
        ]);
    }
    Ok(())
}

// SHAPE FUNCTIONS

/// The commands a [`rect`] call records.
pub open spec fn rect_cmds_spec(v: Value, t: Option<Value>, col: Option<Value>) -> Result<
    Seq<DrawCmd>,
    ArgError,
> {
    match parse_rect_spec(v) {
        Err(e) => Err(e),
        Ok(rc) => match shape_args_spec(t, col) {
            Err(e) => Err(e),
            Ok(args) => Ok(
                seq![
                    DrawCmd::SetTransform(
                        AnchoredTransform { transform: args.transform, about: rect_center(rc) },
                    ),
                    DrawCmd::FillRect(rc, args.color),
                ],
            ),
        },
    }
}

/// What a shape call does, given the commands its arguments resolve
/// to.
pub open spec fn shape_call_spec(
    c0: Ctx,
    cmds: Result<Seq<DrawCmd>, ArgError>,
    c1: Ctx,
    r: Result<(), ApiError>,
) -> bool {
    match cmds {
        Err(e) => r == Err::<(), ApiError>(ApiError::Argument(e)) && c1 == c0,
        Ok(cs) => if c0.gfx_bound {
            r == Ok::<(), ApiError>(()) && appended(c0, c1, cs)
        } else {
            r == Err::<(), ApiError>(ApiError::NoContext(Binding::Graphics)) && c1 == c0
        },
    }
}

/// Fills a rectangle, transformed about its own centre.
pub fn rect(ctx: &mut Ctx, rect_arg: &Value, transform: Option<&Value>, color: Option<&Value>) -> (
    r: Result<(), ApiError>)
    requires
        old(ctx).wf(),
    ensures
        final(ctx).wf(),
        shape_call_spec(
            *old(ctx),
            rect_cmds_spec(*rect_arg, deref_opt(transform), deref_opt(color)),
            *final(ctx),
            r,
        ),
{
    let rc: Rectangle = match parse_rect(rect_arg) {
        Ok(rc) => rc,
        Err(e) => {
            return Err(ApiError::Argument(e));
        },
    };
    let args: ShapeArgs = match ShapeArgs::from_values(transform, color) {
        Ok(a) => a,
        Err(e) => {
            return Err(ApiError::Argument(e));
        },
    };
    if !ctx.gfx_bound {
        return Err(ApiError::NoContext(Binding::Graphics));
    }
    let (draw_color, trans) = args.into_drawable();
    let anchored: AnchoredTransform = shape_transform(trans, rc.center());
    ctx.commands.push(DrawCmd::SetTransform(anchored));
    ctx.commands.push(DrawCmd::FillRect(rc, draw_color));
    proof {
        assert(ctx.commands@ =~= old(ctx).commands@ + rect_cmds_spec(
            *rect_arg,
            deref_opt(transform),
            deref_opt(color),
        ).unwrap());
    }
    Ok(())
}

/// The commands a [`circ`] call records.
pub open spec fn circ_cmds_spec(
    center: Value,
    radius: Value,
    t: Option<Value>,
    col: Option<Value>,
) -> Result<Seq<DrawCmd>, ArgError> {
    match parse_point_spec(center) {
        Err(e) => Err(e),
        Ok(c) => match parse_num_spec(radius) {
            Err(e) => Err(e),
            Ok(rad) => match shape_args_spec(t, col) {
                Err(e) => Err(e),
                Ok(args) => Ok(
                    seq![
                        DrawCmd::SetTransform(
                            AnchoredTransform { transform: args.transform, about: c },
                        ),
                        DrawCmd::FillCircle(Circle { center: c, radius: rad }, args.color),
                    ],
                ),
            },
        },
    }
}

/// Fills a circle, transformed about its centre.
pub fn circ(
    ctx: &mut Ctx,
    center: &Value,
    radius: &Value,
    transform: Option<&Value>,
    color: Option<&Value>,
) -> (r: Result<(), ApiError>)
    requires
        old(ctx).wf(),
    ensures
        final(ctx).wf(),
        shape_call_spec(
            *old(ctx),
            circ_cmds_spec(*center, *radius, deref_opt(transform), deref_opt(color)),
            *final(ctx),
            r,
        ),
{
    let c: Vector = match parse_point(center) {
        Ok(c) => c,
        Err(e) => {
            return Err(ApiError::Argument(e));
        },
    };
    let rad: i64 = match parse_num(radius) {
        Ok(n) => n,
        Err(e) => {
            return Err(ApiError::Argument(e));
        },
    };
    let args: ShapeArgs = match ShapeArgs::from_values(transform, color) {
        Ok(a) => a,
        Err(e) => {
            return Err(ApiError::Argument(e));
        },
    };
    if !ctx.gfx_bound {
        return Err(ApiError::NoContext(Binding::Graphics));
    }
    let (draw_color, trans) = args.into_drawable();
    let anchored: AnchoredTransform = shape_transform(trans, c);
    ctx.commands.push(DrawCmd::SetTransform(anchored));
    ctx.commands.push(DrawCmd::FillCircle(Circle { center: c, radius: rad }, draw_color));
    proof {
        assert(ctx.commands@ =~= old(ctx).commands@ + circ_cmds_spec(
            *center,
            *radius,
            deref_opt(transform),
            deref_opt(color),
        ).unwrap());
    }
    Ok(())
}

/// The commands a [`triangle`] call records.
pub open spec fn triangle_cmds_spec(v: Value, t: Option<Value>, col: Option<Value>) -> Result<
    Seq<DrawCmd>,
    ArgError,
> {
    match parse_triangle_spec(v) {
        Err(e) => Err(e),
        Ok(tri) => match shape_args_spec(t, col) {
            Err(e) => Err(e),
            Ok(args) => Ok(
                seq![
                    DrawCmd::SetTransform(
                        AnchoredTransform {
                            transform: args.transform,
                            about: triangle_centroid(tri),
                        },
                    ),
                    DrawCmd::FillTriangle(tri, args.color),
                ],
            ),
        },
    }
}

/// Fills a triangle, transformed about its centroid.
pub fn triangle(
    ctx: &mut Ctx,
    tri_arg: &Value,
    transform: Option<&Value>,
    color: Option<&Value>,
) -> (r: Result<(), ApiError>)
    requires
        old(ctx).wf(),
    ensures
        final(ctx).wf(),
        shape_call_spec(
            *old(ctx),
            triangle_cmds_spec(*tri_arg, deref_opt(transform), deref_opt(color)),
            *final(ctx),
            r,
        ),
{
    let tri: Triangle = match parse_triangle(tri_arg) {
        Ok(t) => t,
        Err(e) => {
            return Err(ApiError::Argument(e));
        },
    };
    let args: ShapeArgs = match ShapeArgs::from_values(transform, color) {
        Ok(a) => a,
        Err(e) => {
            return Err(ApiError::Argument(e));
        },
    };
    if !ctx.gfx_bound {
        return Err(ApiError::NoContext(Binding::Graphics));
    }
    let (draw_color, trans) = args.into_drawable();
    let anchored: AnchoredTransform = shape_transform(trans, tri.centroid());
    ctx.commands.push(DrawCmd::SetTransform(anchored));
    ctx.commands.push(DrawCmd::FillTriangle(tri, draw_color));
    proof {
        assert(ctx.commands@ =~= old(ctx).commands@ + triangle_cmds_spec(
            *tri_arg,
            deref_opt(transform),
            deref_opt(color),
        ).unwrap());
    }
    Ok(())
}

/// The commands a [`line`] call records: the rectangle argument's
/// corner pair is read as the line's two endpoints, and a one-unit
/// thickness strokes a plain path while any other thickness is filled
/// as a quad by the renderer.
pub open spec fn line_cmds_spec(
    v: Value,
    thickness: Option<Value>,
    t: Option<Value>,
    col: Option<Value>,
) -> Result<Seq<DrawCmd>, ArgError> {
    match parse_rect_spec(v) {
        Err(e) => Err(e),
        Ok(rc) => match (match thickness {
            Some(tv) => parse_num_spec(tv),
            None => Ok(SCALE),
        }) {
            Err(e) => Err(e),
            Ok(th) => match shape_args_spec(t, col) {
                Err(e) => Err(e),
                Ok(args) => {
                    let set = DrawCmd::SetTransform(
                        AnchoredTransform {
                            transform: args.transform,
                            about: Vector { x: 0, y: 0 },
                        },
                    );
                    if th == SCALE {
                        Ok(
                            seq![
                                set,
                                DrawCmd::StrokeLine {
                                    start: rc.pos,
                                    end: rc.size,
                                    color: args.color,
                                },
                            ],
                        )
                    } else {
                        Ok(
                            seq![
                                set,
                                DrawCmd::ThickLine {
                                    start: rc.pos,
                                    end: rc.size,
                                    thickness: th,
                                    color: args.color,
                                },
                            ],
                        )
                    }
                },
            },
        },
    }
}

/// Draws a line between two points, with an optional thickness.
pub fn line(
    ctx: &mut Ctx,
    points: &Value,
    thickness: Option<&Value>,
    transform: Option<&Value>,
    color: Option<&Value>,
) -> (r: Result<(), ApiError>)
    requires
        old(ctx).wf(),
    ensures
        final(ctx).wf(),
        shape_call_spec(
            *old(ctx),
            line_cmds_spec(*points, deref_opt(thickness), deref_opt(transform), deref_opt(color)),
            *final(ctx),
            r,
        ),
{
    let rc: Rectangle = match parse_rect(points) {
        Ok(rc) => rc,
        Err(e) => {
            return Err(ApiError::Argument(e));
        },
    };
    let th: i64 = match thickness {
        Some(tv) => match parse_num(tv) {
            Ok(n) => n,
            Err(e) => {
                return Err(ApiError::Argument(e));
            },
        },
        None => SCALE,
    };
    let args: ShapeArgs = match ShapeArgs::from_values(transform, color) {
        Ok(a) => a,
        Err(e) => {
            return Err(ApiError::Argument(e));
        },
    };
    if !ctx.gfx_bound {
        return Err(ApiError::NoContext(Binding::Graphics));
    }
    let (draw_color, trans) = args.into_drawable();
    let anchored: AnchoredTransform = shape_transform(trans, Vector::zero());
    ctx.commands.push(DrawCmd::SetTransform(anchored));
    if th == SCALE {
        ctx.commands.push(DrawCmd::StrokeLine { start: rc.pos, end: rc.size, color: draw_color });
    } else {
        ctx.commands.push(
            DrawCmd::ThickLine { start: rc.pos, end: rc.size, thickness: th, color: draw_color },
        );
    }
    proof {
        assert(ctx.commands@ =~= old(ctx).commands@ + line_cmds_spec(
            *points,
            deref_opt(thickness),
            deref_opt(transform),
            deref_opt(color),
        ).unwrap());
    }
    Ok(())
}

// RESOURCE-DRAWING FUNCTIONS

/// What [`sound`] does.
pub open spec fn sound_spec(c0: Ctx, name: String, c1: Ctx, r: Result<(), ApiError>) -> bool {
    if !c0.sprites_bound {
        r == Err::<(), ApiError>(ApiError::NoContext(Binding::Sprites)) && c1 == c0
    } else if c0.resources.sounds@.contains_key(name@) {
        r == Ok::<(), ApiError>(()) && appended(
            c0,
            c1,
            seq![DrawCmd::PlaySound(c0.resources.sounds@[name@])],
        )
    } else {
        &&& c1 == c0
        &&& match r {
            Err(ApiError::NotFound { kind, name: n }) => kind == ResourceKind::Sound && n@
                == name@,
            _ => false,
        }
    }
}

/// Starts one fire-and-forget playback of the named sound; overlapping
/// plays of the same sound are allowed.
pub fn sound(ctx: &mut Ctx, name: &String) -> (r: Result<(), ApiError>)
    requires
        old(ctx).wf(),
    ensures
        final(ctx).wf(),
        sound_spec(*old(ctx), *name, *final(ctx), r),
{
    if !ctx.sprites_bound {
        return Err(ApiError::NoContext(Binding::Sprites));
    }
    let data: SoundData = match ctx.resources.get_sound(name.as_str()) {
        Some(d) => *d,
        None => {
            return Err(ApiError::NotFound { kind: ResourceKind::Sound, name: name.clone() });
        },
    };
    ctx.commands.push(DrawCmd::PlaySound(data));
    proof {
        assert(ctx.commands@ =~= old(ctx).commands@ + seq![DrawCmd::PlaySound(data)]);
    }
    Ok(())
}

/// What a resource-drawing call does, given how its arguments parse
/// and, when the name resolves, the commands it records.
pub open spec fn draw_call_spec(
    c0: Ctx,
    parsed: Result<Seq<DrawCmd>, ArgError>,
    kind: ResourceKind,
    name: String,
    found: bool,
    c1: Ctx,
    r: Result<(), ApiError>,
) -> bool {
    match parsed {
        Err(e) => r == Err::<(), ApiError>(ApiError::Argument(e)) && c1 == c0,
        Ok(cs) => if !c0.gfx_bound {
            r == Err::<(), ApiError>(ApiError::NoContext(Binding::Graphics)) && c1 == c0
        } else if !c0.sprites_bound {
            r == Err::<(), ApiError>(ApiError::NoContext(Binding::Sprites)) && c1 == c0
        } else if found {
            r == Ok::<(), ApiError>(()) && appended(c0, c1, cs)
        } else {
            &&& c1 == c0
            &&& match r {
                Err(ApiError::NotFound { kind: k, name: n }) => k == kind && n@ == name@,
                _ => false,
            }
        },
    }
}

/// The commands a [`sprite`] call records once the named image is
/// resolved.
pub open spec fn sprite_cmds_spec(
    image: ImageHandle,
    rp: RectOrPoint,
    t: Option<Value>,
) -> Result<Seq<DrawCmd>, ArgError> {
    match (match t {
        Some(v) => parse_transform_spec(v),
        None => Ok(transform_identity()),
    }) {
        Err(e) => Err(e),
        Ok(tr) => Ok(
            seq![
                DrawCmd::SetTransform(
                    AnchoredTransform { transform: tr, about: Vector { x: 0, y: 0 } },
                ),
                DrawCmd::DrawImage {
                    image,
                    dest: to_rect_spec(rp, Vector { x: image.width, y: image.height }),
                },
            ],
        ),
    }
}

/// Draws the named sprite, either into an explicit rectangle or at a
/// point with the image's natural size.
pub fn sprite(
    ctx: &mut Ctx,
    name: &String,
    rect_arg: Option<&Value>,
    p0: Option<&Value>,
    transform: Option<&Value>,
) -> (r: Result<(), ApiError>)
    requires
        old(ctx).wf(),
    ensures
        final(ctx).wf(),
        ({
            let c0 = *old(ctx);
            match rect_or_point_spec(deref_opt(rect_arg), deref_opt(p0)) {
                Err(e) => r == Err::<(), ApiError>(ApiError::Argument(e)) && *final(ctx) == c0,
                Ok(rp) => draw_call_spec(
                    c0,
                    (if c0.resources.imgs@.contains_key(name@) {
                        sprite_cmds_spec(c0.resources.imgs@[name@], rp, deref_opt(transform))
                    } else {
                        sprite_cmds_spec(
                            ImageHandle { id: 0, width: 0, height: 0 },
                            rp,
                            deref_opt(transform),
                        )
                    }),
                    ResourceKind::Sprite,
                    *name,
                    c0.resources.imgs@.contains_key(name@),
                    *final(ctx),
                    r,
                ),
            }
        }),
{
    let rp: RectOrPoint = match RectOrPoint::from_args(rect_arg, p0) {
        Ok(rp) => rp,
        Err(e) => {
            return Err(ApiError::Argument(e));
        },
    };
    let tr: Transform = match transform {
        Some(v) => match parse_transform(v) {
            Ok(t) => t,
            Err(e) => {
                return Err(ApiError::Argument(e));
            },
        },
        None => Transform::identity(),
    };
    if !ctx.gfx_bound {
        return Err(ApiError::NoContext(Binding::Graphics));
    }
    if !ctx.sprites_bound {
        return Err(ApiError::NoContext(Binding::Sprites));
    }
    let image: ImageHandle = match ctx.resources.get_img(name.as_str()) {
        Some(h) => *h,
        None => {
            return Err(ApiError::NotFound { kind: ResourceKind::Sprite, name: name.clone() });
        },
    };
    let dest: Rectangle = rp.to_rect(Vector { x: image.width, y: image.height });
    ctx.commands.push(
        DrawCmd::SetTransform(AnchoredTransform { transform: tr, about: Vector { x: 0, y: 0 } }),
    );
    ctx.commands.push(DrawCmd::DrawImage { image, dest });
    proof {
        assert(ctx.commands@ =~= old(ctx).commands@ + sprite_cmds_spec(
            image,
            rp,
            deref_opt(transform),
        ).unwrap());
    }
    Ok(())
}

/// The commands an [`anim`] call records once the named animation is
/// resolved: the strip region of the current frame, drawn into the
/// destination, transformed about the destination's centre.
pub open spec fn anim_cmds_spec(a: Animation, rp: RectOrPoint, t: Option<Value>) -> Result<
    Seq<DrawCmd>,
    ArgError,
> {
    match (match t {
        Some(v) => parse_transform_spec(v),
        None => Ok(transform_identity()),
    }) {
        Err(e) => Err(e),
        Ok(tr) => {
            let dest = to_rect_spec(rp, a.frame_size);
            let n = frame_index(a.current_us, a.duration_us, a.nframes);
            Ok(
                seq![
                    DrawCmd::SetTransform(
                        AnchoredTransform { transform: tr, about: rect_center(dest) },
                    ),
                    DrawCmd::DrawFrame {
                        image: a.image,
                        region: Rectangle {
                            pos: Vector { x: (a.frame_size.x * n) as i64, y: 0 },
                            size: a.frame_size,
                        },
                        dest,
                    },
                ],
            )
        },
    }
}

/// Draws the named animation's current frame, transformed about the
/// destination rectangle's centre.
pub fn anim(
    ctx: &mut Ctx,
    name: &String,
    rect_arg: Option<&Value>,
    p0: Option<&Value>,
    transform: Option<&Value>,
) -> (r: Result<(), ApiError>)
    requires
        old(ctx).wf(),
    ensures
        final(ctx).wf(),
        ({
            let c0 = *old(ctx);
            match rect_or_point_spec(deref_opt(rect_arg), deref_opt(p0)) {
                Err(e) => r == Err::<(), ApiError>(ApiError::Argument(e)) && *final(ctx) == c0,
                Ok(rp) => draw_call_spec(
                    c0,
                    (if c0.resources.anims@.contains_key(name@) {
                        anim_cmds_spec(c0.resources.anims@[name@], rp, deref_opt(transform))
                    } else {
                        anim_cmds_spec(
                            Animation {
                                image: ImageHandle { id: 0, width: 0, height: 0 },
                                played: false,
                                nframes: 1,
                                duration_us: 1,
                                current_us: 0,
                                frame_size: Vector { x: 0, y: 0 },
                            },
                            rp,
                            deref_opt(transform),
                        )
                    }),
                    ResourceKind::Animation,
                    *name,
                    c0.resources.anims@.contains_key(name@),
                    *final(ctx),
                    r,
                ),
            }
        }),
{
    let rp: RectOrPoint = match RectOrPoint::from_args(rect_arg, p0) {
        Ok(rp) => rp,
        Err(e) => {
            return Err(ApiError::Argument(e));
        },
    };
    let tr: Transform = match transform {
        Some(v) => match parse_transform(v) {
            Ok(t) => t,
            Err(e) => {
                return Err(ApiError::Argument(e));
            },
        },
        None => Transform::identity(),
    };
    if !ctx.gfx_bound {
        return Err(ApiError::NoContext(Binding::Graphics));
    }
    if !ctx.sprites_bound {
        return Err(ApiError::NoContext(Binding::Sprites));
    }
    let a: Animation = match ctx.resources.get_anim(name.as_str()) {
        Some(a) => a,
        None => {
            return Err(ApiError::NotFound { kind: ResourceKind::Animation, name: name.clone() });
        },
    };
    let dest: Rectangle = rp.to_rect(a.frame_size);
    let n: u64 = a.nth();
    proof {
        assert(a.frame_size.x * n <= NUM_LIMIT * crate::anim::MAX_FRAMES) by (nonlinear_arith)
            requires
                0 <= a.frame_size.x <= NUM_LIMIT,
                0 <= n <= crate::anim::MAX_FRAMES,
        ;
        assert(0 <= a.frame_size.x * n) by (nonlinear_arith)
            requires
                0 <= a.frame_size.x,
                0 <= n,
        ;
    }
    let region: Rectangle = Rectangle {
        pos: Vector { x: a.frame_size.x * (n as i64), y: 0 },
        size: a.frame_size,
    };
    let anchored: AnchoredTransform = shape_transform(tr, dest.center());
    ctx.commands.push(DrawCmd::SetTransform(anchored));
    ctx.commands.push(DrawCmd::DrawFrame { image: a.image, region, dest });
    proof {
        assert(ctx.commands@ =~= old(ctx).commands@ + anim_cmds_spec(
            a,
            rp,
            deref_opt(transform),
        ).unwrap());
    }
    Ok(())
}

/// The font name a [`text`] call resolves: the named one, or
/// `default`.
pub open spec fn font_key_spec(font: Option<&String>) -> Seq<char> {
    match font {
        Some(f) => f@,
        None => "default"@,
    }
}

/// The commands a [`text`] call records once the font is resolved: the
/// origin is pushed down by the font's point size, since the renderer
/// anchors a text run at its lower edge.
pub open spec fn text_cmds_spec(entry: FontEntry, text: String, p0: Vector, col: Color) -> Seq<
    DrawCmd,
> {
    seq![
        DrawCmd::SetTransform(
            AnchoredTransform { transform: transform_identity(), about: Vector { x: 0, y: 0 } },
        ),
        DrawCmd::DrawText {
            font: entry,
            text,
            color: col,
            origin: Vector { x: p0.x, y: (p0.y + entry.pt) as i64 },
        },
    ]
}

/// Draws a text run at a point in the named font (or the `default`
/// font), in the given color (black if absent).
pub fn text(
    ctx: &mut Ctx,
    text_arg: &String,
    p0: &Value,
    color: Option<&Value>,
    font: Option<&String>,
) -> (r: Result<(), ApiError>)
    requires
        old(ctx).wf(),
    ensures
        final(ctx).wf(),
        ({
            let c0 = *old(ctx);
            let key = font_key_spec(font);
            let parsed = (match parse_point_spec(*p0) {
                Err(e) => Err(e),
                Ok(p) => match (match deref_opt(color) {
                    Some(v) => parse_color_spec(v),
                    None => Ok(color_black()),
                }) {
                    Err(e) => Err(e),
                    Ok(col) => Ok((p, col)),
                },
            });
            match parsed {
                Err(e) => r == Err::<(), ApiError>(ApiError::Argument(e)) && *final(ctx) == c0,
                Ok((p, col)) => if !c0.gfx_bound {
                    r == Err::<(), ApiError>(ApiError::NoContext(Binding::Graphics)) && *final(ctx)
                        == c0
                } else if !c0.sprites_bound {
                    r == Err::<(), ApiError>(ApiError::NoContext(Binding::Sprites)) && *final(ctx)
                        == c0
                } else if c0.resources.fonts@.contains_key(key) {
                    r == Ok::<(), ApiError>(()) && appended(
                        c0,
                        *final(ctx),
                        text_cmds_spec(c0.resources.fonts@[key], *text_arg, p, col),
                    )
                } else {
                    &&& *final(ctx) == c0
                    &&& match r {
                        Err(ApiError::NotFound { kind, name }) => kind == ResourceKind::Font
                            && name@ == key,
                        _ => false,
                    }
                },
            }
        }),
{
    let p: Vector = match parse_point(p0) {
        Ok(p) => p,
        Err(e) => {
            return Err(ApiError::Argument(e));
        },
    };
    let col: Color = match color {
        Some(v) => match parse_color(v) {
            Ok(c) => c,
            Err(e) => {
                return Err(ApiError::Argument(e));
            },
        },
        None => Color::black(),
    };
    if !ctx.gfx_bound {
        return Err(ApiError::NoContext(Binding::Graphics));
    }
    if !ctx.sprites_bound {
        return Err(ApiError::NoContext(Binding::Sprites));
    }
    let entry: FontEntry = {
        let found: Option<&FontEntry> = match font {
            Some(f) => ctx.resources.get_font(f.as_str()),
            None => ctx.resources.get_font("default"),
        };
        match found {
            Some(e) => *e,
            None => {
                let name: String = match font {
                    Some(f) => f.clone(),
                    None => "default".to_owned(),
                };
                return Err(ApiError::NotFound { kind: ResourceKind::Font, name });
            },
        }
    };
    let origin: Vector = Vector { x: p.x, y: p.y + entry.pt };
    ctx.commands.push(
        DrawCmd::SetTransform(
            AnchoredTransform { transform: Transform::identity(), about: Vector { x: 0, y: 0 } },
        ),
    );
    ctx.commands.push(
        DrawCmd::DrawText { font: entry, text: text_arg.clone(), color: col, origin },
    );
    proof {
        assert(ctx.commands@ =~= old(ctx).commands@ + text_cmds_spec(entry, *text_arg, p, col));
    }
    Ok(())
}

/// What [`set_anim_duration`] does: the duration argument is read in
/// fixed-point seconds, must be positive and within the host's range,
/// and is applied to the named animation for its next frame-index
/// computation.
pub open spec fn set_anim_duration_spec(
    c0: Ctx,
    name: String,
    dur: Value,
    c1: Ctx,
    r: Result<(), ApiError>,
) -> bool {
    match parse_num_spec(dur) {
        Err(e) => r == Err::<(), ApiError>(ApiError::Argument(e)) && c1 == c0,
        Ok(n) => if n <= 0 {
            r == Err::<(), ApiError>(ApiError::Argument(ArgError::NonPositiveDuration)) && c1 == c0
        } else if n > MAX_DURATION_MS {
            r == Err::<(), ApiError>(ApiError::Argument(ArgError::NumberOutOfRange)) && c1 == c0
        } else if !c0.sprites_bound {
            r == Err::<(), ApiError>(ApiError::NoContext(Binding::Sprites)) && c1 == c0
        } else if c0.resources.anims@.contains_key(name@) {
            &&& r == Ok::<(), ApiError>(())
            &&& c1 == (Ctx { resources: c1.resources, ..c0 })
            &&& c1.resources.imgs@ == c0.resources.imgs@
            &&& c1.resources.sounds@ == c0.resources.sounds@
            &&& c1.resources.fonts@ == c0.resources.fonts@
            &&& c1.resources.anims@ == c0.resources.anims@.insert(
                name@,
                Animation {
                    duration_us: (n * 1000) as u64,
                    ..c0.resources.anims@[name@]
                },
            )
        } else {
            &&& c1 == c0
            &&& match r {
                Err(ApiError::NotFound { kind, name: nm }) => kind == ResourceKind::Animation
                    && nm@ == name@,
                _ => false,
            }
        },
    }
}

/// Sets the named animation's cycle duration, given in fixed-point
/// seconds.
pub fn set_anim_duration(ctx: &mut Ctx, name: &String, dur: &Value) -> (r: Result<(), ApiError>)
    requires
        old(ctx).wf(),
    ensures
        final(ctx).wf(),
        set_anim_duration_spec(*old(ctx), *name, *dur, *final(ctx), r),
{
    let n: i64 = match parse_num(dur) {
        Ok(n) => n,
        Err(e) => {
            return Err(ApiError::Argument(e));
        },
    };
    if n <= 0 {
        return Err(ApiError::Argument(ArgError::NonPositiveDuration));
    }
    if n > MAX_DURATION_MS {
        return Err(ApiError::Argument(ArgError::NumberOutOfRange));
    }
    if !ctx.sprites_bound {
        return Err(ApiError::NoContext(Binding::Sprites));
    }
    let duration_us: u64 = (n as u64) * 1000;
    let found: bool = ctx.resources.set_anim_duration(name.as_str(), duration_us);
    if found {
        Ok(())
    } else {
        Err(ApiError::NotFound { kind: ResourceKind::Animation, name: name.clone() })
    }
}

} // verus!
