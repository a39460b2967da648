use pyckitup::api::{anim, circ, clear, keyboard, keyboard_bool, mouse_pos};
use pyckitup::api::{mouse_wheel_delta, rect, set_anim_duration, set_update_rate};
use pyckitup::api::{set_view, sound, sprite, text, triangle, update_rate};
use pyckitup::api::{ApiError, Binding, Ctx, DrawCmd};
use pyckitup::api::{bind_event, bind_frame, unbind};
use pyckitup::geom::{AnchoredTransform, Color, Rectangle, Transform, Vector};
use pyckitup::input::{InputSnapshot, NUM_KEYS};
use pyckitup::resources::{
    AnimDecl, ImageHandle, LoadedAssets, ResourceConfig, ResourceKind, Resources,
};
use pyckitup::value::{ArgError, Value};

fn point(x: i64, y: i64) -> Value {
    Value::List(vec![Value::Num(x), Value::Num(y)])
}

fn rect_value(x: i64, y: i64, w: i64, h: i64) -> Value {
    Value::List(vec![point(x, y), point(w, h)])
}

fn color_value(r: i64, g: i64, b: i64, a: i64) -> Value {
    Value::List(vec![Value::Num(r), Value::Num(g), Value::Num(b), Value::Num(a)])
}

fn frame_ctx() -> Ctx {
    let cfg = ResourceConfig {
        imgs: vec![("hero".to_owned(), "hero.png".to_owned())],
        anims: vec![AnimDecl {
            name: "walk".to_owned(),
            path: "walk.png".to_owned(),
            nframes: 4,
            duration_us: 1_000_000,
        }],
        sounds: vec![("click".to_owned(), "click.wav".to_owned())],
        fonts: vec![],
    };
    let assets = LoadedAssets {
        images: vec![ImageHandle { id: 1, width: 32_000, height: 48_000 }],
        anim_images: vec![ImageHandle { id: 3, width: 400_000, height: 100_000 }],
        sounds: vec![11],
        fonts: vec![],
        default_font: 99,
    };
    let mut ctx = Ctx {
        gfx_bound: false,
        state_bound: false,
        sprites_bound: false,
        config_bound: false,
        commands: Vec::new(),
        resources: Resources::build(&cfg, assets),
        input: InputSnapshot::new(Vector { x: 800_000, y: 600_000 }),
        config: ResourceConfig { imgs: vec![], anims: vec![], sounds: vec![], fonts: vec![] },
    };
    bind_frame(&mut ctx);
    ctx
}

#[test]
fn missing_sprite_reports_name_and_kind() {
    // A lookup miss is a catchable error naming the resource and its
    // kind; the host state is untouched.
    let mut ctx = frame_ctx();
    let r = sprite(&mut ctx, &"nope".to_owned(), None, Some(&point(0, 0)), None);
    match r {
        Err(ApiError::NotFound { kind, name }) => {
            assert_eq!(kind, ResourceKind::Sprite);
            assert_eq!(name, "nope");
        }
        other => panic!("expected a lookup error, got {:?}", other),
    }
    assert!(ctx.commands.is_empty());
}

#[test]
fn missing_sound_animation_and_font_report_their_kinds() {
    let mut ctx = frame_ctx();
    match sound(&mut ctx, &"silence".to_owned()) {
        Err(ApiError::NotFound { kind, name }) => {
            assert_eq!(kind, ResourceKind::Sound);
            assert_eq!(name, "silence");
        }
        other => panic!("expected a lookup error, got {:?}", other),
    }
    match anim(&mut ctx, &"run".to_owned(), None, Some(&point(0, 0)), None) {
        Err(ApiError::NotFound { kind, name }) => {
            assert_eq!(kind, ResourceKind::Animation);
            assert_eq!(name, "run");
        }
        other => panic!("expected a lookup error, got {:?}", other),
    }
    match text(&mut ctx, &"hi".to_owned(), &point(0, 0), None, Some(&"fancy".to_owned())) {
        Err(ApiError::NotFound { kind, name }) => {
            assert_eq!(kind, ResourceKind::Font);
            assert_eq!(name, "fancy");
        }
        other => panic!("expected a lookup error, got {:?}", other),
    }
    match set_anim_duration(&mut ctx, &"run".to_owned(), &Value::Num(2_000)) {
        Err(ApiError::NotFound { kind, name }) => {
            assert_eq!(kind, ResourceKind::Animation);
            assert_eq!(name, "run");
        }
        other => panic!("expected a lookup error, got {:?}", other),
    }
    assert!(ctx.commands.is_empty());
}

#[test]
fn calls_outside_any_binding_fail_deterministically() {
    // A call kept past its callback's extent finds the binding torn
    // down and fails, rather than reading stale host state.
    let mut ctx = frame_ctx();
    assert!(rect(&mut ctx, &rect_value(0, 0, 10_000, 10_000), None, None).is_ok());
    unbind(&mut ctx);
    assert_eq!(
        rect(&mut ctx, &rect_value(0, 0, 10_000, 10_000), None, None),
        Err(ApiError::NoContext(Binding::Graphics))
    );
    assert!(matches!(mouse_pos(&ctx), Err(ApiError::NoContext(Binding::State))));
    assert!(matches!(
        mouse_wheel_delta(&ctx),
        Err(ApiError::NoContext(Binding::State))
    ));
    assert!(matches!(update_rate(&ctx), Err(ApiError::NoContext(Binding::State))));
    assert_eq!(keyboard(&ctx).unwrap_err(), ApiError::NoContext(Binding::State));
    assert_eq!(keyboard_bool(&ctx).unwrap_err(), ApiError::NoContext(Binding::State));
    assert_eq!(
        sound(&mut ctx, &"click".to_owned()),
        Err(ApiError::NoContext(Binding::Sprites))
    );
    assert_eq!(
        set_view(&mut ctx, &rect_value(0, 0, 400_000, 300_000)),
        Err(ApiError::NoContext(Binding::State))
    );
    assert_eq!(
        clear(&mut ctx, &color_value(0, 0, 0, 1000)),
        Err(ApiError::NoContext(Binding::Graphics))
    );
    assert_eq!(commands_len(&ctx), 2);
}

fn commands_len(ctx: &Ctx) -> usize {
    ctx.commands.len()
}

#[test]
fn event_binding_exposes_only_the_snapshot() {
    // The `event` callback sees the input state but neither the
    // surface nor the resources.
    let mut ctx = frame_ctx();
    unbind(&mut ctx);
    bind_event(&mut ctx);
    assert!(mouse_pos(&ctx).is_ok());
    assert_eq!(
        rect(&mut ctx, &rect_value(0, 0, 1000, 1000), None, None),
        Err(ApiError::NoContext(Binding::Graphics))
    );
    assert_eq!(
        sound(&mut ctx, &"click".to_owned()),
        Err(ApiError::NoContext(Binding::Sprites))
    );
}

#[test]
fn rect_records_transform_about_centre_then_fill() {
    let mut ctx = frame_ctx();
    rect(&mut ctx, &rect_value(10_000, 20_000, 4_000, 6_000), None, None).unwrap();
    assert_eq!(ctx.commands.len(), 2);
    assert_eq!(
        ctx.commands[0],
        DrawCmd::SetTransform(AnchoredTransform {
            transform: Transform::identity(),
            about: Vector { x: 12_000, y: 23_000 },
        })
    );
    // The default shape color is opaque red.
    assert_eq!(
        ctx.commands[1],
        DrawCmd::FillRect(
            Rectangle {
                pos: Vector { x: 10_000, y: 20_000 },
                size: Vector { x: 4_000, y: 6_000 },
            },
            Color::red(),
        )
    );
}

#[test]
fn triangle_records_transform_about_centroid() {
    let mut ctx = frame_ctx();
    let tri = Value::List(vec![point(0, 0), point(30_000, 0), point(0, 30_000)]);
    triangle(&mut ctx, &tri, None, Some(&color_value(0, 1000, 0, 1000))).unwrap();
    match &ctx.commands[0] {
        DrawCmd::SetTransform(AnchoredTransform { about, .. }) => {
            assert_eq!(*about, Vector { x: 10_000, y: 10_000 });
        }
        other => panic!("expected a transform command, got {:?}", other),
    }
    match &ctx.commands[1] {
        DrawCmd::FillTriangle(_, c) => assert_eq!(*c, Color { r: 0, g: 1000, b: 0, a: 1000 }),
        other => panic!("expected a fill command, got {:?}", other),
    }
}

#[test]
fn circ_records_circle_about_its_centre() {
    let mut ctx = frame_ctx();
    circ(&mut ctx, &point(5_000, 6_000), &Value::Num(2_500), None, None).unwrap();
    match &ctx.commands[1] {
        DrawCmd::FillCircle(c, _) => {
            assert_eq!(c.center, Vector { x: 5_000, y: 6_000 });
            assert_eq!(c.radius, 2_500);
        }
        other => panic!("expected a circle command, got {:?}", other),
    }
}

#[test]
fn line_strokes_at_unit_thickness_and_fills_otherwise() {
    let mut ctx = frame_ctx();
    pyckitup::api::line(&mut ctx, &rect_value(0, 0, 10_000, 10_000), None, None, None)
        .unwrap();
    match &ctx.commands[1] {
        DrawCmd::StrokeLine { start, end, .. } => {
            assert_eq!(*start, Vector { x: 0, y: 0 });
            assert_eq!(*end, Vector { x: 10_000, y: 10_000 });
        }
        other => panic!("expected a stroke command, got {:?}", other),
    }
    pyckitup::api::line(
        &mut ctx,
        &rect_value(0, 0, 10_000, 10_000),
        Some(&Value::Num(3_000)),
        None,
        None,
    )
    .unwrap();
    match &ctx.commands[3] {
        DrawCmd::ThickLine { thickness, .. } => assert_eq!(*thickness, 3_000),
        other => panic!("expected a thick-line command, got {:?}", other),
    }
}

#[test]
fn sprite_draws_at_natural_size_from_a_point() {
    let mut ctx = frame_ctx();
    sprite(&mut ctx, &"hero".to_owned(), None, Some(&point(1_000, 2_000)), None).unwrap();
    match &ctx.commands[1] {
        DrawCmd::DrawImage { image, dest } => {
            assert_eq!(image.id, 1);
            assert_eq!(dest.pos, Vector { x: 1_000, y: 2_000 });
            assert_eq!(dest.size, Vector { x: 32_000, y: 48_000 });
        }
        other => panic!("expected an image command, got {:?}", other),
    }
}

#[test]
fn sprite_position_needs_exactly_one_form() {
    let mut ctx = frame_ctx();
    assert_eq!(
        sprite(&mut ctx, &"hero".to_owned(), None, None, None),
        Err(ApiError::Argument(ArgError::MissingPosition))
    );
    let r = rect_value(0, 0, 1000, 1000);
    let p = point(0, 0);
    assert_eq!(
        sprite(&mut ctx, &"hero".to_owned(), Some(&r), Some(&p), None),
        Err(ApiError::Argument(ArgError::ConflictingPosition))
    );
}

#[test]
fn anim_draws_current_frame_region() {
    let mut ctx = frame_ctx();
    // Advance the walk animation to frame 2.
    ctx.resources.update_anim(500_000);
    anim(&mut ctx, &"walk".to_owned(), None, Some(&point(0, 0)), None).unwrap();
    match &ctx.commands[1] {
        DrawCmd::DrawFrame { image, region, dest } => {
            assert_eq!(image.id, 3);
            assert_eq!(region.pos, Vector { x: 200_000, y: 0 });
            assert_eq!(region.size, Vector { x: 100_000, y: 100_000 });
            assert_eq!(dest.size, Vector { x: 100_000, y: 100_000 });
        }
        other => panic!("expected a frame command, got {:?}", other),
    }
}

#[test]
fn text_uses_default_font_and_offsets_by_point_size() {
    let mut ctx = frame_ctx();
    text(&mut ctx, &"hello".to_owned(), &point(5_000, 7_000), None, None).unwrap();
    match &ctx.commands[1] {
        DrawCmd::DrawText { font, text, color, origin } => {
            assert_eq!(font.handle, 99);
            assert_eq!(text, "hello");
            assert_eq!(*color, Color::black());
            // The host-supplied default font is 10 pt; the origin is
            // pushed down by that much.
            assert_eq!(*origin, Vector { x: 5_000, y: 17_000 });
        }
        other => panic!("expected a text command, got {:?}", other),
    }
}

#[test]
fn sound_plays_at_unit_volume() {
    let mut ctx = frame_ctx();
    sound(&mut ctx, &"click".to_owned()).unwrap();
    sound(&mut ctx, &"click".to_owned()).unwrap();
    match (&ctx.commands[0], &ctx.commands[1]) {
        (DrawCmd::PlaySound(a), DrawCmd::PlaySound(b)) => {
            assert_eq!(a.handle, 11);
            assert_eq!(a.volume, 1000);
            assert_eq!(a, b);
        }
        other => panic!("expected two playback commands, got {:?}", other),
    }
}

#[test]
fn set_anim_duration_takes_seconds_and_validates() {
    let mut ctx = frame_ctx();
    // 2.0 s, fixed-point.
    set_anim_duration(&mut ctx, &"walk".to_owned(), &Value::Num(2_000)).unwrap();
    assert_eq!(ctx.resources.get_anim("walk").unwrap().duration_us, 2_000_000);
    assert_eq!(
        set_anim_duration(&mut ctx, &"walk".to_owned(), &Value::Num(0)),
        Err(ApiError::Argument(ArgError::NonPositiveDuration))
    );
    assert_eq!(
        set_anim_duration(&mut ctx, &"walk".to_owned(), &Value::Num(-5)),
        Err(ApiError::Argument(ArgError::NonPositiveDuration))
    );
}

#[test]
fn update_rate_round_trip() {
    let mut ctx = frame_ctx();
    assert!(matches!(update_rate(&ctx), Ok(Value::Num(16_666))));
    set_update_rate(&mut ctx, &Value::Num(33_333)).unwrap();
    assert!(matches!(update_rate(&ctx), Ok(Value::Num(33_333))));
    assert_eq!(
        set_update_rate(&mut ctx, &Value::Num(0)),
        Err(ApiError::Argument(ArgError::NonPositiveRate))
    );
}

#[test]
fn pointer_queries_read_the_snapshot() {
    let mut ctx = frame_ctx();
    ctx.input.mouse_pos = Vector { x: 12_000, y: 34_000 };
    ctx.input.wheel_delta = Vector { x: 0, y: -1_000 };
    match mouse_pos(&ctx).unwrap() {
        Value::List(l) => {
            assert!(matches!(l[0], Value::Num(12_000)));
            assert!(matches!(l[1], Value::Num(34_000)));
        }
        other => panic!("expected a point, got {:?}", other),
    }
    match mouse_wheel_delta(&ctx).unwrap() {
        Value::List(l) => {
            assert!(matches!(l[0], Value::Num(0)));
            assert!(matches!(l[1], Value::Num(-1_000)));
        }
        other => panic!("expected a point, got {:?}", other),
    }
}

#[test]
fn keyboard_queries_cover_every_key() {
    let ctx = frame_ctx();
    assert_eq!(keyboard(&ctx).unwrap().len(), NUM_KEYS);
    let downs = keyboard_bool(&ctx).unwrap();
    assert_eq!(downs.len(), NUM_KEYS);
    assert!(downs.iter().all(|d| !d));
}

#[test]
fn set_view_records_rect_and_window_size() {
    let mut ctx = frame_ctx();
    set_view(&mut ctx, &rect_value(0, 0, 400_000, 300_000)).unwrap();
    match &ctx.commands[0] {
        DrawCmd::SetView { rect, winsize } => {
            assert_eq!(rect.size, Vector { x: 400_000, y: 300_000 });
            assert_eq!(*winsize, Vector { x: 800_000, y: 600_000 });
        }
        other => panic!("expected a view command, got {:?}", other),
    }
}

#[test]
fn malformed_arguments_are_reported_precisely() {
    let mut ctx = frame_ctx();
    assert_eq!(
        rect(&mut ctx, &Value::Num(3), None, None),
        Err(ApiError::Argument(ArgError::ExpectedRectangle))
    );
    let three = Value::List(vec![Value::Num(0), Value::Num(0), Value::Num(0)]);
    let bad_rect = Value::List(vec![three, point(0, 0)]);
    assert_eq!(
        rect(&mut ctx, &bad_rect, None, None),
        Err(ApiError::Argument(ArgError::ExpectedPoint))
    );
    assert_eq!(
        circ(&mut ctx, &point(0, 0), &Value::Text("r".to_owned()), None, None),
        Err(ApiError::Argument(ArgError::ExpectedNumber))
    );
    assert_eq!(
        circ(&mut ctx, &point(0, 0), &Value::Num(1 << 31), None, None),
        Err(ApiError::Argument(ArgError::NumberOutOfRange))
    );
    assert_eq!(
        clear(&mut ctx, &Value::List(vec![Value::Num(0)])),
        Err(ApiError::Argument(ArgError::ExpectedColor))
    );
    let bad_row = || Value::List(vec![Value::Num(0), Value::Num(0)]);
    let bad_transform = Value::List(vec![bad_row(), bad_row(), bad_row()]);
    assert_eq!(
        rect(&mut ctx, &rect_value(0, 0, 1000, 1000), Some(&bad_transform), None),
        Err(ApiError::Argument(ArgError::ExpectedTransformRow))
    );
    assert_eq!(
        rect(&mut ctx, &rect_value(0, 0, 1000, 1000), Some(&Value::Num(1)), None),
        Err(ApiError::Argument(ArgError::ExpectedTransform))
    );
    assert_eq!(
        triangle(&mut ctx, &point(0, 0), None, None),
        Err(ApiError::Argument(ArgError::ExpectedTriangle))
    );
    assert!(ctx.commands.is_empty());
}

#[test]
fn text_in_a_named_font_offsets_by_its_size() {
    let cfg = ResourceConfig {
        imgs: vec![],
        anims: vec![],
        sounds: vec![],
        fonts: vec![pyckitup::resources::FontDecl {
            name: "big".to_owned(),
            path: "big.ttf".to_owned(),
            pt: 24_000,
        }],
    };
    let assets = LoadedAssets {
        images: vec![],
        anim_images: vec![],
        sounds: vec![],
        fonts: vec![21],
        default_font: 99,
    };
    let mut ctx = frame_ctx();
    ctx.resources = Resources::build(&cfg, assets);
    text(
        &mut ctx,
        &"big words".to_owned(),
        &point(0, 0),
        None,
        Some(&"big".to_owned()),
    )
    .unwrap();
    match &ctx.commands[1] {
        DrawCmd::DrawText { font, origin, .. } => {
            assert_eq!(font.handle, 21);
            assert_eq!(*origin, Vector { x: 0, y: 24_000 });
        }
        other => panic!("expected a text command, got {:?}", other),
    }
}

#[test]
fn sprite_draws_into_an_explicit_rectangle() {
    let mut ctx = frame_ctx();
    let dest = rect_value(5_000, 5_000, 90_000, 90_000);
    sprite(&mut ctx, &"hero".to_owned(), Some(&dest), None, None).unwrap();
    match &ctx.commands[1] {
        DrawCmd::DrawImage { dest, .. } => {
            assert_eq!(dest.pos, Vector { x: 5_000, y: 5_000 });
            assert_eq!(dest.size, Vector { x: 90_000, y: 90_000 });
        }
        other => panic!("expected an image command, got {:?}", other),
    }
}
