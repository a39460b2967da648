use pyckitup::api::{bind_event, bind_frame, text, unbind, Ctx, DrawCmd};
use pyckitup::events::{translate_event, EventRecord};
use pyckitup::geom::Vector;
use pyckitup::host::{script_error, CallbackKind, Host, HostError};
use pyckitup::input::{ButtonState, Event, InputSnapshot, MouseButton};
use pyckitup::resources::{AnimDecl, ImageHandle, LoadedAssets, ResourceConfig, Resources};
use pyckitup::value::Value;

fn fresh_ctx() -> Ctx {
    let empty = ResourceConfig { imgs: vec![], anims: vec![], sounds: vec![], fonts: vec![] };
    let assets = LoadedAssets {
        images: vec![],
        anim_images: vec![],
        sounds: vec![],
        fonts: vec![],
        default_font: 99,
    };
    Ctx {
        gfx_bound: false,
        state_bound: false,
        sprites_bound: false,
        config_bound: false,
        commands: Vec::new(),
        resources: Resources::build(&empty, assets),
        input: InputSnapshot::new(Vector { x: 800_000, y: 600_000 }),
        config: ResourceConfig { imgs: vec![], anims: vec![], sounds: vec![], fonts: vec![] },
    }
}

#[test]
fn count_script_end_to_end() {
    // A script whose `init` returns a counter at zero, whose `update`
    // increments it, and whose `draw` draws the counter as text: after
    // the updates of five frames of exactly one period each, the drawn
    // text is "5".
    let mut ctx = fresh_ctx();
    let mut host = Host::new(true, true, true, false);
    let mut count: i64 = 0;  // the script state `init` returned
    let period = ctx.input.update_rate_us;
    for frame in 0..5u64 {
        let call_onload = host.begin_frame();
        assert_eq!(call_onload, frame == 0);
        let call_update = host.update_tick(&mut ctx, period);
        assert!(call_update);
        bind_frame(&mut ctx);
        count += 1;  // the `update` callback runs here
        unbind(&mut ctx);
        let call_draw = host.begin_draw(&mut ctx);
        assert!(call_draw);
        bind_frame(&mut ctx);
        text(&mut ctx, &format!("{}", count), &point(0, 0), None, None).unwrap();
        unbind(&mut ctx);
    }
    let drawn: Vec<&String> = ctx
        .commands
        .iter()
        .filter_map(|c| match c {
            DrawCmd::DrawText { text, .. } => Some(text),
            _ => None,
        })
        .collect();
    assert_eq!(drawn.len(), 5);
    assert_eq!(drawn[4], "5");
}

fn point(x: i64, y: i64) -> Value {
    Value::List(vec![Value::Num(x), Value::Num(y)])
}

#[test]
fn onload_runs_once_before_any_update() {
    let mut host = Host::new(true, true, true, false);
    assert!(host.begin_frame());
    assert!(!host.begin_frame());
    let mut no_onload = Host::new(false, true, true, false);
    assert!(!no_onload.begin_frame());
}

#[test]
fn update_is_rate_limited_with_residual_kept() {
    let mut ctx = fresh_ctx();
    ctx.input.update_rate_us = 16_660;
    let mut host = Host::new(false, true, true, false);
    let mut fired: u32 = 0;
    for _ in 0..3 {
        host.begin_frame();
        if host.update_tick(&mut ctx, 13_333) {
            fired += 1;
        }
    }
    assert_eq!(fired, 2);
    assert_eq!(host.clock.acc_us, 6_679);
}

#[test]
fn update_tick_advances_animations_only_when_firing() {
    let cfg = ResourceConfig {
        imgs: vec![],
        anims: vec![AnimDecl {
            name: "walk".to_owned(),
            path: "walk.png".to_owned(),
            nframes: 4,
            duration_us: 1_000_000,
        }],
        sounds: vec![],
        fonts: vec![],
    };
    let assets = LoadedAssets {
        images: vec![],
        anim_images: vec![ImageHandle { id: 3, width: 400_000, height: 100_000 }],
        sounds: vec![],
        fonts: vec![],
        default_font: 99,
    };
    let mut ctx = fresh_ctx();
    ctx.resources = Resources::build(&cfg, assets);
    ctx.input.update_rate_us = 10_000;
    let mut host = Host::new(false, true, true, false);
    assert!(!host.update_tick(&mut ctx, 4_000));
    assert_eq!(ctx.resources.get_anim("walk").unwrap().current_us, 0);
    assert!(host.update_tick(&mut ctx, 7_000));
    // The animation advances by exactly one period when an update
    // fires.
    assert_eq!(ctx.resources.get_anim("walk").unwrap().current_us, 10_000);
}

#[test]
fn begin_draw_clears_before_the_callback() {
    let mut ctx = fresh_ctx();
    let host = Host::new(false, false, true, false);
    assert!(host.begin_draw(&mut ctx));
    assert_eq!(ctx.commands.len(), 1);
    assert!(matches!(ctx.commands[0], DrawCmd::Clear(_)));
}

#[test]
fn script_errors_name_the_callback() {
    let e = script_error(CallbackKind::Update, "boom".to_owned());
    assert_eq!(
        e,
        HostError::Script { callback: CallbackKind::Update, message: "boom".to_owned() }
    );
}

#[test]
fn button_state_machine_transitions() {
    let mut b = ButtonState::NotPressed;
    b.update(true);
    assert_eq!(b, ButtonState::Pressed);
    assert!(b.is_down());
    b.update(true);
    assert_eq!(b, ButtonState::Held);
    b.update(false);
    assert_eq!(b, ButtonState::Released);
    assert!(!b.is_down());
    b.update(false);
    assert_eq!(b, ButtonState::NotPressed);
}

#[test]
fn key_events_update_then_translate_in_order() {
    // The snapshot is applied before translation, so the record
    // carries the state after the press it reports.
    let mut ctx = fresh_ctx();
    let e = Event::KeyboardInput { key: 10, down: true };
    ctx.input.process_event(&e);
    bind_event(&mut ctx);
    match translate_event(&e, &ctx.input) {
        Some(EventRecord::Key { key, state }) => {
            assert_eq!(key, 10);
            assert_eq!(state, ButtonState::Pressed);
        }
        other => panic!("expected a key record, got {:?}", other),
    }
}

#[test]
fn pointer_and_wheel_records_read_the_snapshot() {
    let mut ctx = fresh_ctx();
    let moved = Event::PointerMoved(Vector { x: 3_000, y: 4_000 });
    ctx.input.process_event(&moved);
    assert_eq!(
        translate_event(&moved, &ctx.input),
        Some(EventRecord::MouseMoved { x: 3_000, y: 4_000 })
    );
    let scrolled = Event::ScrollInput(Vector { x: 0, y: -2_000 });
    ctx.input.process_event(&scrolled);
    assert_eq!(
        translate_event(&scrolled, &ctx.input),
        Some(EventRecord::MouseWheel { x: 0, y: -2_000 })
    );
    let clicked = Event::PointerInput { button: MouseButton::Left, down: true };
    ctx.input.process_event(&clicked);
    assert_eq!(
        translate_event(&clicked, &ctx.input),
        Some(EventRecord::Button {
            button: MouseButton::Left,
            down: true,
            state: ButtonState::Pressed,
        })
    );
    // Buttons the host does not track produce no record.
    let other = Event::PointerInput { button: MouseButton::Other, down: true };
    ctx.input.process_event(&other);
    assert_eq!(translate_event(&other, &ctx.input), None);
    // A resize updates the snapshot silently.
    let resized = Event::Resized(Vector { x: 1_000_000, y: 500_000 });
    ctx.input.process_event(&resized);
    assert_eq!(translate_event(&resized, &ctx.input), None);
    assert_eq!(ctx.input.winsize, Vector { x: 1_000_000, y: 500_000 });
}

#[test]
fn focus_and_typing_records() {
    let ctx = fresh_ctx();
    assert_eq!(
        translate_event(&Event::FocusChanged(true), &ctx.input),
        Some(EventRecord::Focused)
    );
    assert_eq!(
        translate_event(&Event::FocusChanged(false), &ctx.input),
        Some(EventRecord::Unfocused)
    );
    assert_eq!(
        translate_event(&Event::ReceivedCharacter('q'), &ctx.input),
        Some(EventRecord::Typed { character: 'q' })
    );
    assert_eq!(
        translate_event(&Event::PointerEntered, &ctx.input),
        Some(EventRecord::MouseEntered)
    );
    assert_eq!(
        translate_event(&Event::PointerExited, &ctx.input),
        Some(EventRecord::MouseExited)
    );
}

#[test]
fn startup_errors_carry_their_message() {
    let e = pyckitup::host::startup_error("couldn't load image hero.png".to_owned());
    assert_eq!(
        e,
        HostError::Startup { message: "couldn't load image hero.png".to_owned() }
    );
}
