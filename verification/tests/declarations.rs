use pyckitup::api::{bind_module, unbind, ApiError, Binding, Ctx};
use pyckitup::decl::{init_anims, init_fonts, init_sounds, init_sprites};
use pyckitup::geom::Vector;
use pyckitup::input::InputSnapshot;
use pyckitup::resources::{LoadedAssets, ResourceConfig, Resources};
use pyckitup::value::{ArgError, Value};

fn module_ctx() -> Ctx {
    let empty = ResourceConfig { imgs: vec![], anims: vec![], sounds: vec![], fonts: vec![] };
    let assets = LoadedAssets {
        images: vec![],
        anim_images: vec![],
        sounds: vec![],
        fonts: vec![],
        default_font: 99,
    };
    let mut ctx = Ctx {
        gfx_bound: false,
        state_bound: false,
        sprites_bound: false,
        config_bound: false,
        commands: Vec::new(),
        resources: Resources::build(&empty, assets),
        input: InputSnapshot::new(Vector { x: 800_000, y: 600_000 }),
        config: ResourceConfig { imgs: vec![], anims: vec![], sounds: vec![], fonts: vec![] },
    };
    bind_module(&mut ctx);
    ctx
}

fn pair(name: &str, path: &str) -> Value {
    Value::List(vec![Value::Text(name.to_owned()), Value::Text(path.to_owned())])
}

#[test]
fn sprite_declarations_append_in_order() {
    let mut ctx = module_ctx();
    init_sprites(&mut ctx, &Value::List(vec![pair("a", "a.png"), pair("b", "b.png")])).unwrap();
    init_sprites(&mut ctx, &Value::List(vec![pair("c", "c.png")])).unwrap();
    let names: Vec<&str> = ctx.config.imgs.iter().map(|e| e.0.as_str()).collect();
    assert_eq!(names, vec!["a", "b", "c"]);
    assert_eq!(ctx.config.imgs[1].1, "b.png");
}

#[test]
fn sound_declarations_append() {
    let mut ctx = module_ctx();
    init_sounds(&mut ctx, &Value::List(vec![pair("click", "click.wav")])).unwrap();
    assert_eq!(ctx.config.sounds.len(), 1);
    assert_eq!(ctx.config.sounds[0].0, "click");
}

#[test]
fn anim_declaration_converts_units() {
    let mut ctx = module_ctx();
    // Four frames, 1.5 seconds (fixed-point).
    let entry = Value::List(vec![
        Value::Text("walk".to_owned()),
        Value::Text("walk.png".to_owned()),
        Value::Num(4_000),
        Value::Num(1_500),
    ]);
    init_anims(&mut ctx, &Value::List(vec![entry])).unwrap();
    assert_eq!(ctx.config.anims.len(), 1);
    assert_eq!(ctx.config.anims[0].nframes, 4);
    assert_eq!(ctx.config.anims[0].duration_us, 1_500_000);
}

#[test]
fn anim_declaration_rejects_bad_entries() {
    let mut ctx = module_ctx();
    // A fractional frame count is malformed.
    let fractional = Value::List(vec![
        Value::Text("walk".to_owned()),
        Value::Text("walk.png".to_owned()),
        Value::Num(4_500),
        Value::Num(1_000),
    ]);
    assert_eq!(
        init_anims(&mut ctx, &Value::List(vec![fractional])),
        Err(ApiError::Argument(ArgError::BadFrameCount))
    );
    let zero_duration = Value::List(vec![
        Value::Text("walk".to_owned()),
        Value::Text("walk.png".to_owned()),
        Value::Num(4_000),
        Value::Num(0),
    ]);
    assert_eq!(
        init_anims(&mut ctx, &Value::List(vec![zero_duration])),
        Err(ApiError::Argument(ArgError::NonPositiveDuration))
    );
    assert!(ctx.config.anims.is_empty());
}

#[test]
fn font_declaration_validates_size() {
    let mut ctx = module_ctx();
    let good = Value::List(vec![
        Value::Text("big".to_owned()),
        Value::Text("big.ttf".to_owned()),
        Value::Num(24_000),
    ]);
    init_fonts(&mut ctx, &Value::List(vec![good])).unwrap();
    assert_eq!(ctx.config.fonts[0].pt, 24_000);
    let negative = Value::List(vec![
        Value::Text("small".to_owned()),
        Value::Text("small.ttf".to_owned()),
        Value::Num(-1),
    ]);
    assert_eq!(
        init_fonts(&mut ctx, &Value::List(vec![negative])),
        Err(ApiError::Argument(ArgError::NegativeFontSize))
    );
    assert_eq!(ctx.config.fonts.len(), 1);
}

#[test]
fn malformed_entry_rejects_the_whole_call() {
    let mut ctx = module_ctx();
    let bad = Value::List(vec![Value::Text("only-a-name".to_owned())]);
    assert_eq!(
        init_sprites(&mut ctx, &Value::List(vec![pair("a", "a.png"), bad])),
        Err(ApiError::Argument(ArgError::ExpectedNamePath))
    );
    assert!(ctx.config.imgs.is_empty());
    assert_eq!(
        init_sprites(&mut ctx, &Value::Num(3)),
        Err(ApiError::Argument(ArgError::ExpectedList))
    );
}

#[test]
fn declarations_are_refused_outside_module_evaluation() {
    // Declaration calls are valid only while the entry module is being
    // evaluated; afterwards the binding is gone.
    let mut ctx = module_ctx();
    unbind(&mut ctx);
    assert_eq!(
        init_sprites(&mut ctx, &Value::List(vec![pair("a", "a.png")])),
        Err(ApiError::NoContext(Binding::Config))
    );
    assert!(ctx.config.imgs.is_empty());
}

#[test]
fn anim_entry_needs_four_fields() {
    let mut ctx = module_ctx();
    let short = Value::List(vec![
        Value::Text("walk".to_owned()),
        Value::Text("walk.png".to_owned()),
        Value::Num(4_000),
    ]);
    assert_eq!(
        init_anims(&mut ctx, &Value::List(vec![short])),
        Err(ApiError::Argument(ArgError::ExpectedAnimEntry))
    );
}

#[test]
fn font_entry_needs_name_path_and_size() {
    let mut ctx = module_ctx();
    let bad = Value::List(vec![
        Value::Num(1),
        Value::Text("big.ttf".to_owned()),
        Value::Num(24_000),
    ]);
    assert_eq!(
        init_fonts(&mut ctx, &Value::List(vec![bad])),
        Err(ApiError::Argument(ArgError::ExpectedFontEntry))
    );
}
