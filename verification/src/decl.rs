//! The resource-declaration calls, valid only while the entry module
//! is being evaluated.
//!
//! Each call takes a list of entries and appends them to the
//! [`ResourceConfig`](crate::resources::ResourceConfig) of the bound
//! context.  Parsing is atomic: a malformed entry rejects the whole
//! call and appends nothing.  The first malformed entry, in list
//! order, names the error.

use vstd::prelude::*;
use crate::api::{ApiError, Binding, Ctx};
use crate::anim::MAX_FRAMES;
use crate::api::MAX_DURATION_MS;
use crate::fixed::{NUM_LIMIT, SCALE};
use crate::resources::{AnimDecl, FontDecl, ResourceConfig};
use crate::value::{ArgError, Value};

verus! {

/// A parsed `[name, path]` entry.
pub struct PairView {
    pub name: Seq<char>,
    pub path: Seq<char>,
}

/// A parsed `[name, path, frame_count, duration]` entry, the duration
/// already in microseconds.
pub struct AnimEntryView {
    pub name: Seq<char>,
    pub path: Seq<char>,
    pub nframes: u64,
    pub duration_us: u64,
}

/// A parsed `[name, path, size]` entry.
pub struct FontEntryView {
    pub name: Seq<char>,
    pub path: Seq<char>,
    pub pt: i64,
}

/// How one `[name, path]` entry parses.
pub open spec fn decl_pair_spec(v: Value) -> Result<PairView, ArgError> {
    match v {
        Value::List(l) => if l@.len() != 2 {
            Err(ArgError::ExpectedNamePath)
        } else {
            match (l@[0], l@[1]) {
                (Value::Text(a), Value::Text(b)) => Ok(PairView { name: a@, path: b@ }),
                _ => Err(ArgError::ExpectedNamePath),
            }
        },
        _ => Err(ArgError::ExpectedNamePath),
    }
}

/// How one animation entry parses: the frame count must be a whole,
/// positive number within the host's limit, and the duration (given in
/// fixed-point seconds) positive and within range.
pub open spec fn anim_entry_spec(v: Value) -> Result<AnimEntryView, ArgError> {
    match v {
        Value::List(l) => if l@.len() != 4 {
            Err(ArgError::ExpectedAnimEntry)
        } else {
            match (l@[0], l@[1], l@[2], l@[3]) {
                (Value::Text(a), Value::Text(b), Value::Num(n), Value::Num(d)) => if !(n % SCALE
                    == 0 && SCALE <= n && n / SCALE <= MAX_FRAMES) {
                    Err(ArgError::BadFrameCount)
                } else if d <= 0 {
                    Err(ArgError::NonPositiveDuration)
                } else if d > MAX_DURATION_MS {
                    Err(ArgError::NumberOutOfRange)
                } else {
                    Ok(
                        AnimEntryView {
                            name: a@,
                            path: b@,
                            nframes: (n / SCALE) as u64,
                            duration_us: (d * 1000) as u64,
                        },
                    )
                },
                _ => Err(ArgError::ExpectedAnimEntry),
            }
        },
        _ => Err(ArgError::ExpectedAnimEntry),
    }
}

/// How one font entry parses: the size must not be negative and must
/// be within the host's range.
pub open spec fn font_entry_spec(v: Value) -> Result<FontEntryView, ArgError> {
    match v {
        Value::List(l) => if l@.len() != 3 {
            Err(ArgError::ExpectedFontEntry)
        } else {
            match (l@[0], l@[1], l@[2]) {
                (Value::Text(a), Value::Text(b), Value::Num(p)) => if p < 0 {
                    Err(ArgError::NegativeFontSize)
                } else if p > NUM_LIMIT {
                    Err(ArgError::NumberOutOfRange)
                } else {
                    Ok(FontEntryView { name: a@, path: b@, pt: p })
                },
                _ => Err(ArgError::ExpectedFontEntry),
            }
        },
        _ => Err(ArgError::ExpectedFontEntry),
    }
}

/// How a whole entry list parses: entries in order, first error wins.
pub open spec fn entries_spec<T>(vs: Seq<Value>, f: spec_fn(Value) -> Result<T, ArgError>) -> Result<
    Seq<T>,
    ArgError,
>
    decreases vs.len(),
{
    if vs.len() == 0 {
        Ok(Seq::empty())
    } else {
        match entries_spec(vs.drop_last(), f) {
            Err(e) => Err(e),
            Ok(ps) => match f(vs.last()) {
                Err(e) => Err(e),
                Ok(p) => Ok(ps.push(p)),
            },
        }
    }
}

/// If every entry before position `i` parses and entry `i` does not,
/// the whole list parses to entry `i`'s error.
pub proof fn lemma_entries_err<T>(vs: Seq<Value>, f: spec_fn(Value) -> Result<T, ArgError>, i: int)
    requires
        0 <= i < vs.len(),
        entries_spec(vs.take(i), f) is Ok,
        f(vs[i]) is Err,
    ensures
        entries_spec(vs, f) == Err::<Seq<T>, ArgError>(f(vs[i])->Err_0),
    decreases vs.len(),
{
    if i == vs.len() - 1 {
        assert(vs.take(i) =~= vs.drop_last());
    } else {
        assert(vs.drop_last().take(i) =~= vs.take(i));
        lemma_entries_err(vs.drop_last(), f, i);
    }
}

/// Declares sprite images: `[[name, path], ...]`.
pub fn init_sprites(ctx: &mut Ctx, imgs: &Value) -> (r: Result<(), ApiError>)
    requires
        old(ctx).wf(),
    ensures
        final(ctx).wf(),
        ({
            let c0 = *old(ctx);
            let c1 = *final(ctx);
            match *imgs {
                Value::List(l) => if !c0.config_bound {
                    r == Err::<(), ApiError>(ApiError::NoContext(Binding::Config)) && c1 == c0
                } else {
                    match entries_spec(l@, |v: Value| decl_pair_spec(v)) {
                        Err(e) => r == Err::<(), ApiError>(ApiError::Argument(e)) && c1 == c0,
                        Ok(ps) => {
                            &&& r == Ok::<(), ApiError>(())
                            &&& c1 == (Ctx { config: c1.config, ..c0 })
                            &&& c1.config == (ResourceConfig {
                                imgs: c1.config.imgs,
                                ..c0.config
                            })
                            &&& c1.config.imgs@.len() == c0.config.imgs@.len() + ps.len()
                            &&& forall|j: int|
                                0 <= j < c0.config.imgs@.len() ==> c1.config.imgs@[j]
                                    == c0.config.imgs@[j]
                            &&& forall|j: int|
                                0 <= j < ps.len() ==> (#[trigger] c1.config.imgs@[c0.config.imgs@.len()
                                    + j]).0@ == ps[j].name && c1.config.imgs@[c0.config.imgs@.len()
                                    + j].1@ == ps[j].path
                        },
                    }
                },
                _ => r == Err::<(), ApiError>(ApiError::Argument(ArgError::ExpectedList)) && c1
                    == c0,
            }
        }),
{
    let l: &Vec<Value> = match imgs {
        Value::List(l) => l,
        _ => {
            return Err(ApiError::Argument(ArgError::ExpectedList));
        },
    };
    if !ctx.config_bound {
        return Err(ApiError::NoContext(Binding::Config));
    }
    let parsed: Vec<(String, String)> = match parse_pairs(l) {
        Ok(p) => p,
        Err(e) => {
            return Err(ApiError::Argument(e));
        },
    };
    let ghost ps = entries_spec(l@, |v: Value| decl_pair_spec(v))->Ok_0;
    let ghost base = ctx.config.imgs@;
    let mut k: usize = 0;
    let n: usize = parsed.len();
    let mut parsed: Vec<(String, String)> = parsed;
    // Append in order: take elements from the front of the parsed
    // list.
    let ghost parsed0 = parsed@;
    while k < n
        invariant
            k <= n,
            n == parsed0.len(),
            parsed@ =~= parsed0.skip(k as int),
            ctx.config.imgs@.len() == base.len() + k,
            forall|j: int| 0 <= j < base.len() ==> ctx.config.imgs@[j] == base[j],
            forall|j: int| 0 <= j < k ==> ctx.config.imgs@[base.len() + j] == parsed0[j],
            *ctx == (Ctx { config: ctx.config, ..*old(ctx) }),
            ctx.config == (ResourceConfig { imgs: ctx.config.imgs, ..old(ctx).config }),
        decreases n - k,
    {
        let pair: (String, String) = parsed.remove(0);
        ctx.config.imgs.push(pair);
        k = k + 1;
    }
    proof {
        assert(forall|j: int|
            0 <= j < ps.len() ==> parsed0[j].0@ == ps[j].name && parsed0[j].1@ == ps[j].path);
    }
    Ok(())
}

/// Declares sound clips: `[[name, path], ...]`.
pub fn init_sounds(ctx: &mut Ctx, sounds: &Value) -> (r: Result<(), ApiError>)
    requires
        old(ctx).wf(),
    ensures
        final(ctx).wf(),
        ({
            let c0 = *old(ctx);
            let c1 = *final(ctx);
            match *sounds {
                Value::List(l) => if !c0.config_bound {
                    r == Err::<(), ApiError>(ApiError::NoContext(Binding::Config)) && c1 == c0
                } else {
                    match entries_spec(l@, |v: Value| decl_pair_spec(v)) {
                        Err(e) => r == Err::<(), ApiError>(ApiError::Argument(e)) && c1 == c0,
                        Ok(ps) => {
                            &&& r == Ok::<(), ApiError>(())
                            &&& c1 == (Ctx { config: c1.config, ..c0 })
                            &&& c1.config == (ResourceConfig {
                                sounds: c1.config.sounds,
                                ..c0.config
                            })
                            &&& c1.config.sounds@.len() == c0.config.sounds@.len() + ps.len()
                            &&& forall|j: int|
                                0 <= j < c0.config.sounds@.len() ==> c1.config.sounds@[j]
                                    == c0.config.sounds@[j]
                            &&& forall|j: int|
                                0 <= j < ps.len() ==> (#[trigger] c1.config.sounds@[c0.config.sounds@.len()
                                    + j]).0@ == ps[j].name && c1.config.sounds@[c0.config.sounds@.len()
                                    + j].1@ == ps[j].path
                        },
                    }
                },
                _ => r == Err::<(), ApiError>(ApiError::Argument(ArgError::ExpectedList)) && c1
                    == c0,
            }
        }),
{
    let l: &Vec<Value> = match sounds {
        Value::List(l) => l,
        _ => {
            return Err(ApiError::Argument(ArgError::ExpectedList));
        },
    };
    if !ctx.config_bound {
        return Err(ApiError::NoContext(Binding::Config));
    }
    let parsed: Vec<(String, String)> = match parse_pairs(l) {
        Ok(p) => p,
        Err(e) => {
            return Err(ApiError::Argument(e));
        },
    };
    let ghost ps = entries_spec(l@, |v: Value| decl_pair_spec(v))->Ok_0;
    let ghost base = ctx.config.sounds@;
    let mut k: usize = 0;
    let n: usize = parsed.len();
    let mut parsed: Vec<(String, String)> = parsed;
    let ghost parsed0 = parsed@;
    while k < n
        invariant
            k <= n,
            n == parsed0.len(),
            parsed@ =~= parsed0.skip(k as int),
            ctx.config.sounds@.len() == base.len() + k,
            forall|j: int| 0 <= j < base.len() ==> ctx.config.sounds@[j] == base[j],
            forall|j: int| 0 <= j < k ==> ctx.config.sounds@[base.len() + j] == parsed0[j],
            *ctx == (Ctx { config: ctx.config, ..*old(ctx) }),
            ctx.config == (ResourceConfig { sounds: ctx.config.sounds, ..old(ctx).config }),
        decreases n - k,
    {
        let pair: (String, String) = parsed.remove(0);
        ctx.config.sounds.push(pair);
        k = k + 1;
    }
    proof {
        assert(forall|j: int|
            0 <= j < ps.len() ==> parsed0[j].0@ == ps[j].name && parsed0[j].1@ == ps[j].path);
    }
    Ok(())
}

/// Declares sprite-strip animations:
/// `[[name, path, frame_count, duration], ...]`, the duration in
/// seconds.
pub fn init_anims(ctx: &mut Ctx, anims: &Value) -> (r: Result<(), ApiError>)
    requires
        old(ctx).wf(),
    ensures
        final(ctx).wf(),
        ({
            let c0 = *old(ctx);
            let c1 = *final(ctx);
            match *anims {
                Value::List(l) => if !c0.config_bound {
                    r == Err::<(), ApiError>(ApiError::NoContext(Binding::Config)) && c1 == c0
                } else {
                    match entries_spec(l@, |v: Value| anim_entry_spec(v)) {
                        Err(e) => r == Err::<(), ApiError>(ApiError::Argument(e)) && c1 == c0,
                        Ok(ps) => {
                            &&& r == Ok::<(), ApiError>(())
                            &&& c1 == (Ctx { config: c1.config, ..c0 })
                            &&& c1.config == (ResourceConfig {
                                anims: c1.config.anims,
                                ..c0.config
                            })
                            &&& c1.config.anims@.len() == c0.config.anims@.len() + ps.len()
                            &&& forall|j: int|
                                0 <= j < c0.config.anims@.len() ==> c1.config.anims@[j]
                                    == c0.config.anims@[j]
                            &&& forall|j: int|
                                0 <= j < ps.len() ==> (#[trigger] c1.config.anims@[c0.config.anims@.len()
                                    + j]).name@ == ps[j].name && c1.config.anims@[c0.config.anims@.len()
                                    + j].path@ == ps[j].path && c1.config.anims@[c0.config.anims@.len()
                                    + j].nframes == ps[j].nframes
                                    && c1.config.anims@[c0.config.anims@.len() + j].duration_us
                                    == ps[j].duration_us
                        },
                    }
                },
                _ => r == Err::<(), ApiError>(ApiError::Argument(ArgError::ExpectedList)) && c1
                    == c0,
            }
        }),
{
    let l: &Vec<Value> = match anims {
        Value::List(l) => l,
        _ => {
            return Err(ApiError::Argument(ArgError::ExpectedList));
        },
    };
    if !ctx.config_bound {
        return Err(ApiError::NoContext(Binding::Config));
    }
    let parsed: Vec<AnimDecl> = match parse_anim_entries(l) {
        Ok(p) => p,
        Err(e) => {
            return Err(ApiError::Argument(e));
        },
    };
    let ghost ps = entries_spec(l@, |v: Value| anim_entry_spec(v))->Ok_0;
    let ghost base = ctx.config.anims@;
    let mut k: usize = 0;
    let n: usize = parsed.len();
    let mut parsed: Vec<AnimDecl> = parsed;
    let ghost parsed0 = parsed@;
    while k < n
        invariant
            k <= n,
            n == parsed0.len(),
            parsed@ =~= parsed0.skip(k as int),
            ctx.config.anims@.len() == base.len() + k,
            forall|j: int| 0 <= j < base.len() ==> ctx.config.anims@[j] == base[j],
            forall|j: int| 0 <= j < k ==> ctx.config.anims@[base.len() + j] == parsed0[j],
            forall|j: int| 0 <= j < ctx.config.anims@.len() ==> (#[trigger]
                ctx.config.anims@[j]).wf(),
            forall|j: int| 0 <= j < parsed0.len() ==> (#[trigger] parsed0[j]).wf(),
            *ctx == (Ctx { config: ctx.config, ..*old(ctx) }),
            ctx.config == (ResourceConfig { anims: ctx.config.anims, ..old(ctx).config }),
        decreases n - k,
    {
        let decl: AnimDecl = parsed.remove(0);
        ctx.config.anims.push(decl);
        k = k + 1;
    }
    proof {
        assert(forall|j: int|
            0 <= j < ps.len() ==> parsed0[j].name@ == ps[j].name && parsed0[j].path@ == ps[j].path
                && parsed0[j].nframes == ps[j].nframes && parsed0[j].duration_us
                == ps[j].duration_us);
    }
    Ok(())
}

/// Declares fonts: `[[name, path, size], ...]`.
pub fn init_fonts(ctx: &mut Ctx, fonts: &Value) -> (r: Result<(), ApiError>)
    requires
        old(ctx).wf(),
    ensures
        final(ctx).wf(),
        ({
            let c0 = *old(ctx);
            let c1 = *final(ctx);
            match *fonts {
                Value::List(l) => if !c0.config_bound {
                    r == Err::<(), ApiError>(ApiError::NoContext(Binding::Config)) && c1 == c0
                } else {
                    match entries_spec(l@, |v: Value| font_entry_spec(v)) {
                        Err(e) => r == Err::<(), ApiError>(ApiError::Argument(e)) && c1 == c0,
                        Ok(ps) => {
                            &&& r == Ok::<(), ApiError>(())
                            &&& c1 == (Ctx { config: c1.config, ..c0 })
                            &&& c1.config == (ResourceConfig {
                                fonts: c1.config.fonts,
                                ..c0.config
                            })
                            &&& c1.config.fonts@.len() == c0.config.fonts@.len() + ps.len()
                            &&& forall|j: int|
                                0 <= j < c0.config.fonts@.len() ==> c1.config.fonts@[j]
                                    == c0.config.fonts@[j]
                            &&& forall|j: int|
                                0 <= j < ps.len() ==> (#[trigger] c1.config.fonts@[c0.config.fonts@.len()
                                    + j]).name@ == ps[j].name && c1.config.fonts@[c0.config.fonts@.len()
                                    + j].path@ == ps[j].path && c1.config.fonts@[c0.config.fonts@.len()
                                    + j].pt == ps[j].pt
                        },
                    }
                },
                _ => r == Err::<(), ApiError>(ApiError::Argument(ArgError::ExpectedList)) && c1
                    == c0,
            }
        }),
{
    let l: &Vec<Value> = match fonts {
        Value::List(l) => l,
        _ => {
            return Err(ApiError::Argument(ArgError::ExpectedList));
        },
    };
    if !ctx.config_bound {
        return Err(ApiError::NoContext(Binding::Config));
    }
    let parsed: Vec<FontDecl> = match parse_font_entries(l) {
        Ok(p) => p,
        Err(e) => {
            return Err(ApiError::Argument(e));
        },
    };
    let ghost ps = entries_spec(l@, |v: Value| font_entry_spec(v))->Ok_0;
    let ghost base = ctx.config.fonts@;
    let mut k: usize = 0;
    let n: usize = parsed.len();
    let mut parsed: Vec<FontDecl> = parsed;
    let ghost parsed0 = parsed@;
    while k < n
        invariant
            k <= n,
            n == parsed0.len(),
            parsed@ =~= parsed0.skip(k as int),
            ctx.config.fonts@.len() == base.len() + k,
            forall|j: int| 0 <= j < base.len() ==> ctx.config.fonts@[j] == base[j],
            forall|j: int| 0 <= j < k ==> ctx.config.fonts@[base.len() + j] == parsed0[j],
            forall|j: int| 0 <= j < ctx.config.fonts@.len() ==> (#[trigger]
                ctx.config.fonts@[j]).wf(),
            forall|j: int| 0 <= j < parsed0.len() ==> (#[trigger] parsed0[j]).wf(),
            *ctx == (Ctx { config: ctx.config, ..*old(ctx) }),
            ctx.config == (ResourceConfig { fonts: ctx.config.fonts, ..old(ctx).config }),
        decreases n - k,
    {
        let decl: FontDecl = parsed.remove(0);
        ctx.config.fonts.push(decl);
        k = k + 1;
    }
    proof {
        assert(forall|j: int|
            0 <= j < ps.len() ==> parsed0[j].name@ == ps[j].name && parsed0[j].path@ == ps[j].path
                && parsed0[j].pt == ps[j].pt);
    }
    Ok(())
}

/// Parses a list of animation entries.
fn parse_anim_entries(l: &Vec<Value>) -> (r: Result<Vec<AnimDecl>, ArgError>)
    ensures
        ({
            let spec = entries_spec(l@, |v: Value| anim_entry_spec(v));
            match r {
                Ok(out) => {
                    &&& spec is Ok
                    &&& out@.len() == spec->Ok_0.len()
                    &&& forall|j: int|
                        0 <= j < out@.len() ==> (#[trigger] out@[j]).name@ == spec->Ok_0[j].name
                            && out@[j].path@ == spec->Ok_0[j].path && out@[j].nframes
                            == spec->Ok_0[j].nframes && out@[j].duration_us
                            == spec->Ok_0[j].duration_us
                    &&& forall|j: int| 0 <= j < out@.len() ==> (#[trigger] out@[j]).wf()
                },
                Err(e) => spec == Err::<Seq<AnimEntryView>, ArgError>(e),
            }
        }),
{
    let ghost f = |v: Value| anim_entry_spec(v);
    let mut out: Vec<AnimDecl> = Vec::new();
    let mut i: usize = 0;
    while i < l.len()
        invariant
            i <= l@.len(),
            entries_spec(l@.take(i as int), f) is Ok,
            out@.len() == entries_spec(l@.take(i as int), f)->Ok_0.len(),
            forall|j: int|
                0 <= j < out@.len() ==> (#[trigger] out@[j]).name@ == entries_spec(
                    l@.take(i as int),
                    f,
                )->Ok_0[j].name && out@[j].path@ == entries_spec(l@.take(i as int), f)->Ok_0[j].path
                    && out@[j].nframes == entries_spec(l@.take(i as int), f)->Ok_0[j].nframes
                    && out@[j].duration_us == entries_spec(l@.take(i as int), f)->Ok_0[j].duration_us,
            forall|j: int| 0 <= j < out@.len() ==> (#[trigger] out@[j]).wf(),
            f == (|v: Value| anim_entry_spec(v)),
        decreases l@.len() - i,
    {
        let entry: &Value = &l[i];
        let decl: AnimDecl = match entry {
            Value::List(inner) => {
                if inner.len() != 4 {
                    proof {
                        lemma_entries_err(l@, f, i as int);
                    }
                    return Err(ArgError::ExpectedAnimEntry);
                }
                let name: String = match &inner[0] {
                    Value::Text(s) => s.clone(),
                    _ => {
                        proof {
                            lemma_entries_err(l@, f, i as int);
                        }
                        return Err(ArgError::ExpectedAnimEntry);
                    },
                };
                let path: String = match &inner[1] {
                    Value::Text(s) => s.clone(),
                    _ => {
                        proof {
                            lemma_entries_err(l@, f, i as int);
                        }
                        return Err(ArgError::ExpectedAnimEntry);
                    },
                };
                let nf: i64 = match &inner[2] {
                    Value::Num(n) => *n,
                    _ => {
                        proof {
                            lemma_entries_err(l@, f, i as int);
                        }
                        return Err(ArgError::ExpectedAnimEntry);
                    },
                };
                let dur: i64 = match &inner[3] {
                    Value::Num(d) => *d,
                    _ => {
                        proof {
                            lemma_entries_err(l@, f, i as int);
                        }
                        return Err(ArgError::ExpectedAnimEntry);
                    },
                };
                if !(nf % SCALE == 0 && SCALE <= nf && nf / SCALE <= MAX_FRAMES as i64) {
                    proof {
                        lemma_entries_err(l@, f, i as int);
                    }
                    return Err(ArgError::BadFrameCount);
                }
                if dur <= 0 {
                    proof {
                        lemma_entries_err(l@, f, i as int);
                    }
                    return Err(ArgError::NonPositiveDuration);
                }
                if dur > MAX_DURATION_MS {
                    proof {
                        lemma_entries_err(l@, f, i as int);
                    }
                    return Err(ArgError::NumberOutOfRange);
                }
                AnimDecl {
                    name,
                    path,
                    nframes: (nf / SCALE) as u64,
                    duration_us: (dur as u64) * 1000,
                }
            },
            _ => {
                proof {
                    lemma_entries_err(l@, f, i as int);
                }
                return Err(ArgError::ExpectedAnimEntry);
            },
        };
        out.push(decl);
        proof {
            assert(l@.take(i + 1).drop_last() =~= l@.take(i as int));
            assert(l@.take(i + 1).last() == l@[i as int]);
        }
        i = i + 1;
    }
    proof {
        assert(l@.take(l@.len() as int) =~= l@);
    }
    Ok(out)
}

/// Parses a list of font entries.
fn parse_font_entries(l: &Vec<Value>) -> (r: Result<Vec<FontDecl>, ArgError>)
    ensures
        ({
            let spec = entries_spec(l@, |v: Value| font_entry_spec(v));
            match r {
                Ok(out) => {
                    &&& spec is Ok
                    &&& out@.len() == spec->Ok_0.len()
                    &&& forall|j: int|
                        0 <= j < out@.len() ==> (#[trigger] out@[j]).name@ == spec->Ok_0[j].name
                            && out@[j].path@ == spec->Ok_0[j].path && out@[j].pt
                            == spec->Ok_0[j].pt
                    &&& forall|j: int| 0 <= j < out@.len() ==> (#[trigger] out@[j]).wf()
                },
                Err(e) => spec == Err::<Seq<FontEntryView>, ArgError>(e),
            }
        }),
{
    let ghost f = |v: Value| font_entry_spec(v);
    let mut out: Vec<FontDecl> = Vec::new();
    let mut i: usize = 0;
    while i < l.len()
        invariant
            i <= l@.len(),
            entries_spec(l@.take(i as int), f) is Ok,
            out@.len() == entries_spec(l@.take(i as int), f)->Ok_0.len(),
            forall|j: int|
                0 <= j < out@.len() ==> (#[trigger] out@[j]).name@ == entries_spec(
                    l@.take(i as int),
                    f,
                )->Ok_0[j].name && out@[j].path@ == entries_spec(l@.take(i as int), f)->Ok_0[j].path
                    && out@[j].pt == entries_spec(l@.take(i as int), f)->Ok_0[j].pt,
            forall|j: int| 0 <= j < out@.len() ==> (#[trigger] out@[j]).wf(),
            f == (|v: Value| font_entry_spec(v)),
        decreases l@.len() - i,
    {
        let entry: &Value = &l[i];
        let decl: FontDecl = match entry {
            Value::List(inner) => {
                if inner.len() != 3 {
                    proof {
                        lemma_entries_err(l@, f, i as int);
                    }
                    return Err(ArgError::ExpectedFontEntry);
                }
                let name: String = match &inner[0] {
                    Value::Text(s) => s.clone(),
                    _ => {
                        proof {
                            lemma_entries_err(l@, f, i as int);
                        }
                        return Err(ArgError::ExpectedFontEntry);
                    },
                };
                let path: String = match &inner[1] {
                    Value::Text(s) => s.clone(),
                    _ => {
                        proof {
                            lemma_entries_err(l@, f, i as int);
                        }
                        return Err(ArgError::ExpectedFontEntry);
                    },
                };
                let pt: i64 = match &inner[2] {
                    Value::Num(p) => *p,
                    _ => {
                        proof {
                            lemma_entries_err(l@, f, i as int);
                        }
                        return Err(ArgError::ExpectedFontEntry);
                    },
                };
                if pt < 0 {
                    proof {
                        lemma_entries_err(l@, f, i as int);
                    }
                    return Err(ArgError::NegativeFontSize);
                }
                if pt > NUM_LIMIT {
                    proof {
                        lemma_entries_err(l@, f, i as int);
                    }
                    return Err(ArgError::NumberOutOfRange);
                }
                FontDecl { name, path, pt }
            },
            _ => {
                proof {
                    lemma_entries_err(l@, f, i as int);
                }
                return Err(ArgError::ExpectedFontEntry);
            },
        };
        out.push(decl);
        proof {
            assert(l@.take(i + 1).drop_last() =~= l@.take(i as int));
            assert(l@.take(i + 1).last() == l@[i as int]);
        }
        i = i + 1;
    }
    proof {
        assert(l@.take(l@.len() as int) =~= l@);
    }
    Ok(out)
}

/// Parses a list of `[name, path]` entries.
fn parse_pairs(l: &Vec<Value>) -> (r: Result<Vec<(String, String)>, ArgError>)
    ensures
        ({
            let spec = entries_spec(l@, |v: Value| decl_pair_spec(v));
            match r {
                Ok(out) => {
                    &&& spec is Ok
                    &&& out@.len() == spec->Ok_0.len()
                    &&& forall|j: int|
                        0 <= j < out@.len() ==> (#[trigger] out@[j]).0@ == spec->Ok_0[j].name
                            && out@[j].1@ == spec->Ok_0[j].path
                },
                Err(e) => spec == Err::<Seq<PairView>, ArgError>(e),
            }
        }),
{
    let ghost f = |v: Value| decl_pair_spec(v);
    let mut out: Vec<(String, String)> = Vec::new();
    let mut i: usize = 0;
    while i < l.len()
        invariant
            i <= l@.len(),
            entries_spec(l@.take(i as int), f) is Ok,
            out@.len() == entries_spec(l@.take(i as int), f)->Ok_0.len(),
            forall|j: int|
                0 <= j < out@.len() ==> (#[trigger] out@[j]).0@ == entries_spec(
                    l@.take(i as int),
                    f,
                )->Ok_0[j].name && out@[j].1@ == entries_spec(l@.take(i as int), f)->Ok_0[j].path,
            f == (|v: Value| decl_pair_spec(v)),
        decreases l@.len() - i,
    {
        let entry: &Value = &l[i];
        let pair: (String, String) = match entry {
            Value::List(inner) => {
                if inner.len() != 2 {
                    proof {
                        lemma_entries_err(l@, f, i as int);
                    }
                    return Err(ArgError::ExpectedNamePath);
                }
                let name: String = match &inner[0] {
                    Value::Text(s) => s.clone(),
                    _ => {
                        proof {
                            lemma_entries_err(l@, f, i as int);
                        }
                        return Err(ArgError::ExpectedNamePath);
                    },
                };
                let path: String = match &inner[1] {
                    Value::Text(s) => s.clone(),
                    _ => {
                        proof {
                            lemma_entries_err(l@, f, i as int);
                        }
                        return Err(ArgError::ExpectedNamePath);
                    },
                };
                (name, path)
            },
            _ => {
                proof {
                    lemma_entries_err(l@, f, i as int);
                }
                return Err(ArgError::ExpectedNamePath);
            },
        };
        out.push(pair);
        proof {
            assert(l@.take(i + 1).drop_last() =~= l@.take(i as int));
            assert(l@.take(i + 1).last() == l@[i as int]);
        }
        i = i + 1;
    }
    proof {
        assert(l@.take(l@.len() as int) =~= l@);
    }
    Ok(out)
}

} // verus!
