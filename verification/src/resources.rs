//! The resource registry: declared resource requests and the resolved,
//! name-indexed asset tables.
//!
//! Scripts declare resources while their module is evaluated; the
//! declarations collect in a [`ResourceConfig`].  The loading layer
//! then fetches every asset and hands the plain handles back to
//! [`Resources::build`], which indexes them by name.  Within one kind a
//! later declaration of the same name shadows the earlier one.  A font
//! named `default` always exists: the host supplies one if the script
//! declared none.

use vstd::prelude::*;
use vstd::hash_map::StringHashMap;
use crate::anim::{anim_update_spec, Animation, MAX_FRAMES};
use crate::fixed::{NUM_LIMIT, SCALE};
use crate::geom::Vector;

verus! {

/// The point size of the host-supplied `default` font, fixed-point.
pub const DEFAULT_FONT_PT: i64 = 10000;

/// Which table a name was looked up in; error reports carry this.
#[derive(Clone, Copy, Debug, PartialEq, Eq, Structural)]
pub enum ResourceKind {
    Sprite,
    Animation,
    Sound,
    Font,
}

/// A loaded image: an opaque handle for the renderer plus its extent
/// in fixed-point units.
#[derive(Clone, Copy, Debug, PartialEq, Eq, Structural)]
pub struct ImageHandle {
    pub id: u64,
    pub width: i64,
    pub height: i64,
}

impl ImageHandle {
    pub open spec fn wf(self) -> bool {
        &&& 0 <= self.width <= NUM_LIMIT
        &&& 0 <= self.height <= NUM_LIMIT
    }
}

/// A loaded sound clip and the volume it plays at.
#[derive(Clone, Copy, Debug, PartialEq, Eq, Structural)]
pub struct SoundData {
    pub handle: u64,
    /// Multiplicative volume, fixed-point; `SCALE` is the identity.
    pub volume: i64,
}

/// A loaded font pinned to one point size.
#[derive(Clone, Copy, Debug, PartialEq, Eq, Structural)]
pub struct FontEntry {
    pub handle: u64,
    /// The point size the font was rasterized at, fixed-point.
    pub pt: i64,
}

impl FontEntry {
    pub open spec fn wf(self) -> bool {
        0 <= self.pt <= NUM_LIMIT
    }
}

/// One declared animation: a strip image, its frame count and the
/// cycle duration.
pub struct AnimDecl {
    pub name: String,
    pub path: String,
    pub nframes: u64,
    pub duration_us: u64,
}

impl AnimDecl {
    pub open spec fn wf(self) -> bool {
        &&& 1 <= self.nframes <= MAX_FRAMES
        &&& 1 <= self.duration_us <= NUM_LIMIT
    }
}

/// One declared font: a face file and the point size to rasterize at.
pub struct FontDecl {
    pub name: String,
    pub path: String,
    pub pt: i64,
}

impl FontDecl {
    pub open spec fn wf(self) -> bool {
        0 <= self.pt <= NUM_LIMIT
    }
}

/// The resource requests a script declared during module evaluation:
/// `(name, source path)` plus kind-specific parameters, in declaration
/// order.
pub struct ResourceConfig {
    pub imgs: Vec<(String, String)>,
    pub anims: Vec<AnimDecl>,
    pub sounds: Vec<(String, String)>,
    pub fonts: Vec<FontDecl>,
}

impl ResourceConfig {
    pub open spec fn wf(self) -> bool {
        &&& forall|i: int| 0 <= i < self.anims@.len() ==> (#[trigger] self.anims@[i]).wf()
        &&& forall|i: int| 0 <= i < self.fonts@.len() ==> (#[trigger] self.fonts@[i]).wf()
    }

    /// No requests yet.
    pub fn new() -> (c: ResourceConfig)
        ensures
            c.wf(),
            c.imgs@.len() == 0,
            c.anims@.len() == 0,
            c.sounds@.len() == 0,
            c.fonts@.len() == 0,
    {
        ResourceConfig {
            imgs: Vec::new(),
            anims: Vec::new(),
            sounds: Vec::new(),
            fonts: Vec::new(),
        }
    }
}

/// A name-indexed table built by inserting `(keys[i], vals[i])` in
/// order, so a later duplicate key shadows an earlier one.
pub open spec fn table_spec<V>(keys: Seq<Seq<char>>, vals: Seq<V>) -> Map<Seq<char>, V>
    decreases keys.len(),
{
    if keys.len() == 0 || vals.len() == 0 {
        Map::empty()
    } else {
        table_spec(keys.drop_last(), vals.drop_last()).insert(keys.last(), vals.last())
    }
}

/// The animation an entry resolves to: the declared strip cut into
/// frames, at rest.
pub open spec fn animation_of(decl: AnimDecl, image: ImageHandle) -> Animation {
    Animation {
        image,
        played: false,
        nframes: decl.nframes,
        duration_us: decl.duration_us,
        current_us: 0,
        frame_size: Vector {
            x: (image.width as int / decl.nframes as int) as i64,
            y: image.height,
        },
    }
}

/// The image table a configuration and its loaded handles resolve to.
pub open spec fn img_table_spec(
    entries: Seq<(String, String)>,
    handles: Seq<ImageHandle>,
) -> Map<Seq<char>, ImageHandle> {
    table_spec(entries.map_values(|e: (String, String)| e.0@), handles)
}

/// The animation table a configuration and its loaded strip images
/// resolve to.
pub open spec fn anim_table_spec(
    decls: Seq<AnimDecl>,
    images: Seq<ImageHandle>,
) -> Map<Seq<char>, Animation> {
    table_spec(
        decls.map_values(|d: AnimDecl| d.name@),
        Seq::new(images.len(), |i: int| animation_of(decls[i], images[i])),
    )
}

/// The sound table a configuration and its loaded clips resolve to;
/// every clip starts at unit volume.
pub open spec fn sound_table_spec(
    entries: Seq<(String, String)>,
    handles: Seq<u64>,
) -> Map<Seq<char>, SoundData> {
    table_spec(
        entries.map_values(|e: (String, String)| e.0@),
        handles.map_values(|h: u64| SoundData { handle: h, volume: SCALE }),
    )
}

/// The font table a configuration and its loaded faces resolve to,
/// with the host's `default` face added if the script declared none.
pub open spec fn font_table_spec(
    decls: Seq<FontDecl>,
    handles: Seq<u64>,
    default_font: u64,
) -> Map<Seq<char>, FontEntry> {
    let base = table_spec(
        decls.map_values(|d: FontDecl| d.name@),
        Seq::new(handles.len(), |i: int| FontEntry { handle: handles[i], pt: decls[i].pt }),
    );
    if base.contains_key("default"@) {
        base
    } else {
        base.insert("default"@, FontEntry { handle: default_font, pt: DEFAULT_FONT_PT })
    }
}

/// The loaded assets for one configuration, in declaration order per
/// kind, plus the host's fallback font face.
pub struct LoadedAssets {
    pub images: Vec<ImageHandle>,
    pub anim_images: Vec<ImageHandle>,
    pub sounds: Vec<u64>,
    pub fonts: Vec<u64>,
    pub default_font: u64,
}

/// The resolved, name-indexed asset tables.
///
/// Animations live in a dense store so the per-frame tick can advance
/// all of them; the name index points into the store, and the ghost
/// `anims` map is the table the contracts speak of.
pub struct Resources {
    pub imgs: StringHashMap<ImageHandle>,
    pub anims_index: StringHashMap<usize>,
    pub anims_store: Vec<Animation>,
    pub anims: Ghost<Map<Seq<char>, Animation>>,
    pub sounds: StringHashMap<SoundData>,
    pub fonts: StringHashMap<FontEntry>,
}

impl Resources {
    /// The name index and the dense store agree with the ghost table,
    /// slots are in bounds and distinct, and every asset is sound.
    pub open spec fn wf(self) -> bool {
        &&& forall|k: Seq<char>| #[trigger]
            self.anims_index@.contains_key(k) <==> self.anims@.contains_key(k)
        &&& forall|k: Seq<char>| #[trigger]
            self.anims_index@.contains_key(k) ==> self.anims_index@[k] < self.anims_store@.len()
        &&& forall|k: Seq<char>| #[trigger]
            self.anims_index@.contains_key(k) ==> self.anims_store@[self.anims_index@[k] as int]
                == self.anims@[k]
        &&& forall|k1: Seq<char>, k2: Seq<char>|
            self.anims_index@.contains_key(k1) && self.anims_index@.contains_key(k2) && k1 != k2
                ==> #[trigger] self.anims_index@[k1] != #[trigger] self.anims_index@[k2]
        &&& forall|i: int| 0 <= i < self.anims_store@.len() ==> (#[trigger]
            self.anims_store@[i]).wf()
        &&& self.fonts@.contains_key("default"@)
        &&& forall|k: Seq<char>| #[trigger] self.fonts@.contains_key(k) ==> self.fonts@[k].wf()
        &&& forall|k: Seq<char>| #[trigger] self.imgs@.contains_key(k) ==> self.imgs@[k].wf()
    }

    /// Indexes every loaded asset by its declared name.
    pub fn build(cfg: &ResourceConfig, loaded: LoadedAssets) -> (r: Resources)
        requires
            cfg.wf(),
            loaded.images@.len() == cfg.imgs@.len(),
            loaded.anim_images@.len() == cfg.anims@.len(),
            loaded.sounds@.len() == cfg.sounds@.len(),
            loaded.fonts@.len() == cfg.fonts@.len(),
            forall|i: int| 0 <= i < loaded.images@.len() ==> (#[trigger] loaded.images@[i]).wf(),
            forall|i: int| 0 <= i < loaded.anim_images@.len() ==> (#[trigger]
                loaded.anim_images@[i]).wf(),
        ensures
            r.wf(),
            r.imgs@ == img_table_spec(cfg.imgs@, loaded.images@),
            r.anims@ == anim_table_spec(cfg.anims@, loaded.anim_images@),
            r.sounds@ == sound_table_spec(cfg.sounds@, loaded.sounds@),
            r.fonts@ == font_table_spec(cfg.fonts@, loaded.fonts@, loaded.default_font),
    {
        let ghost img_keys = cfg.imgs@.map_values(|e: (String, String)| e.0@);
        let mut imgs: StringHashMap<ImageHandle> = StringHashMap::new();
        let mut i: usize = 0;
        while i < cfg.imgs.len()
            invariant
                i <= cfg.imgs@.len(),
                loaded.images@.len() == cfg.imgs@.len(),
                img_keys == cfg.imgs@.map_values(|e: (String, String)| e.0@),
                imgs@ == table_spec(img_keys.take(i as int), loaded.images@.take(i as int)),
                forall|j: int| 0 <= j < loaded.images@.len() ==> (#[trigger]
                    loaded.images@[j]).wf(),
                forall|k: Seq<char>| #[trigger] imgs@.contains_key(k) ==> imgs@[k].wf(),
            decreases cfg.imgs@.len() - i,
        {
            let name: String = cfg.imgs[i].0.clone();
            imgs.insert(name, loaded.images[i]);
            proof {
                assert(img_keys.take(i + 1).drop_last() =~= img_keys.take(i as int));
                assert(loaded.images@.take(i + 1).drop_last() =~= loaded.images@.take(i as int));
            }
            i = i + 1;
        }
        proof {
            assert(img_keys.take(cfg.imgs@.len() as int) =~= img_keys);
            assert(loaded.images@.take(cfg.imgs@.len() as int) =~= loaded.images@);
        }

        let ghost anim_keys = cfg.anims@.map_values(|d: AnimDecl| d.name@);
        let ghost anim_vals = Seq::new(
            loaded.anim_images@.len(),
            |j: int| animation_of(cfg.anims@[j], loaded.anim_images@[j]),
        );
        let mut anims_index: StringHashMap<usize> = StringHashMap::new();
        let mut anims_store: Vec<Animation> = Vec::new();
        let mut anims: Ghost<Map<Seq<char>, Animation>> = Ghost(Map::empty());
        i = 0;
        while i < cfg.anims.len()
            invariant
                i <= cfg.anims@.len(),
                loaded.anim_images@.len() == cfg.anims@.len(),
                cfg.wf(),
                forall|j: int| 0 <= j < loaded.anim_images@.len() ==> (#[trigger]
                    loaded.anim_images@[j]).wf(),
                anim_keys == cfg.anims@.map_values(|d: AnimDecl| d.name@),
                anim_vals == Seq::new(
                    loaded.anim_images@.len(),
                    |j: int| animation_of(cfg.anims@[j], loaded.anim_images@[j]),
                ),
                anims@ == table_spec(anim_keys.take(i as int), anim_vals.take(i as int)),
                anims_store@.len() == i,
                forall|j: int| 0 <= j < i ==> anims_store@[j] == anim_vals[j],
                forall|j: int| 0 <= j < i ==> (#[trigger] anims_store@[j]).wf(),
                forall|k: Seq<char>| #[trigger]
                    anims_index@.contains_key(k) <==> anims@.contains_key(k),
                forall|k: Seq<char>| #[trigger]
                    anims_index@.contains_key(k) ==> anims_index@[k] < i,
                forall|k: Seq<char>| #[trigger]
                    anims_index@.contains_key(k) ==> anims_store@[anims_index@[k] as int]
                        == anims@[k],
                forall|k1: Seq<char>, k2: Seq<char>|
                    anims_index@.contains_key(k1) && anims_index@.contains_key(k2) && k1 != k2
                        ==> #[trigger] anims_index@[k1] != #[trigger] anims_index@[k2],
            decreases cfg.anims@.len() - i,
        {
            let name: String = cfg.anims[i].name.clone();
            let decl_frames: u64 = cfg.anims[i].nframes;
            let decl_duration: u64 = cfg.anims[i].duration_us;
            let a: Animation = Animation::from_image(
                loaded.anim_images[i],
                decl_frames,
                decl_duration,
            );
            anims_index.insert(name, i);
            anims_store.push(a);
            proof {
                anims@ = anims@.insert(anim_keys[i as int], anim_vals[i as int]);
                assert(a == anim_vals[i as int]);
                assert(anim_keys.take(i + 1).drop_last() =~= anim_keys.take(i as int));
                assert(anim_vals.take(i + 1).drop_last() =~= anim_vals.take(i as int));
            }
            i = i + 1;
        }
        proof {
            assert(anim_keys.take(cfg.anims@.len() as int) =~= anim_keys);
            assert(anim_vals.take(cfg.anims@.len() as int) =~= anim_vals);
        }

        let ghost sound_keys = cfg.sounds@.map_values(|e: (String, String)| e.0@);
        let ghost sound_vals = loaded.sounds@.map_values(
            |h: u64| SoundData { handle: h, volume: SCALE },
        );
        let mut sounds: StringHashMap<SoundData> = StringHashMap::new();
        i = 0;
        while i < cfg.sounds.len()
            invariant
                i <= cfg.sounds@.len(),
                loaded.sounds@.len() == cfg.sounds@.len(),
                sound_keys == cfg.sounds@.map_values(|e: (String, String)| e.0@),
                sound_vals == loaded.sounds@.map_values(
                    |h: u64| SoundData { handle: h, volume: SCALE },
                ),
                sounds@ == table_spec(sound_keys.take(i as int), sound_vals.take(i as int)),
            decreases cfg.sounds@.len() - i,
        {
            let name: String = cfg.sounds[i].0.clone();
            sounds.insert(name, SoundData { handle: loaded.sounds[i], volume: SCALE });
            proof {
                assert(sound_keys.take(i + 1).drop_last() =~= sound_keys.take(i as int));
                assert(sound_vals.take(i + 1).drop_last() =~= sound_vals.take(i as int));
            }
            i = i + 1;
        }
        proof {
            assert(sound_keys.take(cfg.sounds@.len() as int) =~= sound_keys);
            assert(sound_vals.take(cfg.sounds@.len() as int) =~= sound_vals);
        }

        let ghost font_keys = cfg.fonts@.map_values(|d: FontDecl| d.name@);
        let ghost font_vals = Seq::new(
            loaded.fonts@.len(),
            |j: int| FontEntry { handle: loaded.fonts@[j], pt: cfg.fonts@[j].pt },
        );
        let mut fonts: StringHashMap<FontEntry> = StringHashMap::new();
        i = 0;
        while i < cfg.fonts.len()
            invariant
                i <= cfg.fonts@.len(),
                loaded.fonts@.len() == cfg.fonts@.len(),
                cfg.wf(),
                font_keys == cfg.fonts@.map_values(|d: FontDecl| d.name@),
                font_vals == Seq::new(
                    loaded.fonts@.len(),
                    |j: int| FontEntry { handle: loaded.fonts@[j], pt: cfg.fonts@[j].pt },
                ),
                fonts@ == table_spec(font_keys.take(i as int), font_vals.take(i as int)),
                forall|k: Seq<char>| #[trigger] fonts@.contains_key(k) ==> fonts@[k].wf(),
            decreases cfg.fonts@.len() - i,
        {
            let name: String = cfg.fonts[i].name.clone();
            fonts.insert(name, FontEntry { handle: loaded.fonts[i], pt: cfg.fonts[i].pt });
            proof {
                assert(font_keys.take(i + 1).drop_last() =~= font_keys.take(i as int));
                assert(font_vals.take(i + 1).drop_last() =~= font_vals.take(i as int));
            }
            i = i + 1;
        }
        proof {
            assert(font_keys.take(cfg.fonts@.len() as int) =~= font_keys);
            assert(font_vals.take(cfg.fonts@.len() as int) =~= font_vals);
        }
        if !fonts.contains_key("default") {
            let default_name: String = "default".to_owned();
            fonts.insert(
                default_name,
                FontEntry { handle: loaded.default_font, pt: DEFAULT_FONT_PT },
            );
        }

        Resources { imgs, anims_index, anims_store, anims, sounds, fonts }
    }

    /// Looks a sprite image up by name.
    pub fn get_img(&self, name: &str) -> (r: Option<&ImageHandle>)
        ensures
            match r {
                Some(h) => self.imgs@.contains_key(name@) && *h == self.imgs@[name@],
                None => !self.imgs@.contains_key(name@),
            },
    {
        self.imgs.get(name)
    }

    /// Looks a sound up by name.
    pub fn get_sound(&self, name: &str) -> (r: Option<&SoundData>)
        ensures
            match r {
                Some(s) => self.sounds@.contains_key(name@) && *s == self.sounds@[name@],
                None => !self.sounds@.contains_key(name@),
            },
    {
        self.sounds.get(name)
    }

    /// Looks an animation up by name.
    pub fn get_anim(&self, name: &str) -> (r: Option<Animation>)
        requires
            self.wf(),
        ensures
            match r {
                Some(a) => self.anims@.contains_key(name@) && a == self.anims@[name@] && a.wf(),
                None => !self.anims@.contains_key(name@),
            },
    {
        match self.anims_index.get(name) {
            Some(i) => {
                proof {
                    assert(self.anims_store@[self.anims_index@[name@] as int].wf());
                }
                Some(self.anims_store[*i])
            },
            None => None,
        }
    }

    /// Looks a font up by name.
    pub fn get_font(&self, name: &str) -> (r: Option<&FontEntry>)
        ensures
            match r {
                Some(f) => self.fonts@.contains_key(name@) && *f == self.fonts@[name@],
                None => !self.fonts@.contains_key(name@),
            },
    {
        self.fonts.get(name)
    }

    /// Advances every animation by one update period.
    pub fn update_anim(&mut self, dt: u64)
        requires
            old(self).wf(),
            dt <= NUM_LIMIT,
        ensures
            final(self).wf(),
            final(self).imgs@ == old(self).imgs@,
            final(self).sounds@ == old(self).sounds@,
            final(self).fonts@ == old(self).fonts@,
            final(self).anims@.dom() == old(self).anims@.dom(),
            forall|k: Seq<char>| #[trigger] old(self).anims@.contains_key(k)
                ==> final(self).anims@[k] == anim_update_spec(old(self).anims@[k], dt),
    {
        let ghost old_anims = self.anims@;
        let ghost old_store = self.anims_store@;
        let mut i: usize = 0;
        while i < self.anims_store.len()
            invariant
                i <= self.anims_store@.len(),
                dt <= NUM_LIMIT,
                self.anims_store@.len() == old_store.len(),
                self.imgs == old(self).imgs,
                self.sounds == old(self).sounds,
                self.fonts == old(self).fonts,
                self.anims_index == old(self).anims_index,
                self.anims == old(self).anims,
                old(self).wf(),
                old(self).anims_store@ == old_store,
                forall|j: int| 0 <= j < i ==> self.anims_store@[j] == anim_update_spec(
                    old_store[j],
                    dt,
                ),
                forall|j: int| i <= j < old_store.len() ==> self.anims_store@[j] == old_store[j],
                forall|j: int| 0 <= j < self.anims_store@.len() ==> (#[trigger]
                    self.anims_store@[j]).wf(),
            decreases self.anims_store@.len() - i,
        {
            let mut a: Animation = self.anims_store[i];
            a.update(dt);
            self.anims_store.set(i, a);
            i = i + 1;
        }
        proof {
            self.anims@ = Map::new(
                |k: Seq<char>| old_anims.contains_key(k),
                |k: Seq<char>| anim_update_spec(old_anims[k], dt),
            );
            assert(final(self).anims@.dom() =~= old_anims.dom());
        }
    }

    /// Changes the named animation's cycle duration; reports whether
    /// the name exists.
    pub fn set_anim_duration(&mut self, name: &str, duration_us: u64) -> (found: bool)
        requires
            old(self).wf(),
            1 <= duration_us <= NUM_LIMIT,
        ensures
            final(self).wf(),
            found == old(self).anims@.contains_key(name@),
            final(self).imgs@ == old(self).imgs@,
            final(self).sounds@ == old(self).sounds@,
            final(self).fonts@ == old(self).fonts@,
            found ==> final(self).anims@ == old(self).anims@.insert(
                name@,
                Animation { duration_us, ..old(self).anims@[name@] },
            ),
            !found ==> *final(self) == *old(self),
    {
        let idx: usize = match self.anims_index.get(name) {
            Some(i) => *i,
            None => {
                return false;
            },
        };
        let mut a: Animation = self.anims_store[idx];
        a.set_duration(duration_us);
        self.anims_store.set(idx, a);
        proof {
            self.anims@ = self.anims@.insert(name@, a);
        }
        true
    }
}

/// Resolving the same resource specification against the same loaded
/// assets twice yields identical name-to-asset tables: the tables are a
/// function of the declarations and assets alone, with no hidden
/// ordering dependency.
pub proof fn lemma_resolution_idempotent(
    cfg: ResourceConfig,
    loaded: LoadedAssets,
    r1: Resources,
    r2: Resources,
)
    requires
        r1.imgs@ == img_table_spec(cfg.imgs@, loaded.images@),
        r1.anims@ == anim_table_spec(cfg.anims@, loaded.anim_images@),
        r1.sounds@ == sound_table_spec(cfg.sounds@, loaded.sounds@),
        r1.fonts@ == font_table_spec(cfg.fonts@, loaded.fonts@, loaded.default_font),
        r2.imgs@ == img_table_spec(cfg.imgs@, loaded.images@),
        r2.anims@ == anim_table_spec(cfg.anims@, loaded.anim_images@),
        r2.sounds@ == sound_table_spec(cfg.sounds@, loaded.sounds@),
        r2.fonts@ == font_table_spec(cfg.fonts@, loaded.fonts@, loaded.default_font),
    ensures
        r1.imgs@ == r2.imgs@,
        r1.anims@ == r2.anims@,
        r1.sounds@ == r2.sounds@,
        r1.fonts@ == r2.fonts@,
{
}

} // verus!
