//! The lifecycle host's per-frame decisions and its error taxonomy.
//!
//! The host evaluates the entry module once, resolves resources,
//! discovers the callbacks, and then drives the frame loop.  The
//! decisions of that loop live here: `onload` runs once before the
//! first update; `update` is rate-limited by the [`FrameClock`];
//! `draw` runs every frame after the surface is cleared.  Invoking the
//! script and presenting the frame are the embedding layer's work; it
//! reports an uncaught script failure through [`script_error`], which
//! names the callback that failed.

use vstd::prelude::*;
use crate::anim::anim_update_spec;
use crate::api::{appended, clear_black, Ctx, DrawCmd};
use crate::clock::FrameClock;
use crate::geom::color_black;

verus! {

/// The lifecycle points a script may define.
#[derive(Clone, Copy, Debug, PartialEq, Eq, Structural)]
pub enum CallbackKind {
    Init,
    Onload,
    Update,
    Draw,
    Event,
}

/// A fatal host failure.
#[derive(Debug, PartialEq, Eq)]
pub enum HostError {
    /// The entry module could not be read, parsed or evaluated, or a
    /// declared resource failed to load.
    Startup { message: String },
    /// A callback raised an uncaught script error; the report names
    /// the callback and carries the script's own description.
    Script { callback: CallbackKind, message: String },
}

/// Wraps an uncaught script failure, preserving which callback failed
/// and the script's own error text.
pub fn script_error(callback: CallbackKind, message: String) -> (e: HostError)
    ensures
        e == (HostError::Script { callback, message }),
{
    HostError::Script { callback, message }
}

/// Wraps a startup failure: these abort before the frame loop starts.
pub fn startup_error(message: String) -> (e: HostError)
    ensures
        e == (HostError::Startup { message }),
{
    HostError::Startup { message }
}

/// Which callbacks the evaluated module defines, and the loop state
/// that drives them.
pub struct Host {
    /// The update rate-limiting clock.
    pub clock: FrameClock,
    /// Set once the first frame has run (and `onload`, if present, has
    /// been invoked).
    pub window_initialized: bool,
    pub has_onload: bool,
    pub has_update: bool,
    pub has_draw: bool,
    pub has_event: bool,
}

impl Host {
    /// A host that has discovered which callbacks exist and has not
    /// yet run a frame.
    pub fn new(has_onload: bool, has_update: bool, has_draw: bool, has_event: bool) -> (h: Host)
        ensures
            h.clock.acc_us == 0,
            h.window_initialized == false,
            h.has_onload == has_onload,
            h.has_update == has_update,
            h.has_draw == has_draw,
            h.has_event == has_event,
    {
        Host {
            clock: FrameClock::new(),
            window_initialized: false,
            has_onload,
            has_update,
            has_draw,
            has_event,
        }
    }

    /// First-frame bookkeeping: reports whether `onload` must be
    /// invoked now, before any update, and marks the window
    /// initialized either way.
    pub fn begin_frame(&mut self) -> (call_onload: bool)
        ensures
            call_onload == (old(self).has_onload && !old(self).window_initialized),
            *final(self) == (Host { window_initialized: true, ..*old(self) }),
    {
        let call: bool = self.has_onload && !self.window_initialized;
        self.window_initialized = true;
        call
    }

    /// One frame's update step: accumulates the frame's real elapsed
    /// time and, when a full period has accumulated, consumes exactly
    /// one period, advances every animation by it, and reports that
    /// `update` must be invoked (if the script defined one).
    pub fn update_tick(&mut self, ctx: &mut Ctx, dt: u64) -> (call_update: bool)
        requires
            old(ctx).wf(),
            old(self).clock.acc_us + dt <= u64::MAX,
        ensures
            final(ctx).wf(),
            ({
                let period = old(ctx).input.update_rate_us;
                let fire = old(self).clock.acc_us + dt >= period;
                &&& call_update == (fire && old(self).has_update)
                &&& *final(self) == (Host { clock: final(self).clock, ..*old(self) })
                &&& final(self).clock.acc_us == if fire {
                    old(self).clock.acc_us + dt - period
                } else {
                    old(self).clock.acc_us + dt
                }
                &&& if fire {
                    &&& *final(ctx) == (Ctx { resources: final(ctx).resources, ..*old(ctx) })
                    &&& final(ctx).resources.imgs@ == old(ctx).resources.imgs@
                    &&& final(ctx).resources.sounds@ == old(ctx).resources.sounds@
                    &&& final(ctx).resources.fonts@ == old(ctx).resources.fonts@
                    &&& final(ctx).resources.anims@.dom() == old(ctx).resources.anims@.dom()
                    &&& forall|k: Seq<char>| #[trigger]
                        old(ctx).resources.anims@.contains_key(k)
                            ==> final(ctx).resources.anims@[k] == anim_update_spec(
                            old(ctx).resources.anims@[k],
                            period,
                        )
                } else {
                    *final(ctx) == *old(ctx)
                }
            }),
    {
        let period: u64 = ctx.input.update_rate_us;
        let fire: bool = self.clock.tick(dt, period);
        if !fire {
            return false;
        }
        ctx.resources.update_anim(period);
        fire && self.has_update
    }

    /// Begins a frame's draw phase: the surface is cleared to black
    /// before the script's `draw` callback is invoked.
    pub fn begin_draw(&self, ctx: &mut Ctx) -> (call_draw: bool)
        requires
            old(ctx).wf(),
        ensures
            final(ctx).wf(),
            call_draw == self.has_draw,
            appended(*old(ctx), *final(ctx), seq![DrawCmd::Clear(color_black())]),
    {
        clear_black(ctx);
        self.has_draw
    }
}

} // verus!
