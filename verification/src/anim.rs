//! Sprite-strip animations: frame-index computation from elapsed time.
//!
//! An animation owns an image strip cut into `nframes` equal-width
//! frames and a duration for one full cycle.  Times are microseconds.
//! The elapsed-time accumulator wraps modulo the duration on every
//! advance, so any advance, however large, lands inside one cycle.

use vstd::prelude::*;
use crate::fixed::NUM_LIMIT;
use crate::resources::ImageHandle;

verus! {

/// The largest frame count an animation strip may declare.
pub const MAX_FRAMES: u64 = 65536;

/// The frame an animation shows: `floor(elapsed / duration * nframes)`,
/// wrapped into `[0, nframes)`.
pub open spec fn frame_index(current_us: u64, duration_us: u64, nframes: u64) -> int {
    (current_us as int * nframes as int / duration_us as int) % (nframes as int)
}

/// What advancing an animation by `dt` does: the accumulator wraps
/// modulo the duration and the played flag latches once the cycle's
/// last frame is reached.
pub open spec fn anim_update_spec(a: Animation, dt: u64) -> Animation {
    let c = (((a.current_us + dt) % (a.duration_us as int)) as u64);
    Animation {
        current_us: c,
        played: a.played || frame_index(c, a.duration_us, a.nframes) == a.nframes - 1,
        ..a
    }
}

/// A sprite-strip animation.
#[derive(Clone, Copy, Debug, PartialEq, Eq, Structural)]
pub struct Animation {
    /// The image strip the frames are cut from.
    pub image: ImageHandle,
    /// Set once a cycle has reached its last frame; stays set until
    /// explicitly reset.
    pub played: bool,
    /// How many frames the strip holds.
    pub nframes: u64,
    /// One cycle's length in microseconds; mutable after construction.
    pub duration_us: u64,
    /// Time accumulated into the current cycle, in microseconds.
    pub current_us: u64,
    /// One frame's extent (the strip's width divided by `nframes`).
    pub frame_size: crate::geom::Vector,
}

impl Animation {
    /// Bounds every operation relies on.  The accumulator may sit at or
    /// beyond the duration after the duration was shortened; the frame
    /// index still wraps into range.
    pub open spec fn wf(self) -> bool {
        &&& 1 <= self.nframes <= MAX_FRAMES
        &&& 1 <= self.duration_us <= NUM_LIMIT
        &&& self.current_us <= NUM_LIMIT
        &&& self.image.wf()
        &&& 0 <= self.frame_size.x <= NUM_LIMIT
        &&& 0 <= self.frame_size.y <= NUM_LIMIT
    }

    /// Cuts an image strip into `nframes` frames of equal width; a
    /// width not evenly divisible leaves the remainder unused.
    pub fn from_image(image: ImageHandle, nframes: u64, duration_us: u64) -> (a: Animation)
        requires
            1 <= nframes <= MAX_FRAMES,
            1 <= duration_us <= NUM_LIMIT,
            image.wf(),
        ensures
            a.wf(),
            a.image == image,
            a.nframes == nframes,
            a.duration_us == duration_us,
            a.current_us == 0,
            a.played == false,
            a.frame_size.x == image.width as int / nframes as int,
            a.frame_size.y == image.height,
    {
        let fw: u64 = (image.width as u64) / nframes;
        Animation {
            image,
            played: false,
            nframes,
            duration_us,
            current_us: 0,
            frame_size: crate::geom::Vector { x: fw as i64, y: image.height },
        }
    }

    /// The frame the animation currently shows; always within
    /// `[0, nframes)`.
    pub fn nth(&self) -> (n: u64)
        requires
            self.wf(),
        ensures
            n == frame_index(self.current_us, self.duration_us, self.nframes),
            n < self.nframes,
    {
        proof {
            assert(self.current_us * self.nframes <= NUM_LIMIT * MAX_FRAMES) by (nonlinear_arith)
                requires
                    self.current_us <= NUM_LIMIT,
                    self.nframes <= MAX_FRAMES,
            ;
        }
        let scaled: u64 = self.current_us * self.nframes;
        (scaled / self.duration_us) % self.nframes
    }

    /// Advances the animation clock by `dt`, wrapping modulo the
    /// duration, and latches the played flag once the last frame is
    /// reached.
    pub fn update(&mut self, dt: u64)
        requires
            old(self).wf(),
            dt <= NUM_LIMIT,
        ensures
            final(self).wf(),
            *final(self) == anim_update_spec(*old(self), dt),
    {
        let mut acc: u64 = self.current_us + dt;
        let ghost total: u64 = acc;
        while acc >= self.duration_us
            invariant
                self.duration_us >= 1,
                acc % self.duration_us == total % self.duration_us,
            decreases acc,
        {
            proof {
                vstd::arithmetic::div_mod::lemma_mod_sub_multiples_vanish(
                    acc as int,
                    self.duration_us as int,
                );
            }
            acc = acc - self.duration_us;
        }
        self.current_us = acc;
        proof {
            vstd::arithmetic::div_mod::lemma_small_mod(acc as nat, self.duration_us as nat);
        }
        if self.nth() == self.nframes - 1 {
            self.played = true;
        }
    }

    /// Restarts the cycle and clears the played flag.
    pub fn play(&mut self)
        requires
            old(self).wf(),
        ensures
            final(self).wf(),
            *final(self) == (Animation { played: false, current_us: 0, ..*old(self) }),
    {
        self.played = false;
        self.current_us = 0;
    }

    /// Changes the cycle duration.  The accumulated time is kept as it
    /// is, so the change shows in the next frame-index computation and
    /// is not applied retroactively.
    pub fn set_duration(&mut self, duration_us: u64)
        requires
            old(self).wf(),
            1 <= duration_us <= NUM_LIMIT,
        ensures
            final(self).wf(),
            *final(self) == (Animation { duration_us, ..*old(self) }),
    {
        self.duration_us = duration_us;
    }
}

/// The frame index of a well-formed animation is always within
/// `[0, frame_count)`.  Every operation preserves well-formedness, so
/// this holds across any sequence of advances, however large each
/// step, and across duration changes.
pub proof fn lemma_frame_index_in_range(a: Animation)
    requires
        a.wf(),
    ensures
        0 <= frame_index(a.current_us, a.duration_us, a.nframes) < a.nframes,
{
}

/// After a duration change the very next frame-index computation uses
/// the new duration against the unchanged accumulator: the elapsed time
/// already accumulated is neither rescaled nor reset.
pub proof fn lemma_set_duration_applies_next(a: Animation, duration_us: u64)
    requires
        a.wf(),
        1 <= duration_us <= NUM_LIMIT,
    ensures
        (Animation { duration_us, ..a }).current_us == a.current_us,
        frame_index((Animation { duration_us, ..a }).current_us, duration_us, a.nframes)
            == frame_index(a.current_us, duration_us, a.nframes),
{
}

} // verus!
