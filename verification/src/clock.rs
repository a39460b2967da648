//! The update clock: rate-limits the script's `update` callback.
//!
//! Real elapsed time accumulates across frames; an update fires only
//! once the accumulated time reaches the configured period, and firing
//! subtracts exactly one period rather than resetting the accumulator,
//! so residual time is never discarded and the update rate does not
//! drift.

use vstd::prelude::*;

verus! {

/// The accumulated-time state of the update clock.
#[derive(Clone, Copy, Debug, PartialEq, Eq, Structural)]
pub struct FrameClock {
    /// Real time accumulated toward the next update, in microseconds.
    pub acc_us: u64,
}

impl FrameClock {
    /// A clock with nothing accumulated.
    pub fn new() -> (c: FrameClock)
        ensures
            c.acc_us == 0,
    {
        FrameClock { acc_us: 0 }
    }

    /// Accumulates one frame's elapsed time and decides whether an
    /// update fires.  A firing tick subtracts exactly one period; a
    /// non-firing tick keeps everything.
    pub fn tick(&mut self, dt: u64, period_us: u64) -> (fire: bool)
        requires
            1 <= period_us,
            old(self).acc_us + dt <= u64::MAX,
        ensures
            fire == (old(self).acc_us + dt >= period_us),
            fire ==> final(self).acc_us == old(self).acc_us + dt - period_us,
            !fire ==> final(self).acc_us == old(self).acc_us + dt,
    {
        let acc: u64 = self.acc_us + dt;
        if acc >= period_us {
            self.acc_us = acc - period_us;
            true
        } else {
            self.acc_us = acc;
            false
        }
    }
}

/// How many updates fire, and what remains accumulated, when a clock
/// starting at `acc` sees the frame times `dts` under a fixed period:
/// the pair `(fires, residual)`.
pub open spec fn clock_run(acc: int, period: int, dts: Seq<u64>) -> (int, int)
    decreases dts.len(),
{
    if dts.len() == 0 {
        (0, acc)
    } else {
        let prev = clock_run(acc, period, dts.drop_last());
        let grown = prev.1 + dts.last();
        if grown >= period {
            (prev.0 + 1, grown - period)
        } else {
            (prev.0, grown)
        }
    }
}

/// The total real time of a frame sequence.
pub open spec fn total_time(dts: Seq<u64>) -> int
    decreases dts.len(),
{
    if dts.len() == 0 {
        0
    } else {
        total_time(dts.drop_last()) + dts.last()
    }
}

/// Rate limiting conserves time: over any frame sequence, each update
/// fired accounts for exactly one period and the residual is exactly
/// what has not yet been consumed, so updates never fire more than once
/// per accumulated period and residual time is preserved across frames.
pub proof fn lemma_clock_conserves_time(acc: int, period: int, dts: Seq<u64>)
    requires
        1 <= period,
        0 <= acc,
    ensures
        0 <= clock_run(acc, period, dts).1,
        period * clock_run(acc, period, dts).0 + clock_run(acc, period, dts).1 == acc + total_time(
            dts,
        ),
        period * clock_run(acc, period, dts).0 <= acc + total_time(dts),
    decreases dts.len(),
{
    let fires = clock_run(acc, period, dts).0;
    let resid = clock_run(acc, period, dts).1;
    if dts.len() == 0 {
        assert(fires == 0 && resid == acc);
        assert(period * 0 == 0) by (nonlinear_arith);
    } else {
        lemma_clock_conserves_time(acc, period, dts.drop_last());
        let prev_fires = clock_run(acc, period, dts.drop_last()).0;
        let prev_resid = clock_run(acc, period, dts.drop_last()).1;
        let grown = prev_resid + dts.last();
        assert(period * prev_fires + prev_resid == acc + total_time(dts.drop_last()));
        assert(total_time(dts) == total_time(dts.drop_last()) + dts.last());
        if grown >= period {
            assert(fires == prev_fires + 1 && resid == grown - period);
            assert(period * (prev_fires + 1) == period * prev_fires + period) by (nonlinear_arith);
        } else {
            assert(fires == prev_fires && resid == grown);
        }
    }
    assert(period * fires + resid == acc + total_time(dts));
    assert(0 <= resid);
}

} // verus!
