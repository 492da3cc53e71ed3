//! The TPM clock: milliseconds derived from the machine timer, and the
//! reset / stop flags that the TPM library polls.

use vstd::prelude::*;

use crate::tpm_platform::{PlatformState, TpmPlatform};

verus! {

/// Frequency of the machine timer on silicon, in ticks per second.
pub const TICK_HZ: u64 = 100_000_000;

/// `ticks * 1000`, saturated at `u64::MAX`, divided by the tick rate.
pub open spec fn spec_ticks_to_ms(ticks: u64) -> u64 {
    let scaled: int = if ticks * 1000 > u64::MAX { u64::MAX as int } else { ticks * 1000 };
    (scaled / (TICK_HZ as int)) as u64
}

/// Converts timer ticks to milliseconds; the multiplication saturates.
pub fn ticks_to_ms(ticks: u64) -> (r: u64)
    ensures
        r == spec_ticks_to_ms(ticks),
{
    let scaled: u64 = match ticks.checked_mul(1000) {
        Some(v) => v,
        None => u64::MAX,
    };
    scaled / TICK_HZ
}

/// At the 100 MHz tick rate a millisecond is 100,000 ticks: where the
/// product does not saturate, the result is the number of whole
/// milliseconds that `ticks` span.
pub proof fn lemma_ticks_to_ms_whole_ms(ticks: u64)
    requires
        ticks * 1000 <= u64::MAX,
    ensures
        spec_ticks_to_ms(ticks) as int * 100_000 <= ticks,
        ticks < (spec_ticks_to_ms(ticks) as int + 1) * 100_000,
{
    let t = ticks as int;
    let m = (t * 1000) / 100_000_000;
    assert(m * 100_000_000 <= t * 1000 < (m + 1) * 100_000_000) by (nonlinear_arith)
        requires
            m == (t * 1000) / 100_000_000,
            t >= 0,
    ;
}

/// More ticks never give fewer milliseconds.
pub proof fn lemma_ticks_to_ms_monotone(a: u64, b: u64)
    requires
        a <= b,
    ensures
        spec_ticks_to_ms(a) <= spec_ticks_to_ms(b),
{
    let sa: int = if a * 1000 > u64::MAX { u64::MAX as int } else { a * 1000 };
    let sb: int = if b * 1000 > u64::MAX { u64::MAX as int } else { b * 1000 };
    assert(sa <= sb) by (nonlinear_arith)
        requires
            a <= b,
            sa == (if a * 1000 > u64::MAX { u64::MAX as int } else { a * 1000 }),
            sb == (if b * 1000 > u64::MAX { u64::MAX as int } else { b * 1000 }),
    ;
    assert(sa / 100_000_000 <= sb / 100_000_000) by (nonlinear_arith)
        requires
            0 <= sa <= sb,
    ;
}

/// Step of a clock rate adjustment.
#[derive(Clone, Copy, PartialEq, Eq, Structural, Debug)]
pub enum ClockAdjust {
    Coarse,
    Medium,
    Fine,
}

/// Direction of a clock rate adjustment.
#[derive(Clone, Copy, PartialEq, Eq, Structural, Debug)]
pub enum ClockDirection {
    Slower,
    Faster,
}

/// The clock of the TPM. The raw timer value is read by the caller and
/// handed in as `mtime`.
pub trait TpmClock {
    /// Milliseconds since the timer started.
    fn read(mtime: u64) -> u64;

    /// Wall-clock time; the monotonic time where none is available.
    fn real_time(mtime: u64) -> u64;

    /// Marks the timer as reset.
    fn reset(state: &mut PlatformState);

    /// Marks the timer as stopped.
    fn restart(state: &mut PlatformState);

    /// Whether the timer was reset since the last call; clears the flag.
    fn was_reset(state: &mut PlatformState) -> bool;

    /// Whether the timer was stopped since the last call; clears the flag.
    fn was_stopped(state: &mut PlatformState) -> bool;

    /// Adjusts the tick rate.
    fn adjust_rate(step: ClockAdjust, direction: ClockDirection);
}

impl TpmClock for TpmPlatform {
    fn read(mtime: u64) -> (r: u64)
        ensures
            r == spec_ticks_to_ms(mtime),
    {
        ticks_to_ms(mtime)
    }

    fn real_time(mtime: u64) -> (r: u64)
        ensures
            r == spec_ticks_to_ms(mtime),
    {
        <TpmPlatform as TpmClock>::read(mtime)
    }

    fn reset(state: &mut PlatformState)
        ensures
            *final(state) == (PlatformState { timer_reset: true, ..*old(state) }),
    {
        state.timer_reset = true;
    }

    /// Marks the timer as stopped (a restart means the clock was not running).
    fn restart(state: &mut PlatformState)
        ensures
            *final(state) == (PlatformState { timer_stopped: true, ..*old(state) }),
    {
        state.timer_stopped = true;
    }

    fn was_reset(state: &mut PlatformState) -> (r: bool)
        ensures
            r == old(state).timer_reset,
            *final(state) == (PlatformState { timer_reset: false, ..*old(state) }),
    {
        let reset = state.timer_reset;
        state.timer_reset = false;
        reset
    }

    fn was_stopped(state: &mut PlatformState) -> (r: bool)
        ensures
            r == old(state).timer_stopped,
            *final(state) == (PlatformState { timer_stopped: false, ..*old(state) }),
    {
        let stopped = state.timer_stopped;
        state.timer_stopped = false;
        stopped
    }

    /// Rate adjustment is not supported: nothing happens.
    fn adjust_rate(_step: ClockAdjust, _direction: ClockDirection) {
    }
}

} // verus!
