//! Power and initialisation events of the TPM platform.

use vstd::prelude::*;

use crate::tpm_platform::{PlatformState, TpmPlatform};

verus! {

/// Power lifecycle of the TPM.
pub trait TpmLifecycle {
    /// Power comes on: power was lost and the timer was reset. Returns 0.
    fn power_on(state: &mut PlatformState) -> i32;

    /// A reset: the timer was reset. Returns 0.
    fn reset(state: &mut PlatformState) -> i32;

    /// Power goes off.
    fn power_off();

    /// The TPM is torn down.
    fn tear_down();

    /// Whether power was lost since the last call; clears the flag.
    fn was_power_lost(state: &mut PlatformState) -> bool;

    /// Initialisation starts.
    fn init_start();

    /// Initialisation ended without error.
    fn init_end_ok();
}

impl TpmLifecycle for TpmPlatform {
    fn power_on(state: &mut PlatformState) -> (r: i32)
        ensures
            r == 0,
            *final(state) == (PlatformState { power_lost: true, timer_reset: true, ..*old(state) }),
    {
        state.power_lost = true;
        state.timer_reset = true;
        0
    }

    fn reset(state: &mut PlatformState) -> (r: i32)
        ensures
            r == 0,
            *final(state) == (PlatformState { timer_reset: true, ..*old(state) }),
    {
        state.timer_reset = true;
        0
    }

    fn power_off() {
    }

    fn tear_down() {
    }

    fn was_power_lost(state: &mut PlatformState) -> (r: bool)
        ensures
            r == old(state).power_lost,
            *final(state) == (PlatformState { power_lost: false, ..*old(state) }),
    {
        let lost = state.power_lost;
        state.power_lost = false;
        lost
    }

    fn init_start() {
    }

    fn init_end_ok() {
    }
}

} // verus!
