//! The bit timing engine: a hardware sequencer that toggles one pin at a
//! fixed, configurable half-period, decoupled from CPU instruction timing.
//!
//! The waveform is the two-step program "set the line high, set the line
//! low", repeated forever, each step lasting `half_period_cycles` clock
//! cycles. This module models the waveform exactly — `level_at` gives the
//! line level any number of cycles after the program started — and enforces
//! the single-driver rule: the engine refuses to start on a pin that
//! CPU-driven toggling currently owns.

use vstd::prelude::*;

use crate::BusError;
use crate::pad_pulls::BANK0_PAD_COUNT;
use vstd::arithmetic::div_mod::lemma_add_mod_noop;
use vstd::arithmetic::div_mod::lemma_fundamental_div_mod;
use vstd::arithmetic::div_mod::lemma_fundamental_div_mod_converse;
use vstd::arithmetic::div_mod::lemma_mod_bound;
use vstd::arithmetic::mul::lemma_mul_is_commutative;
use vstd::arithmetic::mul::lemma_mul_is_distributive_add;

verus! {

/// A configured (and possibly running) bit timing program on one pin.
#[derive(Clone, Copy, Debug, PartialEq, Eq, Structural)]
pub struct TimingHandle {
    /// The pin the program toggles.
    pub pin: u32,
    /// Length of each half of the square wave, in hardware clock cycles.
    pub half_period_cycles: u32,
    /// Whether the program is currently running.
    pub running: bool,
}

impl TimingHandle {
    /// A usable program: a real (nonzero) half-period on a pin of the
    /// supported bank.
    pub open spec fn wf(self) -> bool {
        &&& self.half_period_cycles > 0
        &&& self.pin < BANK0_PAD_COUNT
    }

    /// Set up the timing program on a pin, stopped. A zero half-period or a
    /// pin outside the supported bank is refused before anything is touched.
    pub fn configure(pin: u32, half_period_cycles: u32) -> (r: Result<TimingHandle, BusError>)
        ensures
            r is Ok <==> (pin < BANK0_PAD_COUNT && half_period_cycles > 0),
            r is Ok ==> r->Ok_0 == (TimingHandle { pin, half_period_cycles, running: false }),
            r is Err ==> r->Err_0 is PinConfigurationFailed,
    {
        if pin < BANK0_PAD_COUNT && half_period_cycles > 0 {
            Ok(TimingHandle { pin, half_period_cycles, running: false })
        } else {
            Err(BusError::PinConfigurationFailed)
        }
    }

    /// The line level `cycles` clock cycles after the program started: high
    /// through the first half-period, low through the second, and so on.
    pub open spec fn level_at(self, cycles: u64) -> bool
        recommends
            self.half_period_cycles > 0,
    {
        (cycles as int / self.half_period_cycles as int) % 2 == 0
    }

    /// The level the engine is putting on its pin: the programmed square
    /// wave while the program runs, the parked level once it is stopped.
    pub open spec fn output_level(self, cycles_since_start: u64) -> bool
        recommends
            self.half_period_cycles > 0,
    {
        if self.running {
            self.level_at(cycles_since_start)
        } else {
            self.stopped_level()
        }
    }

    /// Start the program. `pin_claimed_elsewhere` says whether CPU-driven
    /// toggling currently owns the pin; starting then is refused, since two
    /// drivers must never fight over one line.
    pub fn start(&mut self, pin_claimed_elsewhere: bool) -> (r: Result<(), BusError>)
        requires
            old(self).wf(),
            !old(self).running,
        ensures
            final(self).wf(),
            final(self).pin == old(self).pin,
            final(self).half_period_cycles == old(self).half_period_cycles,
            r is Ok <==> !pin_claimed_elsewhere,
            final(self).running == !pin_claimed_elsewhere,
            r is Err ==> r->Err_0 is PinAlreadyOwned,
    {
        if pin_claimed_elsewhere {
            Err(BusError::PinAlreadyOwned)
        } else {
            self.running = true;
            Ok(())
        }
    }

    /// Stop the program. The pin is left at the engine's documented parked
    /// level (`stopped_level`) from that moment on, never mid-waveform, so
    /// ownership can be handed back cleanly.
    pub fn stop(&mut self)
        requires
            old(self).wf(),
        ensures
            final(self).wf(),
            !final(self).running,
            final(self).pin == old(self).pin,
            final(self).half_period_cycles == old(self).half_period_cycles,
            forall|cycles: u64|
                #[trigger] final(self).output_level(cycles) == final(self).stopped_level(),
    {
        self.running = false;
    }

    /// The defined level the engine parks the pin at after `stop`: low, the
    /// bus's natural idle-for-handover level.
    pub open spec fn stopped_level(self) -> bool {
        false
    }

    /// The level the running program has the pin at, `cycles_since_start`
    /// clock cycles after it started.
    pub fn sample_level(&self, cycles_since_start: u64) -> (r: bool)
        requires
            self.wf(),
            self.running,
        ensures
            r == self.level_at(cycles_since_start),
            r == self.output_level(cycles_since_start),
    {
        (cycles_since_start / (self.half_period_cycles as u64)) % 2 == 0
    }
}

/// Law: two samples taken exactly one half-period apart always see opposite
/// line levels — the pin really toggles at the programmed rate.
pub proof fn lemma_half_period_toggles(t: TimingHandle, c1: u64, c2: u64)
    requires
        t.wf(),
        c2 == c1 + t.half_period_cycles,
    ensures
        t.level_at(c2) != t.level_at(c1),
{
    let h = t.half_period_cycles as int;
    let a = c1 as int;
    let q = a / h;
    let r = a % h;
    lemma_fundamental_div_mod(a, h);
    lemma_mod_bound(a, h);
    lemma_mul_is_distributive_add(h, q, 1);
    lemma_mul_is_commutative(h, q + 1);
    lemma_fundamental_div_mod_converse(c2 as int, h, q + 1, r);
    lemma_add_mod_noop(q, 1, 2);
    lemma_mod_bound(q, 2);
}

} // verus!
