//! Open-drain emulation of a single bus line.
//!
//! The hardware pin has no true open-drain output mode, so the line is
//! emulated with exactly two states: `Released` (output driver disabled, the
//! pull-up holds the line high and the pin is readable) and `DrivenLow`
//! (output driver enabled, which — through the output-enable inversion
//! override applied at acquisition — sinks the line to logic 0). There is no
//! third state: enabling the output can never put a high level on the line,
//! so two bus participants can share the wire without contention.

use vstd::prelude::*;

use crate::BusError;
use crate::pad_pulls::PULL_DOWN_ENABLE_BIT;
use crate::pad_pulls::PULL_UP_ENABLE_BIT;
use crate::pad_pulls::PadLocation;
use crate::pad_pulls::PinPulls;
use crate::pad_pulls::SetPulls;
use crate::pad_pulls::bit_set;
use crate::pad_pulls::lemma_pull_up_independent_of_pull_down;
use crate::pad_pulls::pad_supported;
use crate::pad_pulls::with_bit;

verus! {

/// The two — and only two — states of the emulated open-drain line driver.
#[derive(Clone, Copy, Debug, PartialEq, Eq, Structural)]
pub enum LineState {
    /// Output driver off: the pull-up holds the line high unless some other
    /// participant sinks it; the pin is readable as an input.
    Released,
    /// Output driver on: through the inversion override this forces logic 0.
    DrivenLow,
}

/// One physical pin dressed up as an open-drain line driver.
pub struct OpenDrainPin {
    /// Which of the two line states the driver is in.
    pub state: LineState,
    /// Whether the pin's output driver is enabled.
    pub output_enabled: bool,
    /// Whether the output-enable inversion override is in force; it is
    /// applied at acquisition and never dropped while the pin is held.
    pub invert_override: bool,
    /// The pad's pull-resistor state; the pull-up stays enabled throughout.
    pub pulls: PinPulls,
}

impl OpenDrainPin {
    /// The open-drain discipline: the inversion override and the pull-up are
    /// in force, and the output driver is enabled exactly in the
    /// `DrivenLow` state.
    pub open spec fn wf(self) -> bool {
        &&& self.pulls.wf()
        &&& self.invert_override
        &&& bit_set(self.pulls.word, self.pulls.pull_up_bit)
        &&& (self.output_enabled <==> self.state is DrivenLow)
    }

    /// The electrical level of the shared line, given whether some other bus
    /// participant is currently sinking it: an enabled output forces low
    /// (the inversion override turns "drive" into "sink"); a released line
    /// floats high on the pull-up unless somebody else holds it down.
    pub open spec fn line_level(self, other_sinking: bool) -> bool {
        if self.output_enabled {
            false
        } else {
            !other_sinking
        }
    }

    /// Acquire a pad as an open-drain line: validate the pad, enable its
    /// pull-up, and apply the output-enable inversion override, starting in
    /// the `Released` state. A pad the pull controller refuses yields
    /// `PinConfigurationFailed`, and no partial state is left enabled.
    ///
    /// `word` is the current value of the pad's control word, as read from
    /// the hardware by the caller; the control word handed back is exactly
    /// that word with the pull-up enable bit set and no other bit touched.
    pub fn new_init(pad: PadLocation, word: u32) -> (r: Result<OpenDrainPin, BusError>)
        ensures
            r is Ok <==> pad_supported(pad),
            r is Ok ==> {
                let p = r->Ok_0;
                &&& p.wf()
                &&& p.state is Released
                &&& !p.output_enabled
                &&& p.pulls == (PinPulls {
                    word: with_bit(word, PULL_UP_ENABLE_BIT, true),
                    pull_up_bit: PULL_UP_ENABLE_BIT,
                    pull_down_bit: PULL_DOWN_ENABLE_BIT,
                })
            },
            r is Err ==> r->Err_0 is PinConfigurationFailed,
    {
        match pad.as_pulls(word) {
            Ok(mut pulls) => {
                pulls.set_pull_up(true);
                proof {
                    lemma_pull_up_independent_of_pull_down(
                        PinPulls { word, ..pulls },
                        true,
                    );
                }
                Ok(OpenDrainPin {
                    state: LineState::Released,
                    output_enabled: false,
                    invert_override: true,
                    pulls,
                })
            },
            Err(_) => Err(BusError::PinConfigurationFailed),
        }
    }

    /// Release the line: disable the output driver and leave the pin as a
    /// pulled-up input. The line floats to logic 1 unless another bus
    /// participant holds it low.
    pub fn set_pulled_up(&mut self) -> (r: Result<(), BusError>)
        requires
            old(self).wf(),
        ensures
            final(self).wf(),
            final(self).state is Released,
            !final(self).output_enabled,
            final(self).pulls == old(self).pulls,
            final(self).invert_override == old(self).invert_override,
            r is Ok,
    {
        self.output_enabled = false;
        self.state = LineState::Released;
        Ok(())
    }

    /// Drive the line low: enable the output driver, which — through the
    /// inversion override — sinks the line to logic 0.
    pub fn set_low(&mut self) -> (r: Result<(), BusError>)
        requires
            old(self).wf(),
        ensures
            final(self).wf(),
            final(self).state is DrivenLow,
            final(self).output_enabled,
            final(self).line_level(false) == false,
            final(self).line_level(true) == false,
            final(self).pulls == old(self).pulls,
            final(self).invert_override == old(self).invert_override,
            r is Ok,
    {
        self.output_enabled = true;
        self.state = LineState::DrivenLow;
        Ok(())
    }

    /// Sample the line. Valid only while `Released`: a driven pin would read
    /// back its own forced low, not the bus. `other_sinking` is whether some
    /// other participant is currently holding the line down, which is what
    /// the hardware input buffer reports the complement of.
    pub fn read(&self, other_sinking: bool) -> (r: bool)
        requires
            self.wf(),
            self.state is Released,
        ensures
            r == self.line_level(other_sinking),
    {
        !other_sinking
    }
}

/// Law: a well-formed open-drain pin is never both output-enabled and putting
/// a high level on the line — enabling the output always yields a low line,
/// whatever the rest of the bus is doing.
pub proof fn lemma_output_enabled_line_low(p: OpenDrainPin, other_sinking: bool)
    requires
        p.wf(),
        p.output_enabled,
    ensures
        !p.line_level(other_sinking),
{
}

} // verus!
