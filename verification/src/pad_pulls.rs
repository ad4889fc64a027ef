//! Raw control of a pad's pull-up / pull-down enable bits.
//!
//! A pad's electrical characteristics live in a shared per-pad control word;
//! this module models the read-modify-write discipline on that word: setting
//! a single enable bit ORs the mask in, clearing it ANDs with the mask's
//! complement, and no other bit of the word is ever disturbed. Access is
//! granted only after the pad's bank has been validated, so no address
//! outside the known register map can ever be formed.

use vstd::prelude::*;

use crate::BusError;

verus! {

/// Whether one bit of a register word is set, counted from the least
/// significant end.
pub open spec fn bit_set(word: u32, bit: u32) -> bool {
    word & (1u32 << bit) != 0u32
}

/// The register word after a single-bit read-modify-write: enabling ORs the
/// bit's mask in; disabling ANDs with the mask's complement (never with the
/// mask itself, which would wipe the rest of the word instead of clearing
/// the bit).
pub open spec fn with_bit(word: u32, bit: u32, enable: bool) -> u32 {
    if enable {
        word | (1u32 << bit)
    } else {
        word & !(1u32 << bit)
    }
}

/// Which hardware bank a pad belongs to. Only the primary GPIO bank is
/// controllable here; the QSPI bank is reserved for the flash interface and
/// must be rejected rather than mis-accessed.
#[derive(Clone, Copy, Debug, PartialEq, Eq, Structural)]
pub enum PadGroup {
    Bank0,
    Qspi,
}

/// A pad location: bank plus index within the bank.
#[derive(Clone, Copy, Debug, PartialEq, Eq, Structural)]
pub struct PadLocation {
    pub group: PadGroup,
    pub index: u32,
}

/// Number of pads in the primary GPIO bank.
pub const BANK0_PAD_COUNT: u32 = 30;

/// Bit position of the pull-up enable flag within a pad control word.
/// Board-level configuration, kept out of the protocol logic.
pub const PULL_UP_ENABLE_BIT: u32 = 3;

/// Bit position of the pull-down enable flag within a pad control word.
pub const PULL_DOWN_ENABLE_BIT: u32 = 2;

/// The pads whose pull resistors may be touched: the primary GPIO bank only.
pub open spec fn pad_supported(pad: PadLocation) -> bool {
    pad.group is Bank0 && pad.index < BANK0_PAD_COUNT
}

/// Pull-resistor access to one validated pad: the pad's control word
/// together with the configured positions of the two enable bits.
#[derive(Clone, Copy, Debug, PartialEq, Eq, Structural)]
pub struct PinPulls {
    /// Current value of the pad control word.
    pub word: u32,
    /// Bit position of the pull-up enable flag.
    pub pull_up_bit: u32,
    /// Bit position of the pull-down enable flag.
    pub pull_down_bit: u32,
}

impl PinPulls {
    /// The two enable bits are distinct, in-range positions of one word.
    pub open spec fn wf(self) -> bool {
        &&& self.pull_up_bit < 32
        &&& self.pull_down_bit < 32
        &&& self.pull_up_bit != self.pull_down_bit
    }

    /// Whether the pad's pull-up resistor is enabled.
    pub fn get_pull_up(&self) -> (r: bool)
        requires
            self.wf(),
        ensures
            r == bit_set(self.word, self.pull_up_bit),
    {
        self.word & (1u32 << self.pull_up_bit) != 0u32
    }

    /// Enable or disable the pad's pull-up resistor, touching only its bit.
    pub fn set_pull_up(&mut self, enable: bool)
        requires
            old(self).wf(),
        ensures
            final(self).wf(),
            final(self).word == with_bit(old(self).word, old(self).pull_up_bit, enable),
            final(self).pull_up_bit == old(self).pull_up_bit,
            final(self).pull_down_bit == old(self).pull_down_bit,
    {
        if enable {
            self.word = self.word | (1u32 << self.pull_up_bit);
        } else {
            self.word = self.word & !(1u32 << self.pull_up_bit);
        }
    }

    /// Whether the pad's pull-down resistor is enabled.
    pub fn get_pull_down(&self) -> (r: bool)
        requires
            self.wf(),
        ensures
            r == bit_set(self.word, self.pull_down_bit),
    {
        self.word & (1u32 << self.pull_down_bit) != 0u32
    }

    /// Enable or disable the pad's pull-down resistor, touching only its bit.
    pub fn set_pull_down(&mut self, enable: bool)
        requires
            old(self).wf(),
        ensures
            final(self).wf(),
            final(self).word == with_bit(old(self).word, old(self).pull_down_bit, enable),
            final(self).pull_up_bit == old(self).pull_up_bit,
            final(self).pull_down_bit == old(self).pull_down_bit,
    {
        if enable {
            self.word = self.word | (1u32 << self.pull_down_bit);
        } else {
            self.word = self.word & !(1u32 << self.pull_down_bit);
        }
    }
}

/// Law: a single-bit read-modify-write sets exactly the requested bit to the
/// requested value and leaves every other bit of the control word unchanged.
pub proof fn lemma_pull_bit_rmw_independent(word: u32, bit: u32, other: u32, enable: bool)
    requires
        bit < 32,
        other < 32,
        other != bit,
    ensures
        bit_set(with_bit(word, bit, enable), bit) == enable,
        bit_set(with_bit(word, bit, enable), other) == bit_set(word, other),
{
    assert((word | (1u32 << bit)) & (1u32 << bit) != 0u32) by (bit_vector)
        requires bit < 32;
    assert((word & !(1u32 << bit)) & (1u32 << bit) == 0u32) by (bit_vector)
        requires bit < 32;
    assert(((word | (1u32 << bit)) & (1u32 << other) != 0u32) == (word & (1u32 << other) != 0u32))
        by (bit_vector)
        requires bit < 32, other < 32, other != bit;
    assert(((word & !(1u32 << bit)) & (1u32 << other) != 0u32) == (word & (1u32 << other) != 0u32))
        by (bit_vector)
        requires bit < 32, other < 32, other != bit;
}

/// Law: on any well-formed pull controller, writing the pull-up enable bit
/// makes it read back as written and leaves the pull-down bit's prior value
/// untouched.
pub proof fn lemma_pull_up_independent_of_pull_down(p: PinPulls, enable: bool)
    requires
        p.wf(),
    ensures
        bit_set(with_bit(p.word, p.pull_up_bit, enable), p.pull_up_bit) == enable,
        bit_set(with_bit(p.word, p.pull_up_bit, enable), p.pull_down_bit) == bit_set(
            p.word,
            p.pull_down_bit,
        ),
{
    lemma_pull_bit_rmw_independent(p.word, p.pull_up_bit, p.pull_down_bit, enable);
}

/// Capability interface onto a pad's pull resistors: the single gate through
/// which pull access is granted, validating the pad's bank first. A pad
/// outside the supported bank yields `UnsupportedPad` and grants nothing, so
/// no register write can ever be aimed at it.
pub trait SetPulls {
    /// The pad this value stands for.
    spec fn pad(&self) -> PadLocation;

    /// Grant pull-resistor access to this pad, given the current value of
    /// its control word, or refuse if the pad is outside the supported bank.
    fn as_pulls(&self, word: u32) -> (r: Result<PinPulls, BusError>)
        ensures
            r is Ok <==> pad_supported(self.pad()),
            r is Ok ==> r->Ok_0 == (PinPulls {
                word,
                pull_up_bit: PULL_UP_ENABLE_BIT,
                pull_down_bit: PULL_DOWN_ENABLE_BIT,
            }),
            r is Err ==> r->Err_0 is UnsupportedPad,
    ;
}

impl SetPulls for PadLocation {
    open spec fn pad(&self) -> PadLocation {
        *self
    }

    fn as_pulls(&self, word: u32) -> (r: Result<PinPulls, BusError>) {
        match self.group {
            PadGroup::Qspi => Err(BusError::UnsupportedPad),
            PadGroup::Bank0 => {
                if self.index < BANK0_PAD_COUNT {
                    Ok(PinPulls {
                        word,
                        pull_up_bit: PULL_UP_ENABLE_BIT,
                        pull_down_bit: PULL_DOWN_ENABLE_BIT,
                    })
                } else {
                    Err(BusError::UnsupportedPad)
                }
            },
        }
    }
}

} // verus!
