//! Bit-banged single-wire EEPROM bus driver built from four layers: raw pad
//! pull-resistor control, an open-drain line emulation, a hardware bit-timing
//! model, and the byte-level bus protocol with CRC and acknowledgment
//! handling. The register-level and protocol-level logic is pure and fully
//! specified; the electrical edge (volatile register access, delays, line
//! sampling) is left to the embedding application, which exchanges plain
//! values with this library.

use vstd::prelude::*;

pub mod bus;
pub mod codec;
pub mod open_drain;
pub mod pad_pulls;
pub mod timing;

verus! {

/// Everything that can go wrong while configuring a pad or running a bus
/// transaction.
#[derive(Clone, Copy, Debug, PartialEq, Eq, Structural)]
pub enum BusError {
    /// The pad lies outside the controllable hardware bank.
    UnsupportedPad,
    /// The pull-up or output-enable override could not be applied.
    PinConfigurationFailed,
    /// The bit-timing engine and CPU-driven toggling would fight over a pin.
    PinAlreadyOwned,
    /// The target device did not assert the expected acknowledgment bit.
    NoAcknowledge,
    /// No response within the bounded polling window.
    BusTimeout,
    /// A received frame's checksum did not match its contents.
    CrcMismatch,
}

} // verus!
