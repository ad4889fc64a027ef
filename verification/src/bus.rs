//! The single-wire bus driver: one synchronous transaction at a time over
//! the emulated open-drain line.
//!
//! A transaction is start condition, device-select byte, command byte, the
//! data bytes, the CRC byte — each byte followed by an acknowledgment slot —
//! and a trailing standby pulse. The driver owns the line for the duration:
//! it toggles the pin bit by bit and, after each byte, releases the line and
//! watches it for the target's acknowledgment (the target can only sink the
//! pulled-up line, so an assertion is a low sample). The caller performs the
//! actual waiting and sampling and hands the observed line levels in as
//! plain values; every decision taken on them is made — and specified —
//! here. On every exit, success or failure, the line is left released, so a
//! failed transaction can never leave the bus stuck low.

use vstd::prelude::*;

use crate::BusError;
use crate::codec::build_frame;
use crate::codec::encode_byte;
use crate::codec::spec_frame;
use crate::open_drain::OpenDrainPin;

verus! {

/// The protocol phases of one transaction, with `Error` as the terminal
/// state of a failed one. A fresh transaction may be started from `Idle` or
/// from `Error`: a failure is not fatal to the driver instance.
#[derive(Clone, Copy, Debug, PartialEq, Eq, Structural)]
pub enum BusState {
    Idle,
    StartCondition,
    AddressPhase,
    CommandPhase,
    DataPhase,
    CrcPhase,
    StandbyPulse,
    Error,
}

/// Protocol configuration, supplied per target device rather than wired into
/// the logic: bit cell timing, the acknowledgment and standby windows, and
/// the CRC parameters.
#[derive(Clone, Copy, Debug, PartialEq, Eq, Structural)]
pub struct BusConfig {
    /// Half of one bit cell, in hardware clock cycles.
    pub half_period_cycles: u32,
    /// How many line samples an acknowledgment is waited for at each byte
    /// boundary before the byte counts as unacknowledged.
    pub ack_window_polls: usize,
    /// Width of the trailing standby pulse, in hardware clock cycles.
    pub standby_pulse_cycles: u32,
    /// CRC generator polynomial, most significant bit first.
    pub crc_poly: u8,
    /// CRC initial value.
    pub crc_init: u8,
}

impl BusConfig {
    /// Real timing windows: nothing the driver waits on may be zero-width.
    pub open spec fn wf(self) -> bool {
        &&& self.half_period_cycles > 0
        &&& self.ack_window_polls > 0
        &&& self.standby_pulse_cycles > 0
    }
}

/// Whether an acknowledgment was asserted somewhere in a window of line
/// samples: the target can only sink the line, so any low sample is its
/// doing.
pub open spec fn ack_seen(window: Seq<bool>) -> bool {
    exists|i: int| 0 <= i < window.len() && !window[i]
}

/// Whether the line was seen free (high) somewhere in a window of samples.
pub open spec fn line_freed(window: Seq<bool>) -> bool {
    exists|i: int| 0 <= i < window.len() && window[i]
}

/// The line-sample sequences behind a vector of sampled windows.
pub open spec fn views_of(windows: Seq<Vec<bool>>) -> Seq<Seq<bool>> {
    windows.map_values(|w: Vec<bool>| w@)
}

/// Scan one acknowledgment window: the target asserted iff some sample is
/// low; a window it never asserted in is a missing acknowledgment.
pub fn classify_ack(window: &Vec<bool>) -> (r: Result<(), BusError>)
    ensures
        r is Ok <==> ack_seen(window@),
        r is Err ==> r->Err_0 is NoAcknowledge,
{
    let mut i: usize = 0;
    while i < window.len()
        invariant
            i <= window@.len(),
            forall|j: int| 0 <= j < i ==> window@[j],
        decreases window@.len() - i,
    {
        if !window[i] {
            return Ok(());
        }
        i += 1;
    }
    Err(BusError::NoAcknowledge)
}

/// Scan the pre-transaction window for a free bus: the line must float high
/// before a start condition may be issued; a line held low throughout the
/// window is a timeout.
pub fn wait_bus_idle(window: &Vec<bool>) -> (r: Result<(), BusError>)
    ensures
        r is Ok <==> line_freed(window@),
        r is Err ==> r->Err_0 is BusTimeout,
{
    let mut i: usize = 0;
    while i < window.len()
        invariant
            i <= window@.len(),
            forall|j: int| 0 <= j < i ==> !window@[j],
        decreases window@.len() - i,
    {
        if window[i] {
            return Ok(());
        }
        i += 1;
    }
    Err(BusError::BusTimeout)
}

/// The outcome one transaction owes the caller, as a function of what the
/// line showed: a bus never seen free is a timeout; otherwise any
/// acknowledgment window the target never asserted in aborts the
/// transaction; otherwise it succeeds.
pub open spec fn spec_transaction_outcome(idle: Seq<bool>, acks: Seq<Seq<bool>>) -> Result<
    (),
    BusError,
> {
    if !line_freed(idle) {
        Err(BusError::BusTimeout)
    } else if exists|i: int| 0 <= i < acks.len() && !ack_seen(acks[i]) {
        Err(BusError::NoAcknowledge)
    } else {
        Ok(())
    }
}

/// The bit-banged single-wire bus driver: the open-drain line, the protocol
/// configuration, and the phase the last transaction reached.
pub struct UNIOBang {
    /// The emulated open-drain bus line, owned for the driver's lifetime.
    pub pin: OpenDrainPin,
    /// Target-device protocol configuration.
    pub cfg: BusConfig,
    /// The phase the driver is in: `Idle` after success, `Error` after a
    /// failed transaction.
    pub state: BusState,
}

impl UNIOBang {
    /// A usable driver: a well-formed line and real timing windows.
    pub open spec fn wf(self) -> bool {
        &&& self.pin.wf()
        &&& self.cfg.wf()
    }

    /// Take ownership of an acquired open-drain line and start idle.
    pub fn new(pin: OpenDrainPin, cfg: BusConfig) -> (r: UNIOBang)
        requires
            pin.wf(),
            cfg.wf(),
        ensures
            r.wf(),
            r.state is Idle,
            r.pin == pin,
            r.cfg == cfg,
    {
        UNIOBang { pin, cfg, state: BusState::Idle }
    }

    /// Put one byte on the line, most significant bit first — the line is
    /// released for a 1 and sunk for a 0 — then release it for the
    /// acknowledgment slot. The caller paces the bit cells.
    pub fn send_byte(&mut self, byte: u8)
        requires
            old(self).wf(),
        ensures
            final(self).wf(),
            final(self).pin.state is Released,
            !final(self).pin.output_enabled,
            final(self).pin.pulls == old(self).pin.pulls,
            final(self).pin.invert_override == old(self).pin.invert_override,
            final(self).cfg == old(self).cfg,
            final(self).state == old(self).state,
    {
        let bits = encode_byte(byte);
        let mut i: usize = 0;
        while i < bits.len()
            invariant
                self.wf(),
                self.pin.pulls == old(self).pin.pulls,
                self.pin.invert_override == old(self).pin.invert_override,
                self.cfg == old(self).cfg,
                self.state == old(self).state,
            decreases bits@.len() - i,
        {
            if bits[i] {
                let _ = self.pin.set_pulled_up();
            } else {
                let _ = self.pin.set_low();
            }
            i += 1;
        }
        let _ = self.pin.set_pulled_up();
    }

    /// Transmit one byte and wait out its acknowledgment slot.
    /// `ack_window` holds the line levels sampled during the slot; the byte
    /// counts as acknowledged iff the target sank the line in it. The line
    /// is released afterwards either way.
    pub fn write_word(&mut self, word: u8, ack_window: &Vec<bool>) -> (r: Result<(), BusError>)
        requires
            old(self).wf(),
        ensures
            final(self).wf(),
            final(self).pin.state is Released,
            !final(self).pin.output_enabled,
            final(self).pin.pulls == old(self).pin.pulls,
            final(self).pin.invert_override == old(self).pin.invert_override,
            final(self).cfg == old(self).cfg,
            final(self).state == old(self).state,
            r is Ok <==> ack_seen(ack_window@),
            r is Err ==> r->Err_0 is NoAcknowledge,
    {
        self.send_byte(word);
        classify_ack(ack_window)
    }

    /// Run one complete transaction: wait for a free bus, issue the start
    /// condition, send the device-select byte, the command byte, the data
    /// and the CRC — each followed by its acknowledgment slot — and close
    /// with the standby pulse.
    ///
    /// `idle_window` holds the line samples taken while waiting for a free
    /// bus; `ack_windows[k]` holds the samples of the acknowledgment slot
    /// after the frame's `k`-th byte, each slot as wide as the configured
    /// window. The outcome is exactly `spec_transaction_outcome` of what the
    /// line showed, and on every exit — success, missing acknowledgment or
    /// timeout — the line is left released.
    pub fn execute_transaction(
        &mut self,
        device_select: u8,
        command: u8,
        data: &Vec<u8>,
        idle_window: &Vec<bool>,
        ack_windows: &Vec<Vec<bool>>,
    ) -> (r: Result<(), BusError>)
        requires
            old(self).wf(),
            old(self).state is Idle || old(self).state is Error,
            ack_windows@.len() == data@.len() + 3,
            forall|k: int|
                0 <= k < ack_windows@.len() ==> #[trigger] ack_windows@[k]@.len() == old(
                    self,
                ).cfg.ack_window_polls,
        ensures
            final(self).wf(),
            final(self).pin.state is Released,
            !final(self).pin.output_enabled,
            final(self).pin.pulls == old(self).pin.pulls,
            final(self).pin.invert_override == old(self).pin.invert_override,
            final(self).cfg == old(self).cfg,
            r == spec_transaction_outcome(idle_window@, views_of(ack_windows@)),
            r is Ok <==> final(self).state is Idle,
            r is Err ==> final(self).state is Error,
    {
        let ghost acks = views_of(ack_windows@);
        self.state = BusState::StartCondition;
        match wait_bus_idle(idle_window) {
            Err(e) => {
                let _ = self.pin.set_pulled_up();
                self.state = BusState::Error;
                return Err(e);
            },
            Ok(()) => {},
        }
        // Start condition: a calibrated low pulse, then release.
        let _ = self.pin.set_low();
        let _ = self.pin.set_pulled_up();
        let frame = build_frame(
            device_select,
            command,
            data,
            self.cfg.crc_poly,
            self.cfg.crc_init,
        );
        let mut i: usize = 0;
        while i < frame.len()
            invariant
                self.wf(),
                self.pin.pulls == old(self).pin.pulls,
                self.pin.invert_override == old(self).pin.invert_override,
                self.cfg == old(self).cfg,
                frame@ == spec_frame(
                    device_select,
                    command,
                    data@,
                    old(self).cfg.crc_poly,
                    old(self).cfg.crc_init,
                ),
                frame@.len() == ack_windows@.len(),
                acks == views_of(ack_windows@),
                line_freed(idle_window@),
                i <= frame@.len(),
                forall|j: int| 0 <= j < i ==> ack_seen(#[trigger] acks[j]),
            decreases frame@.len() - i,
        {
            if i == 0 {
                self.state = BusState::AddressPhase;
            } else if i == 1 {
                self.state = BusState::CommandPhase;
            } else if i + 1 < frame.len() {
                self.state = BusState::DataPhase;
            } else {
                self.state = BusState::CrcPhase;
            }
            self.send_byte(frame[i]);
            match classify_ack(&ack_windows[i]) {
                Err(e) => {
                    let _ = self.pin.set_pulled_up();
                    self.state = BusState::Error;
                    proof {
                        assert(acks[i as int] == ack_windows@[i as int]@);
                        assert(!ack_seen(acks[i as int]));
                        assert(exists|k: int| 0 <= k < acks.len() && !ack_seen(#[trigger] acks[k]));
                    }
                    return Err(e);
                },
                Ok(()) => {},
            }
            i += 1;
        }
        // Standby pulse: the released line rests high for the configured
        // width, letting the target finish its internal cycle.
        self.state = BusState::StandbyPulse;
        let _ = self.pin.set_pulled_up();
        self.state = BusState::Idle;
        proof {
            assert(forall|k: int| 0 <= k < acks.len() ==> ack_seen(#[trigger] acks[k]));
        }
        Ok(())
    }
}

/// Law: if the target never asserts an acknowledgment — every sample of
/// every acknowledgment window shows the line left high — a transaction on a
/// free bus comes out as `NoAcknowledge`; it cannot succeed and cannot be
/// mistaken for a bus timeout.
pub proof fn lemma_silent_target_means_no_acknowledge(idle: Seq<bool>, acks: Seq<Seq<bool>>)
    requires
        line_freed(idle),
        acks.len() > 0,
        forall|k: int, j: int|
            0 <= k < acks.len() && 0 <= j < acks[k].len() ==> #[trigger] acks[k][j],
    ensures
        spec_transaction_outcome(idle, acks) == Err::<(), BusError>(BusError::NoAcknowledge),
{
    assert(!ack_seen(acks[0]));
}

} // verus!

