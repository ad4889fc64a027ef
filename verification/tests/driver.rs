use unio_bang::BusError;
use unio_bang::bus::BusConfig;
use unio_bang::bus::BusState;
use unio_bang::bus::UNIOBang;
use unio_bang::bus::classify_ack;
use unio_bang::bus::wait_bus_idle;
use unio_bang::open_drain::LineState;
use unio_bang::open_drain::OpenDrainPin;
use unio_bang::pad_pulls::PadGroup;
use unio_bang::pad_pulls::PadLocation;
use unio_bang::pad_pulls::SetPulls;

fn bank0_pad(index: u32) -> PadLocation {
    PadLocation { group: PadGroup::Bank0, index }
}

fn test_config() -> BusConfig {
    BusConfig {
        half_period_cycles: 1000,
        ack_window_polls: 4,
        standby_pulse_cycles: 100,
        crc_poly: 0x07,
        crc_init: 0x00,
    }
}

fn acquired_pin() -> OpenDrainPin {
    OpenDrainPin::new_init(bank0_pad(10), 0).unwrap()
}

/// An acknowledgment window in which the target sank the line once.
fn acked_window() -> Vec<bool> {
    vec![true, false, true, true]
}

/// An acknowledgment window in which the line stayed high throughout.
fn silent_window() -> Vec<bool> {
    vec![true, true, true, true]
}

#[test]
fn pull_up_set_reads_back_and_leaves_pull_down_alone() {
    let pad = bank0_pad(5);
    let mut pulls = pad.as_pulls(0).unwrap();
    let pull_down_before = pulls.get_pull_down();
    pulls.set_pull_up(true);
    assert!(pulls.get_pull_up());
    assert_eq!(pulls.get_pull_down(), pull_down_before);
}

#[test]
fn pull_up_clear_uses_complement_not_mask() {
    let pad = bank0_pad(5);
    // All bits set: clearing the pull-up must clear only its own bit.
    let mut pulls = pad.as_pulls(0xFFFF_FFFF).unwrap();
    pulls.set_pull_up(false);
    assert!(!pulls.get_pull_up());
    assert!(pulls.get_pull_down());
    assert_eq!(pulls.word, 0xFFFF_FFF7);
}

#[test]
fn pull_down_set_leaves_pull_up_alone() {
    let pad = bank0_pad(7);
    let mut pulls = pad.as_pulls(0).unwrap();
    pulls.set_pull_up(true);
    pulls.set_pull_down(true);
    assert!(pulls.get_pull_up());
    assert!(pulls.get_pull_down());
    pulls.set_pull_down(false);
    assert!(pulls.get_pull_up());
    assert!(!pulls.get_pull_down());
}

#[test]
fn qspi_pad_is_unsupported() {
    let pad = PadLocation { group: PadGroup::Qspi, index: 1 };
    assert_eq!(pad.as_pulls(0), Err(BusError::UnsupportedPad));
}

#[test]
fn out_of_range_bank0_pad_is_unsupported() {
    let pad = bank0_pad(30);
    assert_eq!(pad.as_pulls(0), Err(BusError::UnsupportedPad));
}

#[test]
fn acquire_starts_released_with_pull_up_on() {
    let pin = acquired_pin();
    assert_eq!(pin.state, LineState::Released);
    assert!(!pin.output_enabled);
    assert!(pin.invert_override);
    assert!(pin.pulls.get_pull_up());
}

#[test]
fn acquire_sets_only_the_pull_up_bit_of_the_given_word() {
    // The control word handed back — the one written to the live pad
    // register — is the input word with exactly the pull-up bit set.
    let pin = OpenDrainPin::new_init(bank0_pad(10), 0xFFFF_FFF3).unwrap();
    assert_eq!(pin.pulls.word, 0xFFFF_FFFB);
    let pin = OpenDrainPin::new_init(bank0_pad(10), 0).unwrap();
    assert_eq!(pin.pulls.word, 0x8);
}

#[test]
fn acquire_of_qspi_pad_fails_configuration() {
    let pad = PadLocation { group: PadGroup::Qspi, index: 0 };
    let r = OpenDrainPin::new_init(pad, 0);
    assert!(matches!(r, Err(BusError::PinConfigurationFailed)));
}

#[test]
fn drive_low_enables_output_and_release_undoes_it() {
    let mut pin = acquired_pin();
    pin.set_low().unwrap();
    assert_eq!(pin.state, LineState::DrivenLow);
    assert!(pin.output_enabled);
    pin.set_pulled_up().unwrap();
    assert_eq!(pin.state, LineState::Released);
    assert!(!pin.output_enabled);
}

#[test]
fn released_pin_reads_the_line() {
    let pin = acquired_pin();
    assert!(pin.read(false));
    assert!(!pin.read(true));
}

#[test]
fn classify_ack_sees_a_low_sample() {
    assert_eq!(classify_ack(&acked_window()), Ok(()));
    assert_eq!(classify_ack(&silent_window()), Err(BusError::NoAcknowledge));
    assert_eq!(classify_ack(&Vec::new()), Err(BusError::NoAcknowledge));
}

#[test]
fn wait_bus_idle_needs_a_high_sample() {
    assert_eq!(wait_bus_idle(&vec![false, false, true]), Ok(()));
    assert_eq!(wait_bus_idle(&vec![false, false]), Err(BusError::BusTimeout));
}

#[test]
fn write_word_reports_the_ack() {
    let mut driver = UNIOBang::new(acquired_pin(), test_config());
    assert_eq!(driver.write_word(0x55, &acked_window()), Ok(()));
    assert_eq!(driver.pin.state, LineState::Released);
    assert_eq!(
        driver.write_word(0x55, &silent_window()),
        Err(BusError::NoAcknowledge)
    );
    assert_eq!(driver.pin.state, LineState::Released);
}

#[test]
fn pure_command_transaction_acked_everywhere_ends_idle() {
    // Device-select byte 0xA1, no data phase, a target that acks every byte.
    let mut driver = UNIOBang::new(acquired_pin(), test_config());
    let data: Vec<u8> = Vec::new();
    let acks = vec![acked_window(), acked_window(), acked_window()];
    let r = driver.execute_transaction(0xA1, 0x6F, &data, &vec![true], &acks);
    assert_eq!(r, Ok(()));
    assert_eq!(driver.state, BusState::Idle);
    assert_eq!(driver.pin.state, LineState::Released);
    assert!(!driver.pin.output_enabled);
}

#[test]
fn transaction_with_data_acked_everywhere_succeeds() {
    let mut driver = UNIOBang::new(acquired_pin(), test_config());
    let data = vec![0x12, 0x34];
    let acks = vec![
        acked_window(),
        acked_window(),
        acked_window(),
        acked_window(),
        acked_window(),
    ];
    let r = driver.execute_transaction(0xA1, 0x6C, &data, &vec![true], &acks);
    assert_eq!(r, Ok(()));
    assert_eq!(driver.state, BusState::Idle);
}

#[test]
fn silent_target_gives_no_acknowledge_and_releases_line() {
    // The target never asserts an acknowledgment: the transaction must end
    // with NoAcknowledge within the window bound, the line released.
    let mut driver = UNIOBang::new(acquired_pin(), test_config());
    let data: Vec<u8> = Vec::new();
    let acks = vec![silent_window(), silent_window(), silent_window()];
    let r = driver.execute_transaction(0xA1, 0x6F, &data, &vec![true], &acks);
    assert_eq!(r, Err(BusError::NoAcknowledge));
    assert_eq!(driver.state, BusState::Error);
    assert_eq!(driver.pin.state, LineState::Released);
    assert!(!driver.pin.output_enabled);
}

#[test]
fn nack_on_a_later_byte_also_aborts() {
    let mut driver = UNIOBang::new(acquired_pin(), test_config());
    let data = vec![0x12];
    let acks = vec![acked_window(), acked_window(), silent_window(), acked_window()];
    let r = driver.execute_transaction(0xA1, 0x6C, &data, &vec![true], &acks);
    assert_eq!(r, Err(BusError::NoAcknowledge));
    assert_eq!(driver.state, BusState::Error);
    assert_eq!(driver.pin.state, LineState::Released);
}

#[test]
fn busy_line_gives_bus_timeout_and_releases_line() {
    let mut driver = UNIOBang::new(acquired_pin(), test_config());
    let data: Vec<u8> = Vec::new();
    let acks = vec![acked_window(), acked_window(), acked_window()];
    let r = driver.execute_transaction(0xA1, 0x6F, &data, &vec![false, false], &acks);
    assert_eq!(r, Err(BusError::BusTimeout));
    assert_eq!(driver.state, BusState::Error);
    assert_eq!(driver.pin.state, LineState::Released);
}

#[test]
fn driver_can_retry_after_an_error() {
    let mut driver = UNIOBang::new(acquired_pin(), test_config());
    let data: Vec<u8> = Vec::new();
    let silent = vec![silent_window(), silent_window(), silent_window()];
    let r = driver.execute_transaction(0xA1, 0x6F, &data, &vec![true], &silent);
    assert_eq!(r, Err(BusError::NoAcknowledge));
    let acked = vec![acked_window(), acked_window(), acked_window()];
    let r = driver.execute_transaction(0xA1, 0x6F, &data, &vec![true], &acked);
    assert_eq!(r, Ok(()));
    assert_eq!(driver.state, BusState::Idle);
}
