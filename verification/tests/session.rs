use raestro::constants::{BaudRates, Channels, Errors, RESPONSE_SIZE};
use raestro::errors::{Error, GpioError, IoError, IoErrorKind, TransportError, UartError};
use raestro::maestro::{Action, Maestro, Parity};
use std::time::Duration;

fn started() -> Maestro {
    let mut maestro = Maestro::new();
    assert_eq!(maestro.start(Ok(())), Ok(()));
    maestro
}

fn broken_pipe() -> IoError {
    IoError { kind: IoErrorKind::BrokenPipe, message: String::from("broken pipe") }
}

#[test]
fn new_session_is_uninitialized() {
    let maestro = Maestro::new();
    assert!(!maestro.is_initialized());
    assert!(maestro.is_valid());
    let maestro = Maestro::default();
    assert!(!maestro.is_initialized());
}

#[test]
fn every_command_on_a_new_session_is_refused() {
    let mut maestro = Maestro::new();
    assert_eq!(maestro.set_target(Channels::C_0, 4000).unwrap_err(), Error::Uninitialized);
    assert_eq!(maestro.set_speed(Channels::C_1, 10).unwrap_err(), Error::Uninitialized);
    assert_eq!(maestro.set_acceleration(Channels::C_2, 10).unwrap_err(), Error::Uninitialized);
    assert_eq!(maestro.go_home().unwrap_err(), Error::Uninitialized);
    assert_eq!(maestro.stop_script().unwrap_err(), Error::Uninitialized);
    assert_eq!(maestro.get_position(Channels::C_3).unwrap_err(), Error::Uninitialized);
    assert_eq!(maestro.get_errors().unwrap_err(), Error::Uninitialized);
    assert_eq!(maestro.read_after_writing(Ok(vec![1, 2])), Err(Error::Uninitialized));
    assert_eq!(maestro.errors_after_writing(Ok(vec![1, 2])), Err(Error::Uninitialized));
    assert_eq!(
        maestro.set_block_duration(Duration::from_secs(1)).unwrap_err(),
        Error::Uninitialized
    );
    assert!(!maestro.is_initialized());
}

#[test]
fn an_uninitialized_session_refuses_an_invalid_target_as_uninitialized() {
    let mut maestro = Maestro::new();
    assert_eq!(maestro.set_target(Channels::C_0, 0).unwrap_err(), Error::Uninitialized);
}

#[test]
fn settings_of_start() {
    let settings = Maestro::settings(BaudRates::BR_115200);
    assert_eq!(settings.baud_rate, 115200);
    assert_eq!(settings.parity, Parity::Disabled);
    assert_eq!(settings.data_bits, 8);
    assert_eq!(settings.stop_bits, 1);
    assert_eq!(settings.read_mode.min_length, 0);
    assert_eq!(settings.read_mode.timeout, Duration::from_secs(2));
    assert_eq!(Maestro::settings(BaudRates::BR_50).baud_rate, 50);
}

#[test]
fn start_then_set_target_end_to_end() {
    let mut maestro = Maestro::new();
    assert_eq!(Maestro::settings(BaudRates::BR_115200).baud_rate, 115200);
    assert_eq!(maestro.start(Ok(())), Ok(()));
    assert!(maestro.is_initialized());
    let frame = maestro.set_target(Channels::C_0, 4000).unwrap();
    assert_eq!(frame.as_slice(), &[0xAA, 0x0C, 0x04, 0x00, 0x20, 0x1F]);
    assert_eq!(frame.len(), 6);
    assert_eq!(maestro.write(&frame, Ok(6)), Ok(Action::Done));
}

#[test]
fn failed_start_leaves_the_session_closed() {
    let mut maestro = Maestro::new();
    let result = maestro.start(Err(UartError::Gpio(GpioError::PinUsed(14))));
    assert_eq!(result, Err(Error::Transport(TransportError::PinUsed(14))));
    assert!(!maestro.is_initialized());

    let mut maestro = started();
    let result = maestro.start(Err(UartError::InvalidValue));
    assert_eq!(result, Err(Error::Transport(TransportError::InvalidValue)));
    assert!(!maestro.is_initialized());
    assert_eq!(maestro.go_home().unwrap_err(), Error::Uninitialized);
}

#[test]
fn set_target_refuses_values_outside_the_range() {
    let mut maestro = started();
    for target in [0u16, 992, 2000, 3967, 8001, u16::MAX] {
        assert_eq!(
            maestro.set_target(Channels::C_2, target).unwrap_err(),
            Error::InvalidValue(target)
        );
    }
    assert!(maestro.set_target(Channels::C_2, 3968).is_ok());
    assert!(maestro.set_target(Channels::C_2, 8000).is_ok());
}

#[test]
fn a_refused_target_leaves_the_write_buffer_alone() {
    let mut maestro = started();
    let before = maestro.set_speed(Channels::C_5, 0x1234).unwrap();
    assert!(maestro.set_target(Channels::C_0, 1).is_err());
    let after = maestro.go_home().unwrap();
    assert_eq!(before.as_slice()[0..2], after.as_slice()[0..2]);
    assert_eq!(after.as_slice(), &[0xAA, 0x0C, 0x22]);
}

#[test]
fn frames_of_the_payload_commands() {
    let mut maestro = started();
    let frame = maestro.set_target(Channels::C_5, 8000).unwrap();
    assert_eq!(frame.as_slice(), &[0xAA, 0x0C, 0x04, 0x05, 0x40, 0x3E]);
    let frame = maestro.set_speed(Channels::C_1, 10).unwrap();
    assert_eq!(frame.as_slice(), &[0xAA, 0x0C, 0x07, 0x01, 0x0A, 0x00]);
    let frame = maestro.set_speed(Channels::C_1, 0xFFFF).unwrap();
    assert_eq!(frame.as_slice(), &[0xAA, 0x0C, 0x07, 0x01, 0x7F, 0x7F]);
    let frame = maestro.set_acceleration(Channels::C_4, 255).unwrap();
    assert_eq!(frame.as_slice(), &[0xAA, 0x0C, 0x09, 0x04, 0x7F, 0x01]);
    let frame = maestro.set_acceleration(Channels::C_3, 0).unwrap();
    assert_eq!(frame.as_slice(), &[0xAA, 0x0C, 0x09, 0x03, 0x00, 0x00]);
}

#[test]
fn frames_of_the_short_commands() {
    let mut maestro = started();
    let frame = maestro.go_home().unwrap();
    assert_eq!(frame.as_slice(), &[0xAA, 0x0C, 0x22]);
    assert_eq!(frame.len(), 3);
    let frame = maestro.stop_script().unwrap();
    assert_eq!(frame.as_slice(), &[0xAA, 0x0C, 0x24]);
    let frame = maestro.get_errors().unwrap();
    assert_eq!(frame.as_slice(), &[0xAA, 0x0C, 0x21]);
    let frame = maestro.get_position(Channels::C_2).unwrap();
    assert_eq!(frame.as_slice(), &[0xAA, 0x0C, 0x10, 0x02]);
    assert_eq!(frame.len(), 4);
}

#[test]
fn header_stays_in_place_across_commands() {
    let mut maestro = started();
    let frames = [
        maestro.set_target(Channels::C_0, 6000).unwrap(),
        maestro.get_position(Channels::C_0).unwrap(),
        maestro.set_speed(Channels::C_3, 0xFFFF).unwrap(),
        maestro.get_errors().unwrap(),
        maestro.set_acceleration(Channels::C_1, 200).unwrap(),
        maestro.stop_script().unwrap(),
        maestro.go_home().unwrap(),
    ];
    for frame in frames {
        assert_eq!(frame.as_slice()[0..2], [0xAA, 0x0C]);
    }
    assert_eq!(maestro.read_after_writing(Ok(vec![0xFF, 0xFF])), Ok(0xFFFF));
    let frame = maestro.go_home().unwrap();
    assert_eq!(frame.as_slice()[0..2], [0xAA, 0x0C]);
    assert!(maestro.is_valid());
}

#[test]
fn write_checks_the_number_of_bytes() {
    let mut maestro = started();
    let frame = maestro.set_speed(Channels::C_0, 1).unwrap();
    assert_eq!(maestro.write(&frame, Ok(6)), Ok(Action::Done));
    assert_eq!(
        maestro.write(&frame, Ok(5)),
        Err(Error::FaultyWrite { actual_count: 5, expected_count: 6 })
    );
    assert_eq!(
        maestro.write(&frame, Ok(0)),
        Err(Error::FaultyWrite { actual_count: 0, expected_count: 6 })
    );
    let frame = maestro.go_home().unwrap();
    assert_eq!(maestro.write(&frame, Ok(3)), Ok(Action::Done));
    assert_eq!(
        maestro.write(&frame, Ok(6)),
        Err(Error::FaultyWrite { actual_count: 6, expected_count: 3 })
    );
    assert_eq!(
        maestro.write(&frame, Err(UartError::Io(broken_pipe()))),
        Err(Error::Transport(TransportError::Io(broken_pipe())))
    );
    maestro.close();
    assert_eq!(maestro.write(&frame, Ok(3)), Err(Error::Uninitialized));
}

#[test]
fn get_position_decodes_the_response_low_byte_first() {
    let mut maestro = started();
    let frame = maestro.get_position(Channels::C_1).unwrap();
    assert_eq!(maestro.write(&frame, Ok(4)), Ok(Action::Read(2)));
    assert_eq!(RESPONSE_SIZE, 2);
    assert_eq!(maestro.read_after_writing(Ok(vec![0xA0, 0x0F])), Ok(4000));
    assert_eq!(maestro.read_after_writing(Ok(vec![0x34, 0x12])), Ok(0x1234));
    assert_eq!(maestro.read_after_writing(Ok(vec![0x00, 0x80])), Ok(0x8000));
}

#[test]
fn short_read_during_get_position_is_a_faulty_read() {
    let mut maestro = started();
    let frame = maestro.get_position(Channels::C_0).unwrap();
    assert_eq!(maestro.write(&frame, Ok(4)), Ok(Action::Read(2)));
    assert_eq!(
        maestro.read_after_writing(Ok(vec![0x12])),
        Err(Error::FaultyRead { actual_count: 1 })
    );
    assert_eq!(maestro.read_after_writing(Ok(vec![])), Err(Error::FaultyRead { actual_count: 0 }));
    assert_eq!(
        maestro.read_after_writing(Ok(vec![1, 2, 3])),
        Err(Error::FaultyRead { actual_count: 3 })
    );
    assert_eq!(
        maestro.read_after_writing(Ok(vec![1, 2, 3, 4, 5, 6, 7, 8])),
        Err(Error::FaultyRead { actual_count: 8 })
    );
}

#[test]
fn failed_read_is_a_transport_error() {
    let mut maestro = started();
    assert_eq!(
        maestro.read_after_writing(Err(UartError::Gpio(GpioError::ThreadPanic))),
        Err(Error::Transport(TransportError::ThreadPanic))
    );
    assert_eq!(
        maestro.errors_after_writing(Err(UartError::Io(broken_pipe()))),
        Err(Error::Transport(TransportError::Io(broken_pipe())))
    );
    assert!(maestro.is_initialized());
}

#[test]
fn get_errors_decodes_the_flags() {
    let mut maestro = started();
    let frame = maestro.get_errors().unwrap();
    assert_eq!(frame.response_len(), 2);
    assert_eq!(maestro.write(&frame, Ok(3)), Ok(Action::Read(2)));
    assert_eq!(maestro.errors_after_writing(Ok(vec![0x00, 0x00])), Ok(vec![]));
    assert_eq!(
        maestro.errors_after_writing(Ok(vec![0x03, 0x00])),
        Ok(vec![Errors::SER_SIGNAL_ERR, Errors::SER_OVERRUN_ERR])
    );
    assert_eq!(
        maestro.errors_after_writing(Ok(vec![0x10, 0x01])),
        Ok(vec![Errors::SER_PROTOCOL_ERR, Errors::SCRIPT_PC_ERR])
    );
    assert_eq!(maestro.errors_after_writing(Ok(vec![0x00, 0x02])), Ok(vec![]));
    assert_eq!(
        maestro.errors_after_writing(Ok(vec![0x01])),
        Err(Error::FaultyRead { actual_count: 1 })
    );
}

#[test]
fn close_then_any_command_is_refused() {
    let mut maestro = started();
    maestro.close();
    assert!(!maestro.is_initialized());
    assert_eq!(maestro.set_target(Channels::C_0, 4000).unwrap_err(), Error::Uninitialized);
    assert_eq!(maestro.set_speed(Channels::C_0, 1).unwrap_err(), Error::Uninitialized);
    assert_eq!(maestro.set_acceleration(Channels::C_0, 1).unwrap_err(), Error::Uninitialized);
    assert_eq!(maestro.go_home().unwrap_err(), Error::Uninitialized);
    assert_eq!(maestro.stop_script().unwrap_err(), Error::Uninitialized);
    assert_eq!(maestro.get_position(Channels::C_0).unwrap_err(), Error::Uninitialized);
    assert_eq!(maestro.get_errors().unwrap_err(), Error::Uninitialized);
    maestro.close();
    assert!(!maestro.is_initialized());
    assert_eq!(maestro.go_home().unwrap_err(), Error::Uninitialized);
    assert_eq!(maestro.start(Ok(())), Ok(()));
    assert_eq!(maestro.go_home().unwrap().as_slice(), &[0xAA, 0x0C, 0x22]);
}

#[test]
fn only_queries_are_followed_by_a_read() {
    let mut maestro = started();
    let frame = maestro.set_target(Channels::C_0, 5000).unwrap();
    assert_eq!(frame.response_len(), 0);
    assert_eq!(maestro.write(&frame, Ok(6)), Ok(Action::Done));
    let frame = maestro.set_speed(Channels::C_0, 5000).unwrap();
    assert_eq!(maestro.write(&frame, Ok(6)), Ok(Action::Done));
    let frame = maestro.set_acceleration(Channels::C_0, 50).unwrap();
    assert_eq!(maestro.write(&frame, Ok(6)), Ok(Action::Done));
    let frame = maestro.stop_script().unwrap();
    assert_eq!(maestro.write(&frame, Ok(3)), Ok(Action::Done));
    let frame = maestro.get_position(Channels::C_4).unwrap();
    assert_eq!(frame.response_len(), 2);
    assert_eq!(maestro.write(&frame, Ok(4)), Ok(Action::Read(2)));
    assert_eq!(
        maestro.write(&frame, Ok(3)),
        Err(Error::FaultyWrite { actual_count: 3, expected_count: 4 })
    );
}

#[test]
fn buffers_hold_what_was_encoded_and_received() {
    let mut maestro = Maestro::new();
    assert_eq!(maestro.write_buffer(), None);
    assert_eq!(maestro.read_buffer(), None);
    assert_eq!(maestro.start(Ok(())), Ok(()));
    assert_eq!(maestro.write_buffer(), Some([0xAA, 0x0C, 0, 0, 0, 0]));
    assert_eq!(maestro.read_buffer(), Some([0, 0, 0, 0, 0, 0]));
    maestro.set_target(Channels::C_1, 6000).unwrap();
    assert_eq!(maestro.write_buffer(), Some([0xAA, 0x0C, 0x04, 0x01, 0x70, 0x2E]));
    maestro.get_errors().unwrap();
    assert_eq!(maestro.write_buffer(), Some([0xAA, 0x0C, 0x21, 0x01, 0x70, 0x2E]));
    assert!(maestro.set_target(Channels::C_1, 9000).is_err());
    assert_eq!(maestro.write_buffer(), Some([0xAA, 0x0C, 0x21, 0x01, 0x70, 0x2E]));
    assert_eq!(maestro.read_after_writing(Ok(vec![0x11, 0x22])), Ok(0x2211));
    assert_eq!(maestro.read_buffer(), Some([0x11, 0x22, 0, 0, 0, 0]));
    assert!(maestro.read_after_writing(Ok(vec![0x33])).is_err());
    assert_eq!(maestro.read_buffer(), Some([0x33, 0x22, 0, 0, 0, 0]));
    assert!(maestro.read_after_writing(Ok(vec![0x44, 0x55, 0x66])).is_err());
    assert_eq!(maestro.read_buffer(), Some([0x44, 0x55, 0, 0, 0, 0]));
    assert!(maestro.read_after_writing(Err(UartError::InvalidValue)).is_err());
    assert_eq!(maestro.read_buffer(), Some([0x44, 0x55, 0, 0, 0, 0]));
    assert_eq!(maestro.write_buffer(), Some([0xAA, 0x0C, 0x21, 0x01, 0x70, 0x2E]));
    maestro.close();
    assert_eq!(maestro.write_buffer(), None);
    assert_eq!(maestro.read_buffer(), None);
}

#[test]
fn set_block_duration_on_a_started_session() {
    let maestro = started();
    let mode = maestro.set_block_duration(Duration::from_millis(1500)).unwrap();
    assert_eq!(mode.min_length, 0);
    assert_eq!(mode.timeout, Duration::from_millis(1500));
}

#[test]
fn force_into_validity_changes_nothing() {
    let mut maestro = started();
    maestro.force_into_validity();
    assert!(maestro.is_initialized());
    assert!(maestro.is_valid());
    let mut maestro = Maestro::new();
    maestro.force_into_validity();
    assert!(!maestro.is_initialized());
}

#[test]
fn every_link_failure_keeps_its_details() {
    let cases = [
        (UartError::Io(broken_pipe()), TransportError::Io(broken_pipe())),
        (UartError::InvalidValue, TransportError::InvalidValue),
        (UartError::Gpio(GpioError::UnknownModel), TransportError::UnknownModel),
        (UartError::Gpio(GpioError::PinUsed(15)), TransportError::PinUsed(15)),
        (UartError::Gpio(GpioError::PinNotAvailable(40)), TransportError::PinNotAvailable(40)),
        (
            UartError::Gpio(GpioError::PermissionDenied(String::from("/dev/gpiomem"))),
            TransportError::PermissionDenied(String::from("/dev/gpiomem")),
        ),
        (UartError::Gpio(GpioError::Io(broken_pipe())), TransportError::Io(broken_pipe())),
        (UartError::Gpio(GpioError::ThreadPanic), TransportError::ThreadPanic),
    ];
    for (uart_error, expected) in cases {
        assert_eq!(Error::from(uart_error), Error::Transport(expected));
    }
}

#[test]
fn io_class_of_each_link_failure() {
    assert_eq!(TransportError::Io(broken_pipe()).kind(), IoErrorKind::BrokenPipe);
    assert_eq!(TransportError::UnknownModel.kind(), IoErrorKind::Other);
    assert_eq!(TransportError::PinNotAvailable(3).kind(), IoErrorKind::AddrNotAvailable);
    assert_eq!(
        TransportError::PermissionDenied(String::from("/dev/mem")).kind(),
        IoErrorKind::PermissionDenied
    );
    assert_eq!(TransportError::ThreadPanic.kind(), IoErrorKind::Other);
    assert_eq!(TransportError::PinUsed(3).kind(), IoErrorKind::AddrInUse);
    assert_eq!(TransportError::InvalidValue.kind(), IoErrorKind::Other);
}

#[test]
fn new_io_error_wraps_class_and_message() {
    let error = Error::new_io_error(IoErrorKind::TimedOut, String::from("timed out"));
    assert_eq!(
        error,
        Error::Transport(TransportError::Io(IoError {
            kind: IoErrorKind::TimedOut,
            message: String::from("timed out"),
        }))
    );
    assert_eq!(Error::new_io_error(IoErrorKind::Other, String::new()), Error::from(
        UartError::Io(IoError { kind: IoErrorKind::Other, message: String::new() })
    ));
}

#[test]
fn only_the_sync_byte_has_its_top_bit_set() {
    let mut maestro = started();
    let frames = [
        maestro.set_target(Channels::C_5, 8000).unwrap(),
        maestro.set_speed(Channels::C_4, 0xFFFF).unwrap(),
        maestro.set_acceleration(Channels::C_3, 0xFF).unwrap(),
        maestro.get_position(Channels::C_2).unwrap(),
        maestro.get_errors().unwrap(),
        maestro.go_home().unwrap(),
        maestro.stop_script().unwrap(),
    ];
    for frame in frames {
        let bytes = frame.as_slice();
        assert_eq!(bytes[0], 0xAA);
        assert!(bytes[1..].iter().all(|byte| byte & 0x80 == 0));
        assert!(3 <= bytes.len() && bytes.len() <= 6);
        assert_eq!(bytes.len(), frame.len());
    }
}

#[test]
fn a_response_is_not_decoded_the_way_a_value_is_encoded() {
    let mut maestro = started();
    let frame = maestro.set_speed(Channels::C_0, 4000).unwrap();
    let data = frame.as_slice()[4..6].to_vec();
    assert_eq!(data, vec![0x20, 0x1F]);
    assert_eq!(maestro.read_after_writing(Ok(data)), Ok(0x1F20));
    let frame = maestro.set_speed(Channels::C_0, 100).unwrap();
    let data = frame.as_slice()[4..6].to_vec();
    assert_eq!(maestro.read_after_writing(Ok(data)), Ok(100));
}
