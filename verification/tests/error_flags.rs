use raestro::constants::Errors;
use raestro::maestro::intrinsics::MaestroError;

#[test]
fn constants_no_errors() {
    let err = 0u16;
    let actual_vec = Errors::into_errors(err);

    assert_eq!(actual_vec.len(), 0usize);
}

#[test]
fn constants_ser_signal_error() {
    let err = 1u16;
    let actual_vec = Errors::into_errors(err);

    assert_eq!(actual_vec.len(), 1usize);
    assert_eq!(actual_vec[0usize], Errors::SER_SIGNAL_ERR);
}

#[test]
fn constants_ser_overrun_error() {
    let err = 2u16;
    let actual_vec = Errors::into_errors(err);

    assert_eq!(actual_vec.len(), 1usize);
    assert_eq!(actual_vec[0usize], Errors::SER_OVERRUN_ERR);
}

#[test]
fn constants_two_errors() {
    let err = 3u16;
    let actual_vec = Errors::into_errors(err);

    assert_eq!(actual_vec.len(), 2usize);
    assert_eq!(actual_vec[0usize], Errors::SER_SIGNAL_ERR);
    assert_eq!(actual_vec[1usize], Errors::SER_OVERRUN_ERR);
}

#[test]
fn constants_invalid_err() {
    let err = 0x0200u16;
    let actual_vec = Errors::into_errors(err);

    assert_eq!(actual_vec.len(), 0usize);
}

#[test]
fn constants_all_errors() {
    let err = 0x01ffu16;
    let actual_vec = Errors::into_errors(err);

    assert_eq!(actual_vec.len(), 9usize);
    assert_eq!(actual_vec[0usize], Errors::SER_SIGNAL_ERR);
    assert_eq!(actual_vec[1usize], Errors::SER_OVERRUN_ERR);
    assert_eq!(actual_vec[2usize], Errors::SER_BUFFER_FULL);
    assert_eq!(actual_vec[3usize], Errors::SER_CRC_ERR);
    assert_eq!(actual_vec[4usize], Errors::SER_PROTOCOL_ERR);
    assert_eq!(actual_vec[5usize], Errors::SER_TIMEOUT);
    assert_eq!(actual_vec[6usize], Errors::SCRIPT_STACK_ERR);
    assert_eq!(actual_vec[7usize], Errors::SCRIPT_CALL_STACK_ERR);
    assert_eq!(actual_vec[8usize], Errors::SCRIPT_PC_ERR);
}

#[test]
fn maestro_error_no_errors() {
    let err = 0u16;
    let actual_vec = MaestroError::from_data(err);

    assert_eq!(actual_vec.len(), 0usize);
}

#[test]
fn maestro_error_ser_signal_error() {
    let err = 1u16;
    let actual_vec = MaestroError::from_data(err);

    assert_eq!(actual_vec.len(), 1usize);
    assert_eq!(actual_vec[0usize], MaestroError::SerSignalError);
}

#[test]
fn maestro_error_ser_overrun_error() {
    let err = 2u16;
    let actual_vec = MaestroError::from_data(err);

    assert_eq!(actual_vec.len(), 1usize);
    assert_eq!(actual_vec[0usize], MaestroError::SerOverrunError);
}

#[test]
fn maestro_error_two_errors() {
    let err = 3u16;
    let actual_vec = MaestroError::from_data(err);

    assert_eq!(actual_vec.len(), 2usize);
    assert_eq!(actual_vec[0usize], MaestroError::SerSignalError);
    assert_eq!(actual_vec[1usize], MaestroError::SerOverrunError);
}

#[test]
fn maestro_error_invalid_err() {
    let err = 0x0200u16;
    let actual_vec = MaestroError::from_data(err);

    assert_eq!(actual_vec.len(), 0usize);
}

#[test]
fn maestro_error_all_errors() {
    let err = 0x01ffu16;
    let actual_vec = MaestroError::from_data(err);

    assert_eq!(actual_vec.len(), 9usize);
    assert_eq!(actual_vec[0usize], MaestroError::SerSignalError);
    assert_eq!(actual_vec[1usize], MaestroError::SerOverrunError);
    assert_eq!(actual_vec[2usize], MaestroError::SerBufferFull);
    assert_eq!(actual_vec[3usize], MaestroError::SerCrcError);
    assert_eq!(actual_vec[4usize], MaestroError::SerProtocolError);
    assert_eq!(actual_vec[5usize], MaestroError::SerTimeout);
    assert_eq!(actual_vec[6usize], MaestroError::ScriptStackError);
    assert_eq!(actual_vec[7usize], MaestroError::ScriptCallStackError);
    assert_eq!(actual_vec[8usize], MaestroError::ScriptPcError);
}

#[test]
fn bits_above_eight_report_nothing() {
    assert_eq!(Errors::into_errors(0xfe00), vec![]);
    assert_eq!(Errors::into_errors(0xfe10), vec![Errors::SER_PROTOCOL_ERR]);
    assert_eq!(Errors::into_errors(0xffff), Errors::into_errors(0x01ff));
    assert_eq!(MaestroError::from_data(0xfe00), vec![]);
    assert_eq!(MaestroError::from_data(0x8100), vec![MaestroError::ScriptPcError]);
}

#[test]
fn every_word_lists_its_set_bits_in_ascending_order() {
    for data in 0u16..=0x03ffu16 {
        let errors = Errors::into_errors(data);
        let expected: Vec<u16> = (0u16..=8u16).filter(|bit| (data >> bit) & 1 == 1).collect();
        let bits: Vec<u16> = errors.iter().map(|error| error.bit()).collect();
        assert_eq!(bits, expected);
    }
}

#[test]
fn both_decoders_agree() {
    for data in [0u16, 1, 5, 0x0100, 0x01ff, 0x0155, 0xffff] {
        let first: Vec<u16> = Errors::into_errors(data).iter().map(|error| error.bit()).collect();
        let second: Vec<u16> =
            MaestroError::from_data(data).iter().map(|error| error.errors().bit()).collect();
        assert_eq!(first, second);
    }
}

#[test]
fn each_position_names_its_error() {
    assert_eq!(Errors::from(0), Errors::SER_SIGNAL_ERR);
    assert_eq!(Errors::from(5), Errors::SER_TIMEOUT);
    assert_eq!(Errors::from(8), Errors::SCRIPT_PC_ERR);
    assert_eq!(MaestroError::from(0), MaestroError::SerSignalError);
    assert_eq!(MaestroError::from(4), MaestroError::SerProtocolError);
    assert_eq!(MaestroError::from(8), MaestroError::ScriptPcError);
    for position in 0u16..=8u16 {
        assert_eq!(Errors::from(position).bit(), position);
    }
}

#[test]
fn no_errors() {
    let err = 0u16;
    let actual_vec = MaestroError::from_data(err);

    assert_eq!(actual_vec.len(), 0usize);
}

#[test]
fn ser_signal_error() {
    let err = 1u16;
    let actual_vec = MaestroError::from_data(err);

    assert_eq!(actual_vec.len(), 1usize);
    assert_eq!(actual_vec[0usize], MaestroError::SerSignalError);
}

#[test]
fn ser_overrun_error() {
    let err = 2u16;
    let actual_vec = MaestroError::from_data(err);

    assert_eq!(actual_vec.len(), 1usize);
    assert_eq!(actual_vec[0usize], MaestroError::SerOverrunError);
}

#[test]
fn two_errors() {
    let err = 3u16;
    let actual_vec = MaestroError::from_data(err);

    assert_eq!(actual_vec.len(), 2usize);
    assert_eq!(actual_vec[0usize], MaestroError::SerSignalError);
    assert_eq!(actual_vec[1usize], MaestroError::SerOverrunError);
}

#[test]
fn invalid_err() {
    let err = 0x0200u16;
    let actual_vec = MaestroError::from_data(err);

    assert_eq!(actual_vec.len(), 0usize);
}

#[test]
fn all_errors() {
    let err = 0x01ffu16;
    let actual_vec = MaestroError::from_data(err);

    assert_eq!(actual_vec.len(), 9usize);
    assert_eq!(actual_vec[0usize], MaestroError::SerSignalError);
    assert_eq!(actual_vec[1usize], MaestroError::SerOverrunError);
    assert_eq!(actual_vec[2usize], MaestroError::SerBufferFull);
    assert_eq!(actual_vec[3usize], MaestroError::SerCrcError);
    assert_eq!(actual_vec[4usize], MaestroError::SerProtocolError);
    assert_eq!(actual_vec[5usize], MaestroError::SerTimeout);
    assert_eq!(actual_vec[6usize], MaestroError::ScriptStackError);
    assert_eq!(actual_vec[7usize], MaestroError::ScriptCallStackError);
    assert_eq!(actual_vec[8usize], MaestroError::ScriptPcError);
}
