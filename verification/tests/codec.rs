use raestro::utils::{mask_byte, microsec_to_target};

#[test]
fn tests_simple_mask_byte_test() {
    let byte: u8 = 0x00u8;
    let expected_byte: u8 = 0x00u8;

    assert_eq!(mask_byte(byte), expected_byte);
}

#[test]
fn tests_medium_mask_byte_test() {
    let byte: u8 = 0xffu8;
    let expected_byte: u8 = 0x7fu8;

    assert_eq!(mask_byte(byte), expected_byte);
}

#[test]
fn tests_complex_mask_byte_test() {
    let byte: u8 = 0xa5u8;
    let expected_byte: u8 = 0x25u8;

    assert_eq!(mask_byte(byte), expected_byte);
}

#[test]
fn tests_simple_short_to_target_test() {
    let target: u16 = 6000u16;
    let expected: (u8, u8) = (0x70u8, 0x2eu8);

    assert_eq!(microsec_to_target(target), expected);
}

#[test]
fn utils_simple_mask_byte_test() {
    let byte: u8 = 0x00u8;
    let expected_byte: u8 = 0x00u8;

    assert_eq!(mask_byte(byte), expected_byte);
}

#[test]
fn utils_medium_mask_byte_test() {
    let byte: u8 = 0xffu8;
    let expected_byte: u8 = 0x7fu8;

    assert_eq!(mask_byte(byte), expected_byte);
}

#[test]
fn utils_complex_mask_byte_test() {
    let byte: u8 = 0xa5u8;
    let expected_byte: u8 = 0x25u8;

    assert_eq!(mask_byte(byte), expected_byte);
}

#[test]
fn utils_simple_short_to_target_test() {
    let target: u16 = 6000u16;
    let expected: (u8, u8) = (0x70u8, 0x2eu8);

    assert_eq!(microsec_to_target(target), expected);
}

#[test]
fn mask_byte_clears_the_top_bit_of_every_byte() {
    for byte in 0u8..=255u8 {
        let masked = mask_byte(byte);
        assert_eq!(masked & 0x80, 0);
        assert_eq!(masked, byte % 128);
    }
}

#[test]
fn target_bytes_never_have_the_top_bit_set() {
    for value in 0u16..=u16::MAX {
        let (lower, upper) = microsec_to_target(value);
        assert_eq!(lower & 0x80, 0);
        assert_eq!(upper & 0x80, 0);
        assert_eq!(lower as u16 + 128 * upper as u16, value % 16384);
    }
}

#[test]
fn target_bytes_of_the_range_limits() {
    assert_eq!(microsec_to_target(3968), (0x00, 0x1f));
    assert_eq!(microsec_to_target(4000), (0x20, 0x1f));
    assert_eq!(microsec_to_target(8000), (0x40, 0x3e));
    assert_eq!(microsec_to_target(0), (0x00, 0x00));
    assert_eq!(microsec_to_target(0xffff), (0x7f, 0x7f));
}

#[test]
fn target_bytes_drop_the_two_top_bits() {
    assert_eq!(microsec_to_target(0x4000), (0x00, 0x00));
    assert_eq!(microsec_to_target(0x8000), (0x00, 0x00));
    assert_eq!(microsec_to_target(0xc001), (0x01, 0x00));
}
