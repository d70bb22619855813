use psa_can::Error;
use psa_can::aee2010::infodiv::x1a8::Frame;

const REPR_FRAME_BYTES_1: [u8; 8] = [0x01, 0x00, 0x00, 0x00, 0x00, 0x00, 0x19, 0x84];
const REPR_FRAME_BYTES_2: [u8; 8] = [0x02, 0x00, 0x00, 0x00, 0x00, 0x00, 0x0c, 0xb6];

#[test]
fn x1a8_test_frame_1_deconstruction() {
    let frame = Frame::new_unchecked(REPR_FRAME_BYTES_1.to_vec());
    assert_eq!(frame.check_len(), Ok(()));
    assert_eq!(frame.limit_reached(), true);
    assert_eq!(frame.pre_programming_state(), false);
    assert_eq!(frame.partial_odometer(), 6532);
}

#[test]
fn x1a8_test_frame_2_deconstruction() {
    let frame = Frame::new_unchecked(REPR_FRAME_BYTES_2.to_vec());
    assert_eq!(frame.check_len(), Ok(()));
    assert_eq!(frame.limit_reached(), false);
    assert_eq!(frame.pre_programming_state(), true);
    assert_eq!(frame.partial_odometer(), 3254);
}

#[test]
fn x1a8_test_frame_1_construction() {
    let bytes = [0x00; 8];
    let mut frame = Frame::new_unchecked(bytes.to_vec());

    frame.set_limit_reached(true);
    frame.set_pre_programming_state(false);
    frame.set_partial_odometer(6532);
    assert_eq!(frame.into_inner(), REPR_FRAME_BYTES_1.to_vec());
}

#[test]
fn x1a8_test_frame_2_construction() {
    let bytes = [0x00; 8];
    let mut frame = Frame::new_unchecked(bytes.to_vec());

    frame.set_limit_reached(false);
    frame.set_pre_programming_state(true);
    frame.set_partial_odometer(3254);

    assert_eq!(frame.into_inner(), REPR_FRAME_BYTES_2.to_vec());
}

#[test]
fn x1a8_test_overlong() {
    let bytes: [u8; 9] = [0x44, 0x00, 0x82, 0x00, 0x00, 0x00, 0x19, 0x84, 0xff];
    assert_eq!(
        Frame::new_unchecked(bytes.to_vec()).check_len().unwrap_err(),
        Error::Overlong
    );
}

#[test]
fn x1a8_test_underlong() {
    let bytes: [u8; 7] = [0x44, 0x00, 0x82, 0x00, 0x00, 0x00, 0x19];
    assert_eq!(Frame::new_checked(bytes.to_vec()).unwrap_err(), Error::Truncated);
}
