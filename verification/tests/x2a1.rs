use psa_can::Error;
use psa_can::aee2010::infodiv::x2a1::Frame;

const REPR_FRAME_BYTES: [u8; 7] = [0x1d, 0x03, 0xe3, 0x00, 0x6b, 0x00, 0x00];

#[test]
fn x2a1_test_frame_deconstruction() {
    let frame = Frame::new_unchecked(REPR_FRAME_BYTES.to_vec());
    assert_eq!(frame.check_len(), Ok(()));
    assert_eq!(frame.average_speed(), 29);
    assert_eq!(frame.distance(), 995);
    assert_eq!(frame.average_consumption(), 107);
}

#[test]
fn x2a1_test_frame_construction() {
    let bytes = [0u8; 7];
    let mut frame = Frame::new_unchecked(bytes.to_vec());

    frame.set_average_speed(29);
    frame.set_distance(995);
    frame.set_average_consumption(107);

    assert_eq!(frame.into_inner(), REPR_FRAME_BYTES.to_vec());
}

#[test]
fn x2a1_test_overlong() {
    let bytes: [u8; 8] = [0x1d, 0x03, 0xe3, 0x00, 0x6b, 0x00, 0x00, 0xff];
    assert_eq!(
        Frame::new_unchecked(bytes.to_vec()).check_len().unwrap_err(),
        Error::Overlong
    );
}

#[test]
fn x2a1_test_underlong() {
    let bytes: [u8; 6] = [0x1d, 0x03, 0xe3, 0x00, 0x6b, 0x00];
    assert_eq!(Frame::new_checked(bytes.to_vec()).unwrap_err(), Error::Truncated);
}
