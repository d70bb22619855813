use psa_can::Error;
use psa_can::aee2010::infodiv::x2ad::{Frame, Repr};

const REPR_FRAME_BYTES_1: [u8; 8] = [0x1c, 0x00, 0x00, 0x00, 0x00, 0x00, 0x00, 0x00];
const REPR_FRAME_BYTES_2: [u8; 8] = [0x14, 0x00, 0x00, 0x00, 0x00, 0x00, 0x00, 0x00];

fn frame_1_repr() -> Repr {
    Repr {
        central_temperature: 7,
    }
}

fn frame_2_repr() -> Repr {
    Repr {
        central_temperature: 5,
    }
}

#[test]
fn x2ad_test_frame_1_deconstruction() {
    let frame = Frame::new_unchecked(REPR_FRAME_BYTES_1.to_vec());
    assert_eq!(frame.check_len(), Ok(()));
    assert_eq!(frame.central_temperature(), 7);
}

#[test]
fn x2ad_test_frame_2_deconstruction() {
    let frame = Frame::new_unchecked(REPR_FRAME_BYTES_2.to_vec());
    assert_eq!(frame.check_len(), Ok(()));
    assert_eq!(frame.central_temperature(), 5);
}

#[test]
fn x2ad_test_frame_1_construction() {
    let bytes = [0u8; 8];
    let mut frame = Frame::new_unchecked(bytes.to_vec());

    frame.set_central_temperature(7);

    assert_eq!(frame.into_inner(), REPR_FRAME_BYTES_1.to_vec());
}

#[test]
fn x2ad_test_frame_2_construction() {
    let bytes = [0u8; 8];
    let mut frame = Frame::new_unchecked(bytes.to_vec());

    frame.set_central_temperature(5);

    assert_eq!(frame.into_inner(), REPR_FRAME_BYTES_2.to_vec());
}

#[test]
fn x2ad_test_overlong() {
    let bytes: [u8; 9] = [0x1c, 0x00, 0x00, 0x00, 0x00, 0x00, 0x00, 0x00, 0xff];
    assert_eq!(
        Frame::new_unchecked(bytes.to_vec()).check_len().unwrap_err(),
        Error::Overlong
    );
}

#[test]
fn x2ad_test_underlong() {
    let bytes: [u8; 7] = [0x1c, 0x00, 0x00, 0x00, 0x00, 0x00, 0x00];
    assert_eq!(Frame::new_checked(bytes.to_vec()).unwrap_err(), Error::Truncated);
}

#[test]
fn x2ad_test_repr_1_parse_valid() {
    let frame = Frame::new_unchecked(REPR_FRAME_BYTES_1.to_vec());
    let repr = Repr::parse(&frame).unwrap();
    assert_eq!(repr, frame_1_repr());
}

#[test]
fn x2ad_test_repr_2_parse_valid() {
    let frame = Frame::new_unchecked(REPR_FRAME_BYTES_2.to_vec());
    let repr = Repr::parse(&frame).unwrap();
    assert_eq!(repr, frame_2_repr());
}

#[test]
fn x2ad_test_basic_repr_1_emit() {
    let buf = [0u8; 8];
    let mut frame = Frame::new_unchecked(buf.to_vec());
    let repr = frame_1_repr();
    repr.emit(&mut frame);
    assert_eq!(frame.into_inner(), REPR_FRAME_BYTES_1.to_vec());
}

#[test]
fn x2ad_test_basic_repr_2_emit() {
    let buf = [0u8; 8];
    let mut frame = Frame::new_unchecked(buf.to_vec());
    let repr = frame_2_repr();
    repr.emit(&mut frame);
    assert_eq!(frame.into_inner(), REPR_FRAME_BYTES_2.to_vec());
}
