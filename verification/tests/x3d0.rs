use psa_can::Error;
use psa_can::aee2010::infodiv::x3d0::{Frame, Repr};

const REPR_FRAME_BYTES_1: [u8; 6] = [0x00, 0x14, 0x14, 0x02, 0x00, 0x00];
const REPR_FRAME_BYTES_2: [u8; 6] = [0x00, 0x11, 0x13, 0x01, 0x00, 0x00];

fn frame_1_repr() -> Repr {
    Repr {
        rear_left_temp: 20,
        rear_right_temp: 20,
        rear_ac_state: 2,
    }
}

fn frame_2_repr() -> Repr {
    Repr {
        rear_left_temp: 17,
        rear_right_temp: 19,
        rear_ac_state: 1,
    }
}

#[test]
fn x3d0_test_frame_1_deconstruction() {
    let frame = Frame::new_unchecked(REPR_FRAME_BYTES_1.to_vec());
    assert_eq!(frame.check_len(), Ok(()));
    assert_eq!(frame.rear_left_temp(), 20);
    assert_eq!(frame.rear_right_temp(), 20);
    assert_eq!(frame.rear_ac_state(), 2);
}

#[test]
fn x3d0_test_frame_2_deconstruction() {
    let frame = Frame::new_unchecked(REPR_FRAME_BYTES_2.to_vec());
    assert_eq!(frame.check_len(), Ok(()));
    assert_eq!(frame.rear_left_temp(), 17);
    assert_eq!(frame.rear_right_temp(), 19);
    assert_eq!(frame.rear_ac_state(), 1);
}

#[test]
fn x3d0_test_frame_1_construction() {
    let bytes = [0u8; 6];
    let mut frame = Frame::new_unchecked(bytes.to_vec());

    frame.set_rear_left_temp(20);
    frame.set_rear_right_temp(20);
    frame.set_rear_ac_state(2);

    assert_eq!(frame.into_inner(), REPR_FRAME_BYTES_1.to_vec());
}

#[test]
fn x3d0_test_frame_2_construction() {
    let bytes = [0u8; 6];
    let mut frame = Frame::new_unchecked(bytes.to_vec());

    frame.set_rear_left_temp(17);
    frame.set_rear_right_temp(19);
    frame.set_rear_ac_state(1);

    assert_eq!(frame.into_inner(), REPR_FRAME_BYTES_2.to_vec());
}

#[test]
fn x3d0_test_overlong() {
    let bytes: [u8; 7] = [0x00, 0x14, 0x14, 0x02, 0x00, 0x00, 0xff];
    assert_eq!(
        Frame::new_unchecked(bytes.to_vec()).check_len().unwrap_err(),
        Error::Overlong
    );
}

#[test]
fn x3d0_test_underlong() {
    let bytes: [u8; 5] = [0x00, 0x14, 0x14, 0x02, 0x00];
    assert_eq!(Frame::new_checked(bytes.to_vec()).unwrap_err(), Error::Truncated);
}

#[test]
fn x3d0_test_repr_1_parse_valid() {
    let frame = Frame::new_unchecked(REPR_FRAME_BYTES_1.to_vec());
    let repr = Repr::parse(&frame).unwrap();
    assert_eq!(repr, frame_1_repr());
}

#[test]
fn x3d0_test_repr_2_parse_valid() {
    let frame = Frame::new_unchecked(REPR_FRAME_BYTES_2.to_vec());
    let repr = Repr::parse(&frame).unwrap();
    assert_eq!(repr, frame_2_repr());
}

#[test]
fn x3d0_test_basic_repr_1_emit() {
    let buf = [0u8; 6];
    let mut frame = Frame::new_unchecked(buf.to_vec());
    let repr = frame_1_repr();
    repr.emit(&mut frame);
    assert_eq!(frame.into_inner(), REPR_FRAME_BYTES_1.to_vec());
}

#[test]
fn x3d0_test_basic_repr_2_emit() {
    let buf = [0u8; 6];
    let mut frame = Frame::new_unchecked(buf.to_vec());
    let repr = frame_2_repr();
    repr.emit(&mut frame);
    assert_eq!(frame.into_inner(), REPR_FRAME_BYTES_2.to_vec());
}
