use psa_can::Error;
use psa_can::aee2010::infodiv::x1d0::{Frame, Repr};

const REPR_FRAME_BYTES_1: [u8; 1] = [0xfd];
const REPR_FRAME_BYTES_2: [u8; 1] = [0xc8];

fn frame_1_repr() -> Repr {
    Repr {
        fragrance_selection: 1,
        fragrance_diffuser_enable: true,
        fragrance_intensity: 3,
        fragrance_cartridge_type: 7,
    }
}

fn frame_2_repr() -> Repr {
    Repr {
        fragrance_selection: 0,
        fragrance_diffuser_enable: false,
        fragrance_intensity: 1,
        fragrance_cartridge_type: 6,
    }
}

#[test]
fn x1d0_test_frame_1_deconstruction() {
    let frame = Frame::new_unchecked(REPR_FRAME_BYTES_1.to_vec());
    assert_eq!(frame.check_len(), Ok(()));
    assert_eq!(frame.fragrance_selection(), 1);
    assert_eq!(frame.fragrance_diffuser_enable(), true);
    assert_eq!(frame.fragrance_intensity(), 3);
    assert_eq!(frame.fragrance_cartridge_type(), 7);
}

#[test]
fn x1d0_test_frame_2_deconstruction() {
    let frame = Frame::new_unchecked(REPR_FRAME_BYTES_2.to_vec());
    assert_eq!(frame.check_len(), Ok(()));
    assert_eq!(frame.fragrance_selection(), 0);
    assert_eq!(frame.fragrance_diffuser_enable(), false);
    assert_eq!(frame.fragrance_intensity(), 1);
    assert_eq!(frame.fragrance_cartridge_type(), 6);
}

#[test]
fn x1d0_test_frame_1_construction() {
    let bytes = [0x00; 1];
    let mut frame = Frame::new_unchecked(bytes.to_vec());

    frame.set_fragrance_selection(1);
    frame.set_fragrance_diffuser_enable(true);
    frame.set_fragrance_intensity(3);
    frame.set_fragrance_cartridge_type(7);

    assert_eq!(frame.into_inner(), REPR_FRAME_BYTES_1.to_vec());
}

#[test]
fn x1d0_test_frame_2_construction() {
    let bytes = [0x00; 1];
    let mut frame = Frame::new_unchecked(bytes.to_vec());

    frame.set_fragrance_selection(0);
    frame.set_fragrance_diffuser_enable(false);
    frame.set_fragrance_intensity(1);
    frame.set_fragrance_cartridge_type(6);

    assert_eq!(frame.into_inner(), REPR_FRAME_BYTES_2.to_vec());
}

#[test]
fn x1d0_test_overlong() {
    let bytes: [u8; 2] = [0x00, 0xff];
    assert_eq!(
        Frame::new_unchecked(bytes.to_vec()).check_len().unwrap_err(),
        Error::Overlong
    );
}

#[test]
fn x1d0_test_underlong() {
    let bytes: [u8; 0] = [];
    assert_eq!(Frame::new_checked(bytes.to_vec()).unwrap_err(), Error::Truncated);
}

#[test]
fn x1d0_test_repr_1_parse_valid() {
    let frame = Frame::new_unchecked(REPR_FRAME_BYTES_1.to_vec());
    let repr = Repr::parse(&frame).unwrap();
    assert_eq!(repr, frame_1_repr());
}

#[test]
fn x1d0_test_repr_2_parse_valid() {
    let frame = Frame::new_unchecked(REPR_FRAME_BYTES_2.to_vec());
    let repr = Repr::parse(&frame).unwrap();
    assert_eq!(repr, frame_2_repr());
}

#[test]
fn x1d0_test_basic_repr_1_emit() {
    let buf = [0u8; 1];
    let mut frame = Frame::new_unchecked(buf.to_vec());
    let repr = frame_1_repr();
    repr.emit(&mut frame);
    assert_eq!(frame.into_inner(), REPR_FRAME_BYTES_1.to_vec());
}

#[test]
fn x1d0_test_basic_repr_2_emit() {
    let buf = [0u8; 1];
    let mut frame = Frame::new_unchecked(buf.to_vec());
    let repr = frame_2_repr();
    repr.emit(&mut frame);
    assert_eq!(frame.into_inner(), REPR_FRAME_BYTES_2.to_vec());
}
