use psa_can::Error;
use psa_can::aee2010::infodiv::x1a5::{Frame, Repr};
use psa_can::vehicle::VolumeLevelOrigin;

const REPR_FRAME_BYTES: [u8; 1] = [0x8a];

fn frame_repr() -> Repr {
    Repr {
        volume: 10,
        origin: VolumeLevelOrigin::ThermalProtection,
    }
}

#[test]
fn x1a5_test_frame_deconstruction() {
    let frame = Frame::new_unchecked(REPR_FRAME_BYTES.to_vec());
    assert_eq!(frame.check_len(), Ok(()));
    assert_eq!(frame.volume_level(), 10);
    assert_eq!(
        frame.volume_level_origin(),
        VolumeLevelOrigin::ThermalProtection
    );
}

#[test]
fn x1a5_test_frame_construction() {
    let bytes = [0u8; 1];
    let mut frame = Frame::new_unchecked(bytes.to_vec());

    frame.set_volume_level(10);
    frame.set_volume_level_origin(VolumeLevelOrigin::ThermalProtection);

    assert_eq!(frame.into_inner(), REPR_FRAME_BYTES.to_vec());
}

#[test]
fn x1a5_test_overlong() {
    let bytes: [u8; 2] = [0x8a, 0xff];
    assert_eq!(
        Frame::new_unchecked(bytes.to_vec()).check_len().unwrap_err(),
        Error::Overlong
    );
}

#[test]
fn x1a5_test_underlong() {
    let bytes: [u8; 0] = [];
    assert_eq!(Frame::new_checked(bytes.to_vec()).unwrap_err(), Error::Truncated);
}

#[test]
fn x1a5_test_repr_parse_valid() {
    let frame = Frame::new_unchecked(REPR_FRAME_BYTES.to_vec());
    let repr = Repr::parse(&frame).unwrap();
    assert_eq!(repr, frame_repr());
}

#[test]
fn x1a5_test_basic_repr_emit() {
    let buf = [0u8; 1];
    let mut frame = Frame::new_unchecked(buf.to_vec());
    let repr = frame_repr();
    repr.emit(&mut frame);
    assert_eq!(frame.into_inner(), REPR_FRAME_BYTES.to_vec());
}
