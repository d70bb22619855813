use psa_can::Error;
use psa_can::aee2010::infodiv::x1e1::{Frame, Repr};
use psa_can::vehicle::UnderInflationSystemState;
use psa_can::vehicle::WheelState;

const REPR_FRAME_BYTES: [u8; 4] = [0x80, 0x20, 0x10, 0x0f];

fn frame_repr() -> Repr {
    Repr {
        front_left_wheel_state: WheelState::Normal,
        front_right_wheel_state: WheelState::HighlyDeflated,
        rear_left_wheel_state: WheelState::LightlyDeflated,
        rear_right_wheel_state: WheelState::Puncture,
        system_state: UnderInflationSystemState::SystemOk,
    }
}

#[test]
fn x1e1_test_frame_deconstruction() {
    let frame = Frame::new_unchecked(REPR_FRAME_BYTES.to_vec());
    assert_eq!(frame.check_len(), Ok(()));
    assert_eq!(frame.front_left_wheel_state(), WheelState::Normal);
    assert_eq!(frame.front_right_wheel_state(), WheelState::HighlyDeflated);
    assert_eq!(frame.rear_left_wheel_state(), WheelState::LightlyDeflated);
    assert_eq!(frame.rear_right_wheel_state(), WheelState::Puncture);
    assert_eq!(frame.system_state(), UnderInflationSystemState::SystemOk);
}

#[test]
fn x1e1_test_frame_construction() {
    let bytes = [0u8; 4];
    let mut frame = Frame::new_unchecked(bytes.to_vec());

    frame.set_front_left_wheel_state(WheelState::Normal);
    frame.set_front_right_wheel_state(WheelState::HighlyDeflated);
    frame.set_rear_left_wheel_state(WheelState::LightlyDeflated);
    frame.set_rear_right_wheel_state(WheelState::Puncture);
    frame.set_system_state(UnderInflationSystemState::SystemOk);

    assert_eq!(frame.into_inner(), REPR_FRAME_BYTES.to_vec());
}

#[test]
fn x1e1_test_overlong() {
    let bytes: [u8; 5] = [0x80, 0x20, 0x10, 0x0f, 0xff];
    assert_eq!(
        Frame::new_unchecked(bytes.to_vec()).check_len().unwrap_err(),
        Error::Overlong
    );
}

#[test]
fn x1e1_test_underlong() {
    let bytes: [u8; 3] = [0x80, 0x20, 0x10];
    assert_eq!(Frame::new_checked(bytes.to_vec()).unwrap_err(), Error::Truncated);
}

#[test]
fn x1e1_test_repr_parse_valid() {
    let frame = Frame::new_unchecked(REPR_FRAME_BYTES.to_vec());
    let repr = Repr::parse(&frame).unwrap();
    assert_eq!(repr, frame_repr());
}

#[test]
fn x1e1_test_basic_repr_emit() {
    let buf = [0u8; 4];
    let mut frame = Frame::new_unchecked(buf.to_vec());
    let repr = frame_repr();
    repr.emit(&mut frame);
    assert_eq!(frame.into_inner(), REPR_FRAME_BYTES.to_vec());
}
