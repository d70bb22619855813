use psa_can::Error;
use psa_can::aee2010::infodiv::x3e7::{Frame, Repr};
use psa_can::config::DisplayMode;

const REPR_FRAME_BYTES: [u8; 5] = [0x00, 0x00, 0x50, 0x00, 0x01];

fn frame_repr() -> Repr {
    Repr {
        distance_counter_display_mode: DisplayMode::Steady,
        maintenance_wrench_display_mode: DisplayMode::Steady,
        remaining_days: 10,
        remaining_distance: 20,
    }
}

#[test]
fn x3e7_test_frame_deconstruction() {
    let frame = Frame::new_unchecked(REPR_FRAME_BYTES.to_vec());
    assert_eq!(frame.check_len(), Ok(()));
    assert_eq!(frame.distance_counter_negative(), false);
    assert_eq!(frame.distance_counter_display_mode(), DisplayMode::Steady);
    assert_eq!(frame.maintenance_wrench_display_mode(), DisplayMode::Steady);
    assert_eq!(frame.remaining_days(), 10);
    assert_eq!(frame.remaining_distance(), 1);
}

#[test]
fn x3e7_test_frame_construction() {
    let bytes = [0u8; 5];
    let mut frame = Frame::new_unchecked(bytes.to_vec());

    frame.set_distance_counter_negative(false);
    frame.set_distance_counter_display_mode(DisplayMode::Steady);
    frame.set_maintenance_wrench_display_mode(DisplayMode::Steady);
    frame.set_remaining_days(10);
    frame.set_remaining_distance(1);

    assert_eq!(frame.into_inner(), REPR_FRAME_BYTES.to_vec());
}

#[test]
fn x3e7_test_overlong() {
    let bytes: [u8; 6] = [0x00, 0x00, 0x50, 0x00, 0x01, 0xff];
    assert_eq!(
        Frame::new_unchecked(bytes.to_vec()).check_len().unwrap_err(),
        Error::Overlong
    );
}

#[test]
fn x3e7_test_underlong() {
    let bytes: [u8; 4] = [0x00, 0x00, 0x50, 0x00];
    assert_eq!(Frame::new_checked(bytes.to_vec()).unwrap_err(), Error::Truncated);
}

#[test]
fn x3e7_test_repr_parse_valid() {
    let frame = Frame::new_unchecked(REPR_FRAME_BYTES.to_vec());
    let repr = Repr::parse(&frame).unwrap();
    assert_eq!(repr, frame_repr());
}

#[test]
fn x3e7_test_basic_repr_emit() {
    let buf = [0u8; 5];
    let mut frame = Frame::new_unchecked(buf.to_vec());
    let repr = frame_repr();
    repr.emit(&mut frame);
    assert_eq!(frame.into_inner(), REPR_FRAME_BYTES.to_vec());
}
