use psa_can::Error;
use psa_can::aee2010::infodiv::x0b6::{Frame, Repr};
use psa_can::vehicle::SpeedValidity;

const REPR_FRAME_BYTES_1: [u8; 8] = [0x18, 0xa7, 0x00, 0x00, 0x00, 0x00, 0x42, 0xd0];

fn frame_1_repr() -> Repr {
    Repr {
        engine_rpm: 0x18a7,
        vehicle_immediate_speed: 0,
        trip_odometer: 0,
        trip_fuel_consumption: 66,
        speed_validity: SpeedValidity::Valid,
        immediate_speed_validity: true,
    }
}

#[test]
fn x0b6_test_frame_1_deconstruction() {
    let frame = Frame::new_unchecked(REPR_FRAME_BYTES_1.to_vec());
    assert_eq!(frame.check_len(), Ok(()));
    assert_eq!(frame.engine_rpm(), 0x18a7);
    assert_eq!(frame.vehicle_immediate_speed(), 0);
    assert_eq!(frame.trip_odometer(), 0);
    assert_eq!(frame.trip_fuel_consumption(), 0x42);
    assert_eq!(frame.speed_validity(), SpeedValidity::Valid);
    assert_eq!(frame.immediate_speed_validity(), true);
}

#[test]
fn x0b6_test_frame_1_construction() {
    let bytes = [0x00; 8];
    let mut frame = Frame::new_unchecked(bytes.to_vec());

    frame.set_engine_rpm(0x18a7);
    frame.set_vehicle_immediate_speed(0);
    frame.set_vehicle_immediate_speed(0);
    frame.set_trip_odometer(0);
    frame.set_trip_fuel_consumption(0x42);
    frame.set_speed_validity(SpeedValidity::Valid);
    frame.set_immediate_speed_validity(true);

    assert_eq!(frame.into_inner(), REPR_FRAME_BYTES_1.to_vec());
}

#[test]
fn x0b6_test_overlong() {
    let bytes: [u8; 9] = [0x18, 0xa7, 0x00, 0x00, 0x00, 0x00, 0x42, 0xd0, 0xff];
    assert_eq!(
        Frame::new_unchecked(bytes.to_vec()).check_len().unwrap_err(),
        Error::Overlong
    );
}

#[test]
fn x0b6_test_underlong() {
    let bytes: [u8; 7] = [0x18, 0xa7, 0x00, 0x00, 0x00, 0x00, 0x42];
    assert_eq!(Frame::new_checked(bytes.to_vec()).unwrap_err(), Error::Truncated);
}

#[test]
fn x0b6_repr_raw_parse_valid() {
    let frame = Frame::new_unchecked(REPR_FRAME_BYTES_1.to_vec());
    let repr = Repr::parse(&frame).unwrap();
    assert_eq!(repr, frame_1_repr());
}

#[test]
fn x0b6_repr_raw_emit() {
    let buf = [0u8; 8];
    let mut frame = Frame::new_unchecked(buf.to_vec());
    let repr = frame_1_repr();
    repr.emit(&mut frame);
    assert_eq!(frame.into_inner(), REPR_FRAME_BYTES_1.to_vec());
}
