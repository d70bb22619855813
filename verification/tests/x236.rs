use psa_can::Error;
use psa_can::aee2010::infodiv::x236::{Frame, Repr};
use psa_can::vehicle::ElectricalNetworkState;
use psa_can::vehicle::VehicleConfigMode;

const REPR_FRAME_BYTES_1: [u8; 8] = [0x54, 0x00, 0x01, 0xe2, 0x40, 0x80, 0xfe, 0x00];
const REPR_FRAME_BYTES_2: [u8; 8] = [0x06, 0x00, 0x74, 0xcb, 0xb1, 0x58, 0xfe, 0x80];

fn frame_1_repr() -> Repr {
    Repr {
        vehicle_config_mode: VehicleConfigMode::Customer,
        electrical_network_status: ElectricalNetworkState::GeneratorNormal,
        vsm_temporal_counter: 123456,
        jdd_context: 0,
        driver_door_open_evt: false,
        boot_open: true,
        gct_reset_counter: 0xfe,
        power_on_req_denied: false,
    }
}

fn frame_2_repr() -> Repr {
    Repr {
        vehicle_config_mode: VehicleConfigMode::Workshop,
        electrical_network_status: ElectricalNetworkState::BatteryNormal,
        vsm_temporal_counter: 7654321,
        jdd_context: 24,
        driver_door_open_evt: true,
        boot_open: false,
        gct_reset_counter: 0xfe,
        power_on_req_denied: true,
    }
}

#[test]
fn x236_test_frame_1_deconstruction() {
    let frame = Frame::new_unchecked(REPR_FRAME_BYTES_1.to_vec());
    assert_eq!(frame.check_len(), Ok(()));
    assert_eq!(frame.vehicle_config_mode(), VehicleConfigMode::Customer);
    assert_eq!(
        frame.electrical_network_status(),
        ElectricalNetworkState::GeneratorNormal
    );
    assert_eq!(frame.vsm_temporal_counter(), 123456);
    assert_eq!(frame.jdd_context(), 0);
    assert_eq!(frame.driver_door_open_evt(), false);
    assert_eq!(frame.boot_open(), true);
    assert_eq!(frame.gct_reset_counter(), 0xfe);
    assert_eq!(frame.power_on_req_denied(), false);
}

#[test]
fn x236_test_frame_2_deconstruction() {
    let frame = Frame::new_unchecked(REPR_FRAME_BYTES_2.to_vec());
    assert_eq!(frame.check_len(), Ok(()));
    assert_eq!(frame.vehicle_config_mode(), VehicleConfigMode::Workshop);
    assert_eq!(
        frame.electrical_network_status(),
        ElectricalNetworkState::BatteryNormal
    );
    assert_eq!(frame.vsm_temporal_counter(), 7654321);
    assert_eq!(frame.jdd_context(), 24);
    assert_eq!(frame.driver_door_open_evt(), true);
    assert_eq!(frame.boot_open(), false);
    assert_eq!(frame.gct_reset_counter(), 0xfe);
    assert_eq!(frame.power_on_req_denied(), true);
}

#[test]
fn x236_test_frame_1_construction() {
    let bytes = [0x00; 8];
    let mut frame = Frame::new_unchecked(bytes.to_vec());

    frame.set_vehicle_config_mode(VehicleConfigMode::Customer);
    frame.set_electrical_network_status(ElectricalNetworkState::GeneratorNormal);
    frame.set_vsm_temporal_counter(123456);
    frame.set_jdd_context(0);
    frame.set_driver_door_open_evt(false);
    frame.set_boot_open(true);
    frame.set_gct_reset_counter(0xfe);
    frame.set_power_on_req_denied(false);

    assert_eq!(frame.into_inner(), REPR_FRAME_BYTES_1.to_vec());
}

#[test]
fn x236_test_frame_2_construction() {
    let bytes = [0x00; 8];
    let mut frame = Frame::new_unchecked(bytes.to_vec());

    frame.set_vehicle_config_mode(VehicleConfigMode::Workshop);
    frame.set_electrical_network_status(ElectricalNetworkState::BatteryNormal);
    frame.set_vsm_temporal_counter(7654321);
    frame.set_jdd_context(24);
    frame.set_driver_door_open_evt(true);
    frame.set_boot_open(false);
    frame.set_gct_reset_counter(0xfe);
    frame.set_power_on_req_denied(true);

    assert_eq!(frame.into_inner(), REPR_FRAME_BYTES_2.to_vec());
}

#[test]
fn x236_test_overlong() {
    let bytes: [u8; 9] = [0x54, 0x00, 0x01, 0xe2, 0x40, 0x80, 0xfe, 0x00, 0xff];
    assert_eq!(
        Frame::new_unchecked(bytes.to_vec()).check_len().unwrap_err(),
        Error::Overlong
    );
}

#[test]
fn x236_test_underlong() {
    let bytes: [u8; 7] = [0x54, 0x00, 0x01, 0xe2, 0x40, 0x80, 0xfe];
    assert_eq!(Frame::new_checked(bytes.to_vec()).unwrap_err(), Error::Truncated);
}

#[test]
fn x236_test_repr_1_parse_valid() {
    let frame = Frame::new_unchecked(REPR_FRAME_BYTES_1.to_vec());
    let repr = Repr::parse(&frame).unwrap();
    assert_eq!(repr, frame_1_repr());
}

#[test]
fn x236_test_repr_2_parse_valid() {
    let frame = Frame::new_unchecked(REPR_FRAME_BYTES_2.to_vec());
    let repr = Repr::parse(&frame).unwrap();
    assert_eq!(repr, frame_2_repr());
}

#[test]
fn x236_test_basic_repr_1_emit() {
    let buf = [0u8; 8];
    let mut frame = Frame::new_unchecked(buf.to_vec());
    let repr = frame_1_repr();
    repr.emit(&mut frame);
    assert_eq!(frame.into_inner(), REPR_FRAME_BYTES_1.to_vec());
}

#[test]
fn x236_test_basic_repr_2_emit() {
    let buf = [0u8; 8];
    let mut frame = Frame::new_unchecked(buf.to_vec());
    let repr = frame_2_repr();
    repr.emit(&mut frame);
    assert_eq!(frame.into_inner(), REPR_FRAME_BYTES_2.to_vec());
}
