use psa_can::Error;
use psa_can::aee2010::infodiv::x0f6::Frame;
use psa_can::vehicle::BlinkersStatus;
use psa_can::vehicle::MainStatus;
use psa_can::vehicle::PowertrainStatus;
use psa_can::vehicle::SteeringWheelPosition;
use psa_can::vehicle::VsmConfigMode;

const REPR_FRAME_BYTES_1: [u8; 8] = [0x80, 0x3c, 0x12, 0x99, 0x36, 0x9b, 0x9b, 0x20];
const REPR_FRAME_BYTES_2: [u8; 8] = [0x8e, 0x69, 0x11, 0x75, 0x46, 0x8c, 0x8c, 0x20];

#[test]
fn x0f6_test_frame_1_deconstruction() {
    let frame = Frame::new_unchecked(REPR_FRAME_BYTES_1.to_vec());
    assert_eq!(frame.check_len(), Ok(()));
    assert_eq!(frame.powertrain_status(), PowertrainStatus::Stopped);
    assert_eq!(frame.generator_working(), false);
    assert_eq!(frame.vehicle_main_status(), MainStatus::Off);
    assert_eq!(frame.factory_park(), false);
    assert_eq!(frame.vsm_config_mode(), VsmConfigMode::Customer);
    assert_eq!(frame.coolant_temp(), 60);
    assert_eq!(frame.odometer(), 1218870);
    assert_eq!(frame.external_temp(), 155);
    assert_eq!(frame.external_temp_filtered(), 155);
    assert_eq!(frame.blinkers_status(), BlinkersStatus::Off);
    assert_eq!(frame.cluster_lights_test(), false);
    assert_eq!(frame.steering_wheel_pos(), SteeringWheelPosition::Left);
    assert_eq!(frame.front_wiping_ack(), false);
    assert_eq!(frame.reverse_gear_engaged(), false);
}

#[test]
fn x0f6_test_frame_2_deconstruction() {
    let frame = Frame::new_unchecked(REPR_FRAME_BYTES_2.to_vec());
    assert_eq!(frame.check_len(), Ok(()));
    assert_eq!(frame.powertrain_status(), PowertrainStatus::Running);
    assert_eq!(frame.generator_working(), true);
    assert_eq!(frame.vehicle_main_status(), MainStatus::On);
    assert_eq!(frame.factory_park(), false);
    assert_eq!(frame.vsm_config_mode(), VsmConfigMode::Customer);
    assert_eq!(frame.coolant_temp(), 105);
    assert_eq!(frame.odometer(), 1144134);
    assert_eq!(frame.external_temp(), 140);
    assert_eq!(frame.external_temp_filtered(), 140);
    assert_eq!(frame.blinkers_status(), BlinkersStatus::Off);
    assert_eq!(frame.cluster_lights_test(), false);
    assert_eq!(frame.steering_wheel_pos(), SteeringWheelPosition::Left);
    assert_eq!(frame.front_wiping_ack(), false);
    assert_eq!(frame.reverse_gear_engaged(), false);
}

#[test]
fn x0f6_test_frame_1_construction() {
    let bytes = [0x00; 8];
    let mut frame = Frame::new_unchecked(bytes.to_vec());

    frame.set_powertrain_status(PowertrainStatus::Stopped);
    frame.set_generator_working(false);
    frame.set_vehicle_main_status(MainStatus::Off);
    frame.set_factory_park(false);
    frame.set_vsm_config_mode(VsmConfigMode::Customer);
    frame.set_coolant_temp(60);
    frame.set_odometer(1218870);
    frame.set_external_temp(155);
    frame.set_external_temp_filtered(155);
    frame.set_blinkers_status(BlinkersStatus::Off);
    frame.set_cluster_lights_test(false);
    frame.set_steering_wheel_pos(SteeringWheelPosition::Left);
    frame.set_front_wiping_ack(false);
    frame.set_reverse_gear_engaged(false);

    assert_eq!(frame.into_inner(), REPR_FRAME_BYTES_1.to_vec());
}

#[test]
fn x0f6_test_frame_2_construction() {
    let bytes = [0x00; 8];
    let mut frame = Frame::new_unchecked(bytes.to_vec());

    frame.set_powertrain_status(PowertrainStatus::Running);
    frame.set_generator_working(true);
    frame.set_vehicle_main_status(MainStatus::On);
    frame.set_factory_park(false);
    frame.set_vsm_config_mode(VsmConfigMode::Customer);
    frame.set_coolant_temp(105);
    frame.set_odometer(1144134);
    frame.set_external_temp(140);
    frame.set_external_temp_filtered(140);
    frame.set_blinkers_status(BlinkersStatus::Off);
    frame.set_cluster_lights_test(false);
    frame.set_steering_wheel_pos(SteeringWheelPosition::Left);
    frame.set_front_wiping_ack(false);
    frame.set_reverse_gear_engaged(false);

    assert_eq!(frame.into_inner(), REPR_FRAME_BYTES_2.to_vec());
}

#[test]
fn x0f6_test_overlong() {
    let bytes: [u8; 9] = [0x80, 0x3c, 0x12, 0x99, 0x36, 0x73, 0x73, 0x20, 0xff];
    assert_eq!(
        Frame::new_unchecked(bytes.to_vec()).check_len().unwrap_err(),
        Error::Overlong
    );
}

#[test]
fn x0f6_test_underlong() {
    let bytes: [u8; 7] = [0x80, 0x3c, 0x12, 0x99, 0x36, 0x73, 0x73];
    assert_eq!(Frame::new_checked(bytes.to_vec()).unwrap_err(), Error::Truncated);
}
