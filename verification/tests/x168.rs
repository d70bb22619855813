use psa_can::Error;
use psa_can::aee2010::infodiv::x168::{Frame, Repr, field};
use psa_can::vehicle::GearboxDriveModeGear;
use psa_can::vehicle::IndicatorState;
use psa_can::vehicle::LaneCenteringIndicatorState;
use psa_can::vehicle::SteeringAssistanceFaultType;
use psa_can::vehicle::SteeringAssistanceIndicatorState;

const REPR_FRAME_BYTES_1: [u8; 8] = [0x55, 0x50, 0x01, 0x14, 0x44, 0x94, 0x11, 0x84];
const REPR_FRAME_BYTES_2: [u8; 8] = [0xaa, 0xa8, 0x0a, 0x2a, 0xa0, 0x78, 0x06, 0x08];

fn frame_1_repr() -> Repr {
    Repr {
        under_inflation_failure: true,
        cold_engine_alert: false,
        low_brake_fluid_level_alert: true,
        low_oil_pressure_alert: false,
        low_oil_level_alert: true,
        low_coolant_level_alert: false,
        gearbox_has_more_than_six_speed: true,
        coolant_temperature_alert: false,
        automatic_wipers_enabled: false,
        particulate_filter_indicator: true,
        anti_emission_fault: false,
        tyre_puncture_alert: true,
        under_inflation_alert_flag: false,
        electrical_generator_fault: true,
        battery_charge_fault: false,
        ebd_fault: false,
        obd_fault: false,
        worn_brake_pad_fault: true,
        gearbox_fault: false,
        esp_asr_fault: true,
        abs_fault: false,
        steering_assistance_fault: true,
        passive_safety_fault: false,
        turn_lights_fault: true,
        water_in_diesel: false,
        steering_assistance_fault_type_validity: true,
        steering_assistance_fault_type: SteeringAssistanceFaultType::G3,
        steering_assistance_indicator_validity: false,
        steering_assistance_indicator: SteeringAssistanceIndicatorState::Orange,
        braking_assistance_fault: true,
        gearbox_drive_mode_gear: GearboxDriveModeGear::Gear8,
        lane_centering_indicator: LaneCenteringIndicatorState::Steady,
        automatic_emergency_braking_indicator: IndicatorState::Blinking,
    }
}

fn frame_2_repr() -> Repr {
    Repr {
        under_inflation_failure: false,
        cold_engine_alert: true,
        low_brake_fluid_level_alert: false,
        low_oil_pressure_alert: true,
        low_oil_level_alert: false,
        low_coolant_level_alert: true,
        gearbox_has_more_than_six_speed: false,
        coolant_temperature_alert: true,
        automatic_wipers_enabled: true,
        particulate_filter_indicator: false,
        anti_emission_fault: true,
        tyre_puncture_alert: false,
        under_inflation_alert_flag: true,
        electrical_generator_fault: false,
        battery_charge_fault: true,
        ebd_fault: true,
        obd_fault: true,
        worn_brake_pad_fault: false,
        gearbox_fault: true,
        esp_asr_fault: false,
        abs_fault: true,
        steering_assistance_fault: false,
        passive_safety_fault: true,
        turn_lights_fault: false,
        water_in_diesel: true,
        steering_assistance_fault_type_validity: false,
        steering_assistance_fault_type: SteeringAssistanceFaultType::G3AndG4,
        steering_assistance_indicator_validity: true,
        steering_assistance_indicator: SteeringAssistanceIndicatorState::Red,
        braking_assistance_fault: false,
        gearbox_drive_mode_gear: GearboxDriveModeGear::Gear3,
        lane_centering_indicator: LaneCenteringIndicatorState::BlinkingFault,
        automatic_emergency_braking_indicator: IndicatorState::Off,
    }
}

#[test]
fn x168_test_frame_1_deconstruction() {
    let frame = Frame::new_unchecked(REPR_FRAME_BYTES_1.to_vec());
    assert_eq!(frame.check_len(), Ok(()));
    assert_eq!(frame.read_bit::<{ field::FLAGS_1 }, 0>(), true);
    assert_eq!(frame.read_bit::<{ field::FLAGS_1 }, 1>(), false);
    assert_eq!(frame.read_bit::<{ field::FLAGS_1 }, 2>(), true);
    assert_eq!(frame.read_bit::<{ field::FLAGS_1 }, 3>(), false);
    assert_eq!(frame.read_bit::<{ field::FLAGS_1 }, 4>(), true);
    assert_eq!(frame.read_bit::<{ field::FLAGS_1 }, 5>(), false);
    assert_eq!(frame.read_bit::<{ field::FLAGS_1 }, 6>(), true);
    assert_eq!(frame.read_bit::<{ field::FLAGS_1 }, 7>(), false);
    assert_eq!(frame.read_bit::<{ field::FLAGS_2 }, 3>(), false);
    assert_eq!(frame.read_bit::<{ field::FLAGS_2 }, 4>(), true);
    assert_eq!(frame.read_bit::<{ field::FLAGS_2 }, 5>(), false);
    assert_eq!(frame.read_bit::<{ field::FLAGS_2 }, 6>(), true);
    assert_eq!(frame.read_bit::<{ field::FLAGS_2 }, 7>(), false);
    assert_eq!(frame.read_bit::<{ field::FLAGS_3 }, 0>(), true);
    assert_eq!(frame.read_bit::<{ field::FLAGS_3 }, 1>(), false);
    assert_eq!(frame.read_bit::<{ field::FLAGS_3 }, 3>(), false);
    assert_eq!(frame.read_bit::<{ field::FLAGS_4 }, 1>(), false);
    assert_eq!(frame.read_bit::<{ field::FLAGS_4 }, 2>(), true);
    assert_eq!(frame.read_bit::<{ field::FLAGS_4 }, 3>(), false);
    assert_eq!(frame.read_bit::<{ field::FLAGS_4 }, 4>(), true);
    assert_eq!(frame.read_bit::<{ field::FLAGS_4 }, 5>(), false);
    assert_eq!(frame.read_bit::<{ field::FLAGS_5 }, 2>(), true);
    assert_eq!(frame.read_bit::<{ field::FLAGS_5 }, 5>(), false);
    assert_eq!(frame.read_bit::<{ field::FLAGS_5 }, 6>(), true);
    assert_eq!(frame.read_bit::<{ field::FLAGS_5 }, 7>(), false);
    assert_eq!(frame.read_bit::<{ field::FLAGS_6 }, 2>(), true);
    assert_eq!(
        frame.steering_assistance_fault_type(),
        SteeringAssistanceFaultType::G3
    );
    assert_eq!(frame.read_bit::<{ field::FLAGS_6 }, 5>(), false);
    assert_eq!(
        frame.steering_assistance_indicator(),
        SteeringAssistanceIndicatorState::Orange
    );
    assert_eq!(frame.read_bit::<{ field::FLAGS_7 }, 0>(), true);
    assert_eq!(frame.gearbox_drive_mode_gear(), GearboxDriveModeGear::Gear8);
    assert_eq!(
        frame.lane_centering_indicator(),
        LaneCenteringIndicatorState::Steady
    );
    assert_eq!(
        frame.automatic_emergency_braking_indicator(),
        IndicatorState::Blinking
    );
}

#[test]
fn x168_test_frame_2_deconstruction() {
    let frame = Frame::new_unchecked(REPR_FRAME_BYTES_2.to_vec());
    assert_eq!(frame.check_len(), Ok(()));
    assert_eq!(frame.read_bit::<{ field::FLAGS_1 }, 0>(), false);
    assert_eq!(frame.read_bit::<{ field::FLAGS_1 }, 1>(), true);
    assert_eq!(frame.read_bit::<{ field::FLAGS_1 }, 2>(), false);
    assert_eq!(frame.read_bit::<{ field::FLAGS_1 }, 3>(), true);
    assert_eq!(frame.read_bit::<{ field::FLAGS_1 }, 4>(), false);
    assert_eq!(frame.read_bit::<{ field::FLAGS_1 }, 5>(), true);
    assert_eq!(frame.read_bit::<{ field::FLAGS_1 }, 6>(), false);
    assert_eq!(frame.read_bit::<{ field::FLAGS_1 }, 7>(), true);
    assert_eq!(frame.read_bit::<{ field::FLAGS_2 }, 3>(), true);
    assert_eq!(frame.read_bit::<{ field::FLAGS_2 }, 4>(), false);
    assert_eq!(frame.read_bit::<{ field::FLAGS_2 }, 5>(), true);
    assert_eq!(frame.read_bit::<{ field::FLAGS_2 }, 6>(), false);
    assert_eq!(frame.read_bit::<{ field::FLAGS_2 }, 7>(), true);
    assert_eq!(frame.read_bit::<{ field::FLAGS_3 }, 0>(), false);
    assert_eq!(frame.read_bit::<{ field::FLAGS_3 }, 1>(), true);
    assert_eq!(frame.read_bit::<{ field::FLAGS_3 }, 3>(), true);
    assert_eq!(frame.read_bit::<{ field::FLAGS_4 }, 1>(), true);
    assert_eq!(frame.read_bit::<{ field::FLAGS_4 }, 2>(), false);
    assert_eq!(frame.read_bit::<{ field::FLAGS_4 }, 3>(), true);
    assert_eq!(frame.read_bit::<{ field::FLAGS_4 }, 4>(), false);
    assert_eq!(frame.read_bit::<{ field::FLAGS_4 }, 5>(), true);
    assert_eq!(frame.read_bit::<{ field::FLAGS_5 }, 2>(), false);
    assert_eq!(frame.read_bit::<{ field::FLAGS_5 }, 5>(), true);
    assert_eq!(frame.read_bit::<{ field::FLAGS_5 }, 6>(), false);
    assert_eq!(frame.read_bit::<{ field::FLAGS_5 }, 7>(), true);
    assert_eq!(frame.read_bit::<{ field::FLAGS_6 }, 2>(), false);
    assert_eq!(
        frame.steering_assistance_fault_type(),
        SteeringAssistanceFaultType::G3AndG4
    );
    assert_eq!(frame.read_bit::<{ field::FLAGS_6 }, 5>(), true);
    assert_eq!(
        frame.steering_assistance_indicator(),
        SteeringAssistanceIndicatorState::Red
    );
    assert_eq!(frame.read_bit::<{ field::FLAGS_7 }, 0>(), false);
    assert_eq!(frame.gearbox_drive_mode_gear(), GearboxDriveModeGear::Gear3);
    assert_eq!(
        frame.lane_centering_indicator(),
        LaneCenteringIndicatorState::BlinkingFault
    );
    assert_eq!(
        frame.automatic_emergency_braking_indicator(),
        IndicatorState::Off
    );
}

#[test]
fn x168_test_frame_1_construction() {
    let bytes = [0x00; 8];
    let mut frame = Frame::new_unchecked(bytes.to_vec());

    frame.write_bit::<{ field::FLAGS_1 }, 0>(true);
    frame.write_bit::<{ field::FLAGS_1 }, 1>(false);
    frame.write_bit::<{ field::FLAGS_1 }, 2>(true);
    frame.write_bit::<{ field::FLAGS_1 }, 3>(false);
    frame.write_bit::<{ field::FLAGS_1 }, 4>(true);
    frame.write_bit::<{ field::FLAGS_1 }, 5>(false);
    frame.write_bit::<{ field::FLAGS_1 }, 6>(true);
    frame.write_bit::<{ field::FLAGS_1 }, 7>(false);
    frame.write_bit::<{ field::FLAGS_2 }, 3>(false);
    frame.write_bit::<{ field::FLAGS_2 }, 4>(true);
    frame.write_bit::<{ field::FLAGS_2 }, 5>(false);
    frame.write_bit::<{ field::FLAGS_2 }, 6>(true);
    frame.write_bit::<{ field::FLAGS_2 }, 7>(false);
    frame.write_bit::<{ field::FLAGS_3 }, 0>(true);
    frame.write_bit::<{ field::FLAGS_3 }, 1>(false);
    frame.write_bit::<{ field::FLAGS_3 }, 3>(false);
    frame.write_bit::<{ field::FLAGS_4 }, 1>(false);
    frame.write_bit::<{ field::FLAGS_4 }, 2>(true);
    frame.write_bit::<{ field::FLAGS_4 }, 3>(false);
    frame.write_bit::<{ field::FLAGS_4 }, 4>(true);
    frame.write_bit::<{ field::FLAGS_4 }, 5>(false);
    frame.write_bit::<{ field::FLAGS_5 }, 2>(true);
    frame.write_bit::<{ field::FLAGS_5 }, 5>(false);
    frame.write_bit::<{ field::FLAGS_5 }, 6>(true);
    frame.write_bit::<{ field::FLAGS_5 }, 7>(false);
    frame.write_bit::<{ field::FLAGS_6 }, 2>(true);
    frame.set_steering_assistance_fault_type(SteeringAssistanceFaultType::G3);
    frame.write_bit::<{ field::FLAGS_6 }, 5>(false);
    frame.set_steering_assistance_indicator(SteeringAssistanceIndicatorState::Orange);
    frame.write_bit::<{ field::FLAGS_7 }, 0>(true);
    frame.set_gearbox_drive_mode_gear(GearboxDriveModeGear::Gear8);
    frame.set_lane_centering_indicator(LaneCenteringIndicatorState::Steady);
    frame.set_automatic_emergency_braking_indicator(IndicatorState::Blinking);

    assert_eq!(frame.into_inner(), REPR_FRAME_BYTES_1.to_vec());
}

#[test]
fn x168_test_frame_2_construction() {
    let bytes = [0x00; 8];
    let mut frame = Frame::new_unchecked(bytes.to_vec());

    frame.write_bit::<{ field::FLAGS_1 }, 0>(false);
    frame.write_bit::<{ field::FLAGS_1 }, 1>(true);
    frame.write_bit::<{ field::FLAGS_1 }, 2>(false);
    frame.write_bit::<{ field::FLAGS_1 }, 3>(true);
    frame.write_bit::<{ field::FLAGS_1 }, 4>(false);
    frame.write_bit::<{ field::FLAGS_1 }, 5>(true);
    frame.write_bit::<{ field::FLAGS_1 }, 6>(false);
    frame.write_bit::<{ field::FLAGS_1 }, 7>(true);
    frame.write_bit::<{ field::FLAGS_2 }, 3>(true);
    frame.write_bit::<{ field::FLAGS_2 }, 4>(false);
    frame.write_bit::<{ field::FLAGS_2 }, 5>(true);
    frame.write_bit::<{ field::FLAGS_2 }, 6>(false);
    frame.write_bit::<{ field::FLAGS_2 }, 7>(true);
    frame.write_bit::<{ field::FLAGS_3 }, 0>(false);
    frame.write_bit::<{ field::FLAGS_3 }, 1>(true);
    frame.write_bit::<{ field::FLAGS_3 }, 3>(true);
    frame.write_bit::<{ field::FLAGS_4 }, 1>(true);
    frame.write_bit::<{ field::FLAGS_4 }, 2>(false);
    frame.write_bit::<{ field::FLAGS_4 }, 3>(true);
    frame.write_bit::<{ field::FLAGS_4 }, 4>(false);
    frame.write_bit::<{ field::FLAGS_4 }, 5>(true);
    frame.write_bit::<{ field::FLAGS_5 }, 2>(false);
    frame.write_bit::<{ field::FLAGS_5 }, 5>(true);
    frame.write_bit::<{ field::FLAGS_5 }, 6>(false);
    frame.write_bit::<{ field::FLAGS_5 }, 7>(true);
    frame.write_bit::<{ field::FLAGS_6 }, 2>(false);
    frame.set_steering_assistance_fault_type(SteeringAssistanceFaultType::G3AndG4);
    frame.write_bit::<{ field::FLAGS_6 }, 5>(true);
    frame.set_steering_assistance_indicator(SteeringAssistanceIndicatorState::Red);
    frame.write_bit::<{ field::FLAGS_7 }, 0>(false);
    frame.set_gearbox_drive_mode_gear(GearboxDriveModeGear::Gear3);
    frame.set_lane_centering_indicator(LaneCenteringIndicatorState::BlinkingFault);
    frame.set_automatic_emergency_braking_indicator(IndicatorState::Off);

    assert_eq!(frame.into_inner(), REPR_FRAME_BYTES_2.to_vec());
}

#[test]
fn x168_test_overlong() {
    let bytes: [u8; 9] = [0x55, 0x50, 0x01, 0x14, 0x44, 0x94, 0x11, 0x84, 0xff];
    assert_eq!(
        Frame::new_unchecked(bytes.to_vec()).check_len().unwrap_err(),
        Error::Overlong
    );
}

#[test]
fn x168_test_underlong() {
    let bytes: [u8; 7] = [0x55, 0x50, 0x01, 0x14, 0x44, 0x94, 0x11];
    assert_eq!(Frame::new_checked(bytes.to_vec()).unwrap_err(), Error::Truncated);
}

#[test]
fn x168_test_repr_1_parse_valid() {
    let frame = Frame::new_unchecked(REPR_FRAME_BYTES_1.to_vec());
    let repr = Repr::parse(&frame).unwrap();
    assert_eq!(repr, frame_1_repr());
}

#[test]
fn x168_test_repr_2_parse_valid() {
    let frame = Frame::new_unchecked(REPR_FRAME_BYTES_2.to_vec());
    let repr = Repr::parse(&frame).unwrap();
    assert_eq!(repr, frame_2_repr());
}

#[test]
fn x168_test_basic_repr_1_emit() {
    let buf = [0u8; 8];
    let mut frame = Frame::new_unchecked(buf.to_vec());
    let repr = frame_1_repr();
    repr.emit(&mut frame);
    assert_eq!(frame.into_inner(), REPR_FRAME_BYTES_1.to_vec());
}

#[test]
fn x168_test_basic_repr_2_emit() {
    let buf = [0u8; 8];
    let mut frame = Frame::new_unchecked(buf.to_vec());
    let repr = frame_2_repr();
    repr.emit(&mut frame);
    assert_eq!(frame.into_inner(), REPR_FRAME_BYTES_2.to_vec());
}
