use psa_can::Error;
use psa_can::aee2010::infodiv::x1a9::{Frame, Repr};
use psa_can::vehicle::AutomaticParkingMode;
use psa_can::vehicle::CruiseControlCustomSettingPosition;

const REPR_FRAME_BYTES_1: [u8; 8] = [0x85, 0x00, 0x00, 0x55, 0x00, 0x14, 0x01, 0x50];
const REPR_FRAME_BYTES_2: [u8; 8] = [0x2a, 0x80, 0x21, 0xaa, 0x33, 0x69, 0xd0, 0xab];

fn frame_1_repr() -> Repr {
    Repr {
        trip_computer_secondary_trip_reset_request: true,
        trip_computer_primary_trip_reset_request: false,
        adaptive_cruise_control_button_state: true,
        automatic_parking_mode: AutomaticParkingMode::SCP6,
        telematics_enabled: false,
        black_panel_enabled: true,
        interactive_message: 0,
        stop_check_request: false,
        cruise_control_custom_speed_memorization_request: true,
        available_space_measurement_button_state: false,
        parking_sensors_button_state: true,
        auto_main_beam_button_state: false,
        lane_centering_button_state: true,
        blind_spot_monitoring_button_state: false,
        adaptive_cruise_control_plus_button_state: true,
        adaptive_cruise_control_minus_button_state: false,
        cruise_control_speed_instruction: 0,
        indirect_under_inflation_button_state: false,
        automatic_parking_state_change_request: true,
        collision_alert_failure_display_request: false,
        cruise_control_speed_setting_instruction_position:
            CruiseControlCustomSettingPosition::Position1,
        fault_check_request: true,
        telematic_screen_lighting_level: 0,
        telematic_unit_life_state: 0,
        stop_start_button_state: false,
        visual_parking_assistance_button_state: 0,
        cruise_control_speed_instruction_value_request: false,
        visual_parking_assistance_panoramic_view_button_state: true,
        front_visual_parking_assistance_button_state: false,
        rear_visual_parking_assistance_button_state: true,
        visual_parking_assistance_activation_request: false,
    }
}

fn frame_2_repr() -> Repr {
    Repr {
        trip_computer_secondary_trip_reset_request: false,
        trip_computer_primary_trip_reset_request: true,
        adaptive_cruise_control_button_state: false,
        automatic_parking_mode: AutomaticParkingMode::SCP9,
        telematics_enabled: true,
        black_panel_enabled: false,
        interactive_message: 33,
        stop_check_request: true,
        cruise_control_custom_speed_memorization_request: false,
        available_space_measurement_button_state: true,
        parking_sensors_button_state: false,
        auto_main_beam_button_state: true,
        lane_centering_button_state: false,
        blind_spot_monitoring_button_state: true,
        adaptive_cruise_control_plus_button_state: false,
        adaptive_cruise_control_minus_button_state: true,
        cruise_control_speed_instruction: 51,
        indirect_under_inflation_button_state: true,
        automatic_parking_state_change_request: false,
        collision_alert_failure_display_request: true,
        cruise_control_speed_setting_instruction_position:
            CruiseControlCustomSettingPosition::Position6,
        fault_check_request: false,
        telematic_screen_lighting_level: 8,
        telematic_unit_life_state: 2,
        stop_start_button_state: true,
        visual_parking_assistance_button_state: 3,
        cruise_control_speed_instruction_value_request: true,
        visual_parking_assistance_panoramic_view_button_state: false,
        front_visual_parking_assistance_button_state: true,
        rear_visual_parking_assistance_button_state: false,
        visual_parking_assistance_activation_request: true,
    }
}

#[test]
fn x1a9_test_frame_1_deconstruction() {
    let frame = Frame::new_unchecked(REPR_FRAME_BYTES_1.to_vec());
    assert_eq!(frame.check_len(), Ok(()));
    assert_eq!(frame.trip_computer_secondary_trip_reset_request(), true);
    assert_eq!(frame.trip_computer_primary_trip_reset_request(), false);
    assert_eq!(frame.adaptive_cruise_control_button_state(), true);
    assert_eq!(frame.auto_parking_mode(), AutomaticParkingMode::SCP6);
    assert_eq!(frame.telematics_enabled(), false);
    assert_eq!(frame.black_panel_enabled(), true);
    assert_eq!(frame.interactive_message(), 0);
    assert_eq!(frame.stop_check_request(), false);
    assert_eq!(frame.cruise_control_custom_speed_mem_request(), true);
    assert_eq!(frame.available_space_measurement_button_state(), false);
    assert_eq!(frame.parking_sensors_button_state(), true);
    assert_eq!(frame.auto_main_beam_button_state(), false);
    assert_eq!(frame.lane_centering_button_state(), true);
    assert_eq!(frame.blind_spot_monitoring_button_state(), false);
    assert_eq!(frame.adaptive_cruise_control_plus_button_state(), true);
    assert_eq!(frame.adaptive_cruise_control_minus_button_state(), false);
    assert_eq!(frame.cruise_control_speed_instruction(), 0);
    assert_eq!(frame.indirect_under_inflation_button_state(), false);
    assert_eq!(frame.auto_parking_state_change_request(), true);
    assert_eq!(frame.collision_alert_failure_display_request(), false);
    assert_eq!(
        frame.cruise_control_spd_setting_instruction_pos(),
        CruiseControlCustomSettingPosition::Position1
    );
    assert_eq!(frame.fault_check_request(), true);
    assert_eq!(frame.telematic_screen_lighting_level(), 0);
    assert_eq!(frame.telematic_unit_life_state(), 0);
    assert_eq!(frame.stop_start_button_state(), false);
    assert_eq!(frame.visual_parking_assistance_button_state(), 0);
    assert_eq!(frame.cruise_control_spd_instruction_val_request(), false);
    assert_eq!(
        frame.visual_parking_assistance_panoramic_view_button_state(),
        true
    );
    assert_eq!(frame.front_visual_parking_assistance_button_state(), false);
    assert_eq!(frame.rear_visual_parking_assistance_button_state(), true);
    assert_eq!(frame.visual_parking_assistance_activation_request(), false);
}

#[test]
fn x1a9_test_frame_2_deconstruction() {
    let frame = Frame::new_unchecked(REPR_FRAME_BYTES_2.to_vec());
    assert_eq!(frame.check_len(), Ok(()));
    assert_eq!(frame.trip_computer_secondary_trip_reset_request(), false);
    assert_eq!(frame.trip_computer_primary_trip_reset_request(), true);
    assert_eq!(frame.adaptive_cruise_control_button_state(), false);
    assert_eq!(frame.auto_parking_mode(), AutomaticParkingMode::SCP9);
    assert_eq!(frame.telematics_enabled(), true);
    assert_eq!(frame.black_panel_enabled(), false);
    assert_eq!(frame.interactive_message(), 33);
    assert_eq!(frame.stop_check_request(), true);
    assert_eq!(frame.cruise_control_custom_speed_mem_request(), false);
    assert_eq!(frame.available_space_measurement_button_state(), true);
    assert_eq!(frame.parking_sensors_button_state(), false);
    assert_eq!(frame.auto_main_beam_button_state(), true);
    assert_eq!(frame.lane_centering_button_state(), false);
    assert_eq!(frame.blind_spot_monitoring_button_state(), true);
    assert_eq!(frame.adaptive_cruise_control_plus_button_state(), false);
    assert_eq!(frame.adaptive_cruise_control_minus_button_state(), true);
    assert_eq!(frame.cruise_control_speed_instruction(), 51);
    assert_eq!(frame.indirect_under_inflation_button_state(), true);
    assert_eq!(frame.auto_parking_state_change_request(), false);
    assert_eq!(frame.collision_alert_failure_display_request(), true);
    assert_eq!(
        frame.cruise_control_spd_setting_instruction_pos(),
        CruiseControlCustomSettingPosition::Position6
    );
    assert_eq!(frame.fault_check_request(), false);
    assert_eq!(frame.telematic_screen_lighting_level(), 8);
    assert_eq!(frame.telematic_unit_life_state(), 2);
    assert_eq!(frame.stop_start_button_state(), true);
    assert_eq!(frame.visual_parking_assistance_button_state(), 3);
    assert_eq!(frame.cruise_control_spd_instruction_val_request(), true);
    assert_eq!(
        frame.visual_parking_assistance_panoramic_view_button_state(),
        false
    );
    assert_eq!(frame.front_visual_parking_assistance_button_state(), true);
    assert_eq!(frame.rear_visual_parking_assistance_button_state(), false);
    assert_eq!(frame.visual_parking_assistance_activation_request(), true);
}

#[test]
fn x1a9_test_frame_1_construction() {
    let bytes = [0x00; 8];
    let mut frame = Frame::new_unchecked(bytes.to_vec());

    frame.set_trip_computer_secondary_trip_reset_request(true);
    frame.set_trip_computer_primary_trip_reset_request(false);
    frame.set_adaptive_cruise_control_button_state(true);
    frame.set_auto_parking_mode(AutomaticParkingMode::SCP6);
    frame.set_telematics_enabled(false);
    frame.set_black_panel_enabled(true);
    frame.set_interactive_message(0);
    frame.set_stop_check_request(false);
    frame.set_cruise_control_custom_speed_mem_request(true);
    frame.set_available_space_measurement_button_state(false);
    frame.set_parking_sensors_button_state(true);
    frame.set_auto_main_beam_button_state(false);
    frame.set_lane_centering_button_state(true);
    frame.set_blind_spot_monitoring_button_state(false);
    frame.set_adaptive_cruise_control_plus_button_state(true);
    frame.set_adaptive_cruise_control_minus_button_state(false);
    frame.set_cruise_control_speed_instruction(0);
    frame.set_indirect_under_inflation_button_state(false);
    frame.set_auto_parking_state_change_request(true);
    frame.set_collision_alert_failure_display_request(false);
    frame.set_cruise_control_spd_setting_instruction_pos(
        CruiseControlCustomSettingPosition::Position1,
    );
    frame.set_fault_check_request(true);
    frame.set_telematic_screen_lighting_level(0);
    frame.set_telematic_unit_life_state(0);
    frame.set_stop_start_button_state(false);
    frame.set_visual_parking_assistance_button_state(0);
    frame.set_cruise_control_spd_instruction_val_request(false);
    frame.set_visual_parking_assistance_panoramic_view_button_state(true);
    frame.set_front_visual_parking_assistance_button_state(false);
    frame.set_rear_visual_parking_assistance_button_state(true);
    frame.set_visual_parking_assistance_activation_request(false);

    assert_eq!(frame.into_inner(), REPR_FRAME_BYTES_1.to_vec());
}

#[test]
fn x1a9_test_frame_2_construction() {
    let bytes = [0x00; 8];
    let mut frame = Frame::new_unchecked(bytes.to_vec());

    frame.set_trip_computer_secondary_trip_reset_request(false);
    frame.set_trip_computer_primary_trip_reset_request(true);
    frame.set_adaptive_cruise_control_button_state(false);
    frame.set_auto_parking_mode(AutomaticParkingMode::SCP9);
    frame.set_telematics_enabled(true);
    frame.set_black_panel_enabled(false);
    frame.set_interactive_message(33);
    frame.set_stop_check_request(true);
    frame.set_cruise_control_custom_speed_mem_request(false);
    frame.set_available_space_measurement_button_state(true);
    frame.set_parking_sensors_button_state(false);
    frame.set_auto_main_beam_button_state(true);
    frame.set_lane_centering_button_state(false);
    frame.set_blind_spot_monitoring_button_state(true);
    frame.set_adaptive_cruise_control_plus_button_state(false);
    frame.set_adaptive_cruise_control_minus_button_state(true);
    frame.set_cruise_control_speed_instruction(51);
    frame.set_indirect_under_inflation_button_state(true);
    frame.set_auto_parking_state_change_request(false);
    frame.set_collision_alert_failure_display_request(true);
    frame.set_cruise_control_spd_setting_instruction_pos(
        CruiseControlCustomSettingPosition::Position6,
    );
    frame.set_fault_check_request(false);
    frame.set_telematic_screen_lighting_level(8);
    frame.set_telematic_unit_life_state(2);
    frame.set_stop_start_button_state(true);
    frame.set_visual_parking_assistance_button_state(3);
    frame.set_cruise_control_spd_instruction_val_request(true);
    frame.set_visual_parking_assistance_panoramic_view_button_state(false);
    frame.set_front_visual_parking_assistance_button_state(true);
    frame.set_rear_visual_parking_assistance_button_state(false);
    frame.set_visual_parking_assistance_activation_request(true);

    assert_eq!(frame.into_inner(), REPR_FRAME_BYTES_2.to_vec());
}

#[test]
fn x1a9_test_overlong() {
    let bytes: [u8; 9] = [0x85, 0x00, 0x00, 0x55, 0x00, 0x14, 0x01, 0x50, 0xff];
    assert_eq!(
        Frame::new_unchecked(bytes.to_vec()).check_len().unwrap_err(),
        Error::Overlong
    );
}

#[test]
fn x1a9_test_underlong() {
    let bytes: [u8; 7] = [0x85, 0x00, 0x00, 0x55, 0x00, 0x14, 0x01];
    assert_eq!(Frame::new_checked(bytes.to_vec()).unwrap_err(), Error::Truncated);
}

#[test]
fn x1a9_test_repr_1_parse_valid() {
    let frame = Frame::new_unchecked(REPR_FRAME_BYTES_1.to_vec());
    let repr = Repr::parse(&frame).unwrap();
    assert_eq!(repr, frame_1_repr());
}

#[test]
fn x1a9_test_repr_2_parse_valid() {
    let frame = Frame::new_unchecked(REPR_FRAME_BYTES_2.to_vec());
    let repr = Repr::parse(&frame).unwrap();
    assert_eq!(repr, frame_2_repr());
}

#[test]
fn x1a9_test_basic_repr_1_emit() {
    let buf = [0u8; 8];
    let mut frame = Frame::new_unchecked(buf.to_vec());
    let repr = frame_1_repr();
    repr.emit(&mut frame);
    assert_eq!(frame.into_inner(), REPR_FRAME_BYTES_1.to_vec());
}

#[test]
fn x1a9_test_basic_repr_2_emit() {
    let buf = [0u8; 8];
    let mut frame = Frame::new_unchecked(buf.to_vec());
    let repr = frame_2_repr();
    repr.emit(&mut frame);
    assert_eq!(frame.into_inner(), REPR_FRAME_BYTES_2.to_vec());
}
