use psa_can::Error;
use psa_can::aee2010::infodiv::x361::{Frame, Repr};
use psa_can::config::UnderInflationDetectionSystem;

const REPR_FRAME_BYTES_1: [u8; 6] = [0x55, 0x55, 0x54, 0x53, 0x15, 0x41];
const REPR_FRAME_BYTES_2: [u8; 6] = [0xaa, 0xaa, 0xaa, 0xaa, 0x28, 0xa0];

fn frame_1_repr() -> Repr {
    Repr {
        daytime_running_lamps_present: true,
        automatic_headlamps_present: false,
        mood_lighting_present: true,
        blind_spot_monitoring_present: false,
        adaptive_lamps_present: true,
        welcome_lighting_present: false,
        motorway_lighting_present: true,
        config_menu_info_available: false,
        selective_unlocking_present: true,
        key_selective_unlocking_present: false,
        boot_selective_unlocking_present: true,
        motorized_tailgate_present: false,
        welcome_function_present: true,
        follow_me_home_present: false,
        rear_wiper_in_reverse_gear_present: true,
        parking_sensors_inhibition_present: false,
        extended_traffic_sign_recognition_present: false,
        mirror_tilt_in_reverse_present: true,
        sound_harmony_present: false,
        automatic_electric_parking_brake_application_present: true,
        configurable_key_present: false,
        cruise_control_custom_limits_present: true,
        seat_belt_status_lamps_present: false,
        under_inflation_detection: UnderInflationDetectionSystem::Indirect,
        gear_efficiency_indicator_present: false,
        cruise_control_custom_limits_menu_present: true,
        collision_alert_sensibility_menu_present: false,
        automatic_emergency_braking_present: true,
        under_inflation_detection_reset_menu_present: false,
        hands_free_tailgate_auto_lock_menu_present: true,
        hands_free_tailgate_present: true,
        speed_limit_recognition_present: false,
        radiator_grill_lamps_present: true,
        cfc_present: false,
        automatic_mirrors_folding_inhibit_present: true,
        automatic_main_beam_present: false,
        electric_child_security_present: true,
        driver_alert_assist_present: false,
    }
}

fn frame_2_repr() -> Repr {
    Repr {
        daytime_running_lamps_present: false,
        automatic_headlamps_present: true,
        mood_lighting_present: false,
        blind_spot_monitoring_present: true,
        adaptive_lamps_present: false,
        welcome_lighting_present: true,
        motorway_lighting_present: false,
        config_menu_info_available: true,
        selective_unlocking_present: false,
        key_selective_unlocking_present: true,
        boot_selective_unlocking_present: false,
        motorized_tailgate_present: true,
        welcome_function_present: false,
        follow_me_home_present: true,
        rear_wiper_in_reverse_gear_present: false,
        parking_sensors_inhibition_present: true,
        extended_traffic_sign_recognition_present: true,
        mirror_tilt_in_reverse_present: false,
        sound_harmony_present: true,
        automatic_electric_parking_brake_application_present: false,
        configurable_key_present: true,
        cruise_control_custom_limits_present: false,
        seat_belt_status_lamps_present: true,
        under_inflation_detection: UnderInflationDetectionSystem::DirectWithoutAbsolutePressure,
        gear_efficiency_indicator_present: true,
        cruise_control_custom_limits_menu_present: false,
        collision_alert_sensibility_menu_present: true,
        automatic_emergency_braking_present: false,
        under_inflation_detection_reset_menu_present: true,
        hands_free_tailgate_auto_lock_menu_present: false,
        hands_free_tailgate_present: false,
        speed_limit_recognition_present: true,
        radiator_grill_lamps_present: false,
        cfc_present: true,
        automatic_mirrors_folding_inhibit_present: false,
        automatic_main_beam_present: true,
        electric_child_security_present: false,
        driver_alert_assist_present: true,
    }
}

#[test]
fn x361_test_frame_1_deconstruction() {
    let frame = Frame::new_unchecked(REPR_FRAME_BYTES_1.to_vec());
    assert_eq!(frame.check_len(), Ok(()));
    assert_eq!(frame.daytime_running_lamps_presence(), true);
    assert_eq!(frame.automatic_headlamps_presence(), false);
    assert_eq!(frame.mood_lighting_presence(), true);
    assert_eq!(frame.blind_spot_monitoring_presence(), false);
    assert_eq!(frame.adaptive_lamps_presence(), true);
    assert_eq!(frame.welcome_lighting_presence(), false);
    assert_eq!(frame.motorway_lighting_presence(), true);
    assert_eq!(frame.config_menu_information_availability(), false);
    assert_eq!(frame.selective_unlocking_presence(), true);
    assert_eq!(frame.key_selective_unlocking_presence(), false);
    assert_eq!(frame.boot_selective_unlocking_presence(), true);
    assert_eq!(frame.motorized_tailgate_presence(), false);
    assert_eq!(frame.welcome_function_presence(), true);
    assert_eq!(frame.follow_me_home_presence(), false);
    assert_eq!(frame.rear_wiper_in_reverse_gear_presence(), true);
    assert_eq!(frame.park_sensors_inhibition_presence(), false);
    assert_eq!(frame.extended_traffic_sign_recognition_presence(), false);
    assert_eq!(frame.mirror_tilt_in_reverse_presence(), true);
    assert_eq!(frame.sound_harmony_presence(), false);
    assert_eq!(frame.auto_elec_parking_brake_application_presence(), true);
    assert_eq!(frame.configurable_key_presence(), false);
    assert_eq!(frame.cruise_control_custom_limits_presence(), true);
    assert_eq!(frame.seat_belt_status_lamps_presence(), false);
    assert_eq!(
        frame.under_inflation_detection(),
        UnderInflationDetectionSystem::Indirect
    );
    assert_eq!(frame.gear_efficiency_indicator_presence(), false);
    assert_eq!(frame.cruise_control_custom_limits_menu_presence(), true);
    assert_eq!(frame.collision_alert_sensibility_menu_presence(), false);
    assert_eq!(frame.automatic_emergency_braking_presence(), true);
    assert_eq!(frame.under_inflation_detection_reset_menu_presence(), false);
    assert_eq!(frame.hands_free_tailgate_auto_lock_menu_presence(), true);
    assert_eq!(frame.hands_free_tailgate_presence(), true);
    assert_eq!(frame.speed_limit_recognition_presence(), false);
    assert_eq!(frame.radiator_grill_lamps_presence(), true);
    assert_eq!(frame.cfc_presence(), false);
    assert_eq!(frame.auto_mirrors_folding_inhibit_presence(), true);
    assert_eq!(frame.automatic_main_beam_presence(), false);
    assert_eq!(frame.electric_child_security_presence(), true);
    assert_eq!(frame.driver_alert_assist_presence(), false);
}

#[test]
fn x361_test_frame_2_deconstruction() {
    let frame = Frame::new_unchecked(REPR_FRAME_BYTES_2.to_vec());
    assert_eq!(frame.check_len(), Ok(()));
    assert_eq!(frame.daytime_running_lamps_presence(), false);
    assert_eq!(frame.automatic_headlamps_presence(), true);
    assert_eq!(frame.mood_lighting_presence(), false);
    assert_eq!(frame.blind_spot_monitoring_presence(), true);
    assert_eq!(frame.adaptive_lamps_presence(), false);
    assert_eq!(frame.welcome_lighting_presence(), true);
    assert_eq!(frame.motorway_lighting_presence(), false);
    assert_eq!(frame.config_menu_information_availability(), true);
    assert_eq!(frame.selective_unlocking_presence(), false);
    assert_eq!(frame.key_selective_unlocking_presence(), true);
    assert_eq!(frame.boot_selective_unlocking_presence(), false);
    assert_eq!(frame.motorized_tailgate_presence(), true);
    assert_eq!(frame.welcome_function_presence(), false);
    assert_eq!(frame.follow_me_home_presence(), true);
    assert_eq!(frame.rear_wiper_in_reverse_gear_presence(), false);
    assert_eq!(frame.park_sensors_inhibition_presence(), true);
    assert_eq!(frame.extended_traffic_sign_recognition_presence(), true);
    assert_eq!(frame.mirror_tilt_in_reverse_presence(), false);
    assert_eq!(frame.sound_harmony_presence(), true);
    assert_eq!(frame.auto_elec_parking_brake_application_presence(), false);
    assert_eq!(frame.configurable_key_presence(), true);
    assert_eq!(frame.cruise_control_custom_limits_presence(), false);
    assert_eq!(frame.seat_belt_status_lamps_presence(), true);
    assert_eq!(
        frame.under_inflation_detection(),
        UnderInflationDetectionSystem::DirectWithoutAbsolutePressure
    );
    assert_eq!(frame.gear_efficiency_indicator_presence(), true);
    assert_eq!(frame.cruise_control_custom_limits_menu_presence(), false);
    assert_eq!(frame.collision_alert_sensibility_menu_presence(), true);
    assert_eq!(frame.automatic_emergency_braking_presence(), false);
    assert_eq!(frame.under_inflation_detection_reset_menu_presence(), true);
    assert_eq!(frame.hands_free_tailgate_auto_lock_menu_presence(), false);
    assert_eq!(frame.hands_free_tailgate_presence(), false);
    assert_eq!(frame.speed_limit_recognition_presence(), true);
    assert_eq!(frame.radiator_grill_lamps_presence(), false);
    assert_eq!(frame.cfc_presence(), true);
    assert_eq!(frame.auto_mirrors_folding_inhibit_presence(), false);
    assert_eq!(frame.automatic_main_beam_presence(), true);
    assert_eq!(frame.electric_child_security_presence(), false);
    assert_eq!(frame.driver_alert_assist_presence(), true);
}

#[test]
fn x361_test_frame_1_construction() {
    let bytes = [0x00; 6];
    let mut frame = Frame::new_unchecked(bytes.to_vec());

    frame.set_daytime_running_lamps_presence(true);
    frame.set_automatic_headlamps_presence(false);
    frame.set_mood_lighting_presence(true);
    frame.set_blind_spot_monitoring_presence(false);
    frame.set_adaptive_lamps_presence(true);
    frame.set_welcome_lighting_presence(false);
    frame.set_motorway_lighting_presence(true);
    frame.set_config_menu_information_availability(false);
    frame.set_selective_unlocking_presence(true);
    frame.set_key_selective_unlocking_presence(false);
    frame.set_boot_selective_unlocking_presence(true);
    frame.set_motorized_tailgate_presence(false);
    frame.set_welcome_function_presence(true);
    frame.set_follow_me_home_presence(false);
    frame.set_rear_wiper_in_reverse_gear_presence(true);
    frame.set_park_sensors_inhibition_presence(false);
    frame.set_extended_traffic_sign_recognition_presence(false);
    frame.set_mirror_tilt_in_reverse_presence(true);
    frame.set_sound_harmony_presence(false);
    frame.set_auto_elec_parking_brake_application_presence(true);
    frame.set_configurable_key_presence(false);
    frame.set_cruise_control_custom_limits_presence(true);
    frame.set_seat_belt_status_lamps_presence(false);
    frame.set_under_inflation_detection(UnderInflationDetectionSystem::Indirect);
    frame.set_gear_efficiency_indicator_presence(false);
    frame.set_cruise_control_custom_limits_menu_presence(true);
    frame.set_collision_alert_sensibility_menu_presence(false);
    frame.set_automatic_emergency_braking_presence(true);
    frame.set_under_inflation_detection_reset_menu_presence(false);
    frame.set_hands_free_tailgate_auto_lock_menu_presence(true);
    frame.set_hands_free_tailgate_presence(true);
    frame.set_speed_limit_recognition_presence(false);
    frame.set_radiator_grill_lamps_presence(true);
    frame.set_cfc_presence(false);
    frame.set_auto_mirrors_folding_inhibit_presence(true);
    frame.set_automatic_main_beam_presence(false);
    frame.set_electric_child_security_presence(true);
    frame.set_driver_alert_assist_presence(false);

    assert_eq!(frame.into_inner(), REPR_FRAME_BYTES_1.to_vec());
}

#[test]
fn x361_test_frame_2_construction() {
    let bytes = [0x00; 6];
    let mut frame = Frame::new_unchecked(bytes.to_vec());

    frame.set_daytime_running_lamps_presence(false);
    frame.set_automatic_headlamps_presence(true);
    frame.set_mood_lighting_presence(false);
    frame.set_blind_spot_monitoring_presence(true);
    frame.set_adaptive_lamps_presence(false);
    frame.set_welcome_lighting_presence(true);
    frame.set_motorway_lighting_presence(false);
    frame.set_config_menu_information_availability(true);
    frame.set_selective_unlocking_presence(false);
    frame.set_key_selective_unlocking_presence(true);
    frame.set_boot_selective_unlocking_presence(false);
    frame.set_motorized_tailgate_presence(true);
    frame.set_welcome_function_presence(false);
    frame.set_follow_me_home_presence(true);
    frame.set_rear_wiper_in_reverse_gear_presence(false);
    frame.set_park_sensors_inhibition_presence(true);
    frame.set_extended_traffic_sign_recognition_presence(true);
    frame.set_mirror_tilt_in_reverse_presence(false);
    frame.set_sound_harmony_presence(true);
    frame.set_auto_elec_parking_brake_application_presence(false);
    frame.set_configurable_key_presence(true);
    frame.set_cruise_control_custom_limits_presence(false);
    frame.set_seat_belt_status_lamps_presence(true);
    frame.set_under_inflation_detection(
        UnderInflationDetectionSystem::DirectWithoutAbsolutePressure,
    );
    frame.set_gear_efficiency_indicator_presence(true);
    frame.set_cruise_control_custom_limits_menu_presence(false);
    frame.set_collision_alert_sensibility_menu_presence(true);
    frame.set_automatic_emergency_braking_presence(false);
    frame.set_under_inflation_detection_reset_menu_presence(true);
    frame.set_hands_free_tailgate_auto_lock_menu_presence(false);
    frame.set_hands_free_tailgate_presence(false);
    frame.set_speed_limit_recognition_presence(true);
    frame.set_radiator_grill_lamps_presence(false);
    frame.set_cfc_presence(true);
    frame.set_auto_mirrors_folding_inhibit_presence(false);
    frame.set_automatic_main_beam_presence(true);
    frame.set_electric_child_security_presence(false);
    frame.set_driver_alert_assist_presence(true);

    assert_eq!(frame.into_inner(), REPR_FRAME_BYTES_2.to_vec());
}

#[test]
fn x361_test_overlong() {
    let bytes: [u8; 7] = [0x01, 0x00, 0x12, 0xe0, 0x30, 0x34, 0xff];
    assert_eq!(
        Frame::new_unchecked(bytes.to_vec()).check_len().unwrap_err(),
        Error::Overlong
    );
}

#[test]
fn x361_test_underlong() {
    let bytes: [u8; 5] = [0x3f, 0x3f, 0x3f, 0x3f, 0x3f];
    assert_eq!(Frame::new_checked(bytes.to_vec()).unwrap_err(), Error::Truncated);
}

#[test]
fn x361_test_repr_1_parse_valid() {
    let frame = Frame::new_unchecked(REPR_FRAME_BYTES_1.to_vec());
    let repr = Repr::parse(&frame).unwrap();
    assert_eq!(repr, frame_1_repr());
}

#[test]
fn x361_test_repr_2_parse_valid() {
    let frame = Frame::new_unchecked(REPR_FRAME_BYTES_2.to_vec());
    let repr = Repr::parse(&frame).unwrap();
    assert_eq!(repr, frame_2_repr());
}

#[test]
fn x361_test_basic_repr_1_emit() {
    let buf = [0u8; 6];
    let mut frame = Frame::new_unchecked(buf.to_vec());
    let repr = frame_1_repr();
    repr.emit(&mut frame);
    assert_eq!(frame.into_inner(), REPR_FRAME_BYTES_1.to_vec());
}

#[test]
fn x361_test_basic_repr_2_emit() {
    let buf = [0u8; 6];
    let mut frame = Frame::new_unchecked(buf.to_vec());
    let repr = frame_2_repr();
    repr.emit(&mut frame);
    assert_eq!(frame.into_inner(), REPR_FRAME_BYTES_2.to_vec());
}
