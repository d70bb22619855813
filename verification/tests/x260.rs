use psa_can::Error;
use psa_can::aee2010::infodiv::x260::{Frame, Repr};
use psa_can::config::CollisionAlertSensibilityLevel;
use psa_can::config::ConfigurableKeyAction2010;
use psa_can::config::ConsumptionUnit;
use psa_can::config::DistanceUnit;
use psa_can::config::Language;
use psa_can::config::LightingDuration2010;
use psa_can::config::MoodLightingLevel;
use psa_can::config::SoundHarmony;
use psa_can::config::TemperatureUnit;
use psa_can::config::VolumeUnit;

const REPR_FRAME_BYTES_1: [u8; 8] = [0x01, 0x00, 0xab, 0xaa, 0xa3, 0xa8, 0xaa, 0x00];
const REPR_FRAME_BYTES_2: [u8; 8] = [0x86, 0xef, 0x54, 0x55, 0x50, 0x74, 0x55, 0x08];

fn frame_1_repr() -> Repr {
    Repr {
        consumption_unit: ConsumptionUnit::DistancePerVolume,
        distance_unit: DistanceUnit::Kilometer,
        language: Language::French,
        units_language_parameters_validity: false,
        sound_harmony: SoundHarmony::Harmony1,
        parameters_validity: false,
        mood_lighting_level: MoodLightingLevel::Level1,
        temperature_unit: TemperatureUnit::Celsius,
        volume_unit: VolumeUnit::Liter,
        mood_lighting_enabled: true,
        daytime_running_lamps_enabled: true,
        adaptive_lamps_enabled: false,
        welcome_function_enabled: true,
        boot_selective_unlocking_enabled: false,
        selective_unlocking_enabled: true,
        key_selective_unlocking_enabled: false,
        automatic_elec_parking_brake_application_enabled: true,
        automatic_headlamps_enabled: false,
        welcome_lighting_duration: LightingDuration2010::ThirtySeconds,
        welcome_lighting_enabled: true,
        motorway_lighting_enabled: false,
        follow_me_home_lighting_duration: LightingDuration2010::ThirtySeconds,
        follow_me_home_enabled: true,
        configurable_key_mode: ConfigurableKeyAction2010::ClusterCustomization,
        motorized_tailgate_enabled: false,
        rear_wiper_in_reverse_gear_enabled: true,
        blind_spot_monitoring_enabled: false,
        park_sensors_enabled: true,
        mirrors_tilting_in_reverse_gear_enabled: false,
        indirect_under_inflation_reset_status: true,
        automatic_emergency_braking_enabled: false,
        collision_alert_sensibility_level: CollisionAlertSensibilityLevel::Close,
        collision_alert_enabled: true,
        hands_free_tailgate_enabled: false,
        speed_limit_recognition_enabled: true,
        radiator_grill_lamps_enabled: false,
        automatic_main_beam_enabled: true,
        driver_alert_assist_enabled: false,
        hands_free_tailgate_auto_lock_enabled: true,
        extended_traffic_sign_recognition_enabled: false,
        electric_child_security_enabled: true,
        auto_mirrors_folding_inhibit: false,
    }
}

fn frame_2_repr() -> Repr {
    Repr {
        consumption_unit: ConsumptionUnit::VolumePerDistance,
        distance_unit: DistanceUnit::Mile,
        language: Language::English,
        units_language_parameters_validity: true,
        sound_harmony: SoundHarmony::Harmony4,
        parameters_validity: true,
        mood_lighting_level: MoodLightingLevel::Level5,
        temperature_unit: TemperatureUnit::Fahrenheit,
        volume_unit: VolumeUnit::Gallon,
        mood_lighting_enabled: false,
        daytime_running_lamps_enabled: false,
        adaptive_lamps_enabled: true,
        welcome_function_enabled: false,
        boot_selective_unlocking_enabled: true,
        selective_unlocking_enabled: false,
        key_selective_unlocking_enabled: true,
        automatic_elec_parking_brake_application_enabled: false,
        automatic_headlamps_enabled: true,
        welcome_lighting_duration: LightingDuration2010::SixtySeconds,
        welcome_lighting_enabled: false,
        motorway_lighting_enabled: true,
        follow_me_home_lighting_duration: LightingDuration2010::SixtySeconds,
        follow_me_home_enabled: false,
        configurable_key_mode: ConfigurableKeyAction2010::CeilingLight,
        motorized_tailgate_enabled: true,
        rear_wiper_in_reverse_gear_enabled: false,
        blind_spot_monitoring_enabled: true,
        park_sensors_enabled: false,
        mirrors_tilting_in_reverse_gear_enabled: true,
        indirect_under_inflation_reset_status: false,
        automatic_emergency_braking_enabled: true,
        collision_alert_sensibility_level: CollisionAlertSensibilityLevel::Distant,
        collision_alert_enabled: false,
        hands_free_tailgate_enabled: true,
        speed_limit_recognition_enabled: false,
        radiator_grill_lamps_enabled: true,
        automatic_main_beam_enabled: false,
        driver_alert_assist_enabled: true,
        hands_free_tailgate_auto_lock_enabled: false,
        extended_traffic_sign_recognition_enabled: true,
        electric_child_security_enabled: false,
        auto_mirrors_folding_inhibit: true,
    }
}

#[test]
fn x260_test_frame_1_deconstruction() {
    let frame = Frame::new_unchecked(REPR_FRAME_BYTES_1.to_vec());
    assert_eq!(frame.check_len(), Ok(()));
    assert_eq!(frame.consumption_unit(), ConsumptionUnit::DistancePerVolume);
    assert_eq!(frame.distance_unit(), DistanceUnit::Kilometer);
    assert_eq!(frame.language(), Language::French);
    assert_eq!(frame.units_language_parameters_validity(), false);
    assert_eq!(frame.sound_harmony(), SoundHarmony::Harmony1);
    assert_eq!(frame.parameters_validity(), false);
    assert_eq!(frame.mood_lighting_level(), MoodLightingLevel::Level1);
    assert_eq!(frame.temperature_unit(), TemperatureUnit::Celsius);
    assert_eq!(frame.volume_unit(), VolumeUnit::Liter);
    assert_eq!(frame.mood_lighting_enable(), true);
    assert_eq!(frame.daytime_running_lamps_enable(), true);
    assert_eq!(frame.adaptive_lamps_enable(), false);
    assert_eq!(frame.welcome_function_enable(), true);
    assert_eq!(frame.boot_selective_unlocking_enable(), false);
    assert_eq!(frame.selective_unlocking_enable(), true);
    assert_eq!(frame.key_selective_unlocking_enable(), false);
    assert_eq!(frame.auto_elec_parking_brake_application_enable(), true);
    assert_eq!(frame.automatic_headlamps_enable(), false);
    assert_eq!(
        frame.welcome_lighting_duration(),
        LightingDuration2010::ThirtySeconds
    );
    assert_eq!(frame.welcome_lighting_enable(), true);
    assert_eq!(frame.motorway_lighting_enable(), false);
    assert_eq!(
        frame.follow_me_home_lighting_duration(),
        LightingDuration2010::ThirtySeconds
    );
    assert_eq!(frame.follow_me_home_enable(), true);
    assert_eq!(
        frame.configurable_key_mode(),
        ConfigurableKeyAction2010::ClusterCustomization
    );
    assert_eq!(frame.motorized_tailgate_enable(), false);
    assert_eq!(frame.rear_wiper_in_reverse_gear_enable(), true);
    assert_eq!(frame.blind_spot_monitoring_enable(), false);
    assert_eq!(frame.park_sensors_enable(), true);
    assert_eq!(frame.mirrors_tilting_in_reverse_gear_enable(), false);
    assert_eq!(frame.indirect_under_inflation_reset_status(), true);
    assert_eq!(frame.automatic_emergency_braking_enable(), false);
    assert_eq!(
        frame.collision_alert_sensibility_level(),
        CollisionAlertSensibilityLevel::Close
    );
    assert_eq!(frame.collision_alert_enable(), true);
    assert_eq!(frame.hands_free_tailgate_enable(), false);
    assert_eq!(frame.speed_limit_recognition_enable(), true);
    assert_eq!(frame.radiator_grill_lamps_enable(), false);
    assert_eq!(frame.automatic_main_beam_enable(), true);
    assert_eq!(frame.driver_alert_assist_enable(), false);
    assert_eq!(frame.hands_free_tailgate_auto_lock_enable(), true);
    assert_eq!(frame.extended_traffic_sign_recognition_enable(), false);
    assert_eq!(frame.electric_child_security_enable(), true);
    assert_eq!(frame.auto_mirrors_folding_inhibit(), false);
}

#[test]
fn x260_test_frame_2_deconstruction() {
    let frame = Frame::new_unchecked(REPR_FRAME_BYTES_2.to_vec());
    assert_eq!(frame.check_len(), Ok(()));
    assert_eq!(frame.consumption_unit(), ConsumptionUnit::VolumePerDistance);
    assert_eq!(frame.distance_unit(), DistanceUnit::Mile);
    assert_eq!(frame.language(), Language::English);
    assert_eq!(frame.units_language_parameters_validity(), true);
    assert_eq!(frame.sound_harmony(), SoundHarmony::Harmony4);
    assert_eq!(frame.parameters_validity(), true);
    assert_eq!(frame.mood_lighting_level(), MoodLightingLevel::Level5);
    assert_eq!(frame.temperature_unit(), TemperatureUnit::Fahrenheit);
    assert_eq!(frame.volume_unit(), VolumeUnit::Gallon);
    assert_eq!(frame.mood_lighting_enable(), false);
    assert_eq!(frame.daytime_running_lamps_enable(), false);
    assert_eq!(frame.adaptive_lamps_enable(), true);
    assert_eq!(frame.welcome_function_enable(), false);
    assert_eq!(frame.boot_selective_unlocking_enable(), true);
    assert_eq!(frame.selective_unlocking_enable(), false);
    assert_eq!(frame.key_selective_unlocking_enable(), true);
    assert_eq!(frame.auto_elec_parking_brake_application_enable(), false);
    assert_eq!(frame.automatic_headlamps_enable(), true);
    assert_eq!(
        frame.welcome_lighting_duration(),
        LightingDuration2010::SixtySeconds
    );
    assert_eq!(frame.welcome_lighting_enable(), false);
    assert_eq!(frame.motorway_lighting_enable(), true);
    assert_eq!(
        frame.follow_me_home_lighting_duration(),
        LightingDuration2010::SixtySeconds
    );
    assert_eq!(frame.follow_me_home_enable(), false);
    assert_eq!(
        frame.configurable_key_mode(),
        ConfigurableKeyAction2010::CeilingLight
    );
    assert_eq!(frame.motorized_tailgate_enable(), true);
    assert_eq!(frame.rear_wiper_in_reverse_gear_enable(), false);
    assert_eq!(frame.blind_spot_monitoring_enable(), true);
    assert_eq!(frame.park_sensors_enable(), false);
    assert_eq!(frame.mirrors_tilting_in_reverse_gear_enable(), true);
    assert_eq!(frame.indirect_under_inflation_reset_status(), false);
    assert_eq!(frame.automatic_emergency_braking_enable(), true);
    assert_eq!(
        frame.collision_alert_sensibility_level(),
        CollisionAlertSensibilityLevel::Distant
    );
    assert_eq!(frame.collision_alert_enable(), false);
    assert_eq!(frame.hands_free_tailgate_enable(), true);
    assert_eq!(frame.speed_limit_recognition_enable(), false);
    assert_eq!(frame.radiator_grill_lamps_enable(), true);
    assert_eq!(frame.automatic_main_beam_enable(), false);
    assert_eq!(frame.driver_alert_assist_enable(), true);
    assert_eq!(frame.hands_free_tailgate_auto_lock_enable(), false);
    assert_eq!(frame.extended_traffic_sign_recognition_enable(), true);
    assert_eq!(frame.electric_child_security_enable(), false);
    assert_eq!(frame.auto_mirrors_folding_inhibit(), true);
}

#[test]
fn x260_test_frame_1_construction() {
    let bytes = [0x00; 8];
    let mut frame = Frame::new_unchecked(bytes.to_vec());

    frame.set_consumption_unit(ConsumptionUnit::DistancePerVolume);
    frame.set_distance_unit(DistanceUnit::Kilometer);
    frame.set_language(Language::French);
    frame.set_units_language_parameters_validity(false);
    frame.set_sound_harmony(SoundHarmony::Harmony1);
    frame.set_parameters_validity(false);
    frame.set_mood_lighting_level(MoodLightingLevel::Level1);
    frame.set_temperature_unit(TemperatureUnit::Celsius);
    frame.set_volume_unit(VolumeUnit::Liter);
    frame.set_mood_lighting_enable(true);
    frame.set_daytime_running_lamps_enable(true);
    frame.set_adaptive_lamps_enable(false);
    frame.set_welcome_function_enable(true);
    frame.set_boot_selective_unlocking_enable(false);
    frame.set_selective_unlocking_enable(true);
    frame.set_key_selective_unlocking_enable(false);
    frame.set_auto_elec_parking_brake_application_enable(true);
    frame.set_automatic_headlamps_enable(false);
    frame.set_welcome_lighting_duration(LightingDuration2010::ThirtySeconds);
    frame.set_welcome_lighting_enable(true);
    frame.set_motorway_lighting_enable(false);
    frame.set_follow_me_home_lighting_duration(LightingDuration2010::ThirtySeconds);
    frame.set_follow_me_home_enable(true);
    frame.set_configurable_key_mode(ConfigurableKeyAction2010::ClusterCustomization);
    frame.set_motorized_tailgate_enable(false);
    frame.set_rear_wiper_in_reverse_gear_enable(true);
    frame.set_blind_spot_monitoring_enable(false);
    frame.set_park_sensors_enable(true);
    frame.set_mirrors_tilting_in_reverse_gear_enable(false);
    frame.set_indirect_under_inflation_reset_status(true);
    frame.set_automatic_emergency_braking_enable(false);
    frame.set_collision_alert_sensibility_level(CollisionAlertSensibilityLevel::Close);
    frame.set_collision_alert_enable(true);
    frame.set_hands_free_tailgate_enable(false);
    frame.set_speed_limit_recognition_enable(true);
    frame.set_radiator_grill_lamps_enable(false);
    frame.set_automatic_main_beam_enable(true);
    frame.set_driver_alert_assist_enable(false);
    frame.set_hands_free_tailgate_auto_lock_enable(true);
    frame.set_extended_traffic_sign_recognition_enable(false);
    frame.set_electric_child_security_enable(true);
    frame.set_auto_mirrors_folding_inhibit(false);

    assert_eq!(frame.into_inner(), REPR_FRAME_BYTES_1.to_vec());
}

#[test]
fn x260_test_frame_2_construction() {
    let bytes = [0x00; 8];
    let mut frame = Frame::new_unchecked(bytes.to_vec());

    frame.set_consumption_unit(ConsumptionUnit::VolumePerDistance);
    frame.set_distance_unit(DistanceUnit::Mile);
    frame.set_language(Language::English);
    frame.set_units_language_parameters_validity(true);
    frame.set_sound_harmony(SoundHarmony::Harmony4);
    frame.set_parameters_validity(true);
    frame.set_mood_lighting_level(MoodLightingLevel::Level5);
    frame.set_temperature_unit(TemperatureUnit::Fahrenheit);
    frame.set_volume_unit(VolumeUnit::Gallon);
    frame.set_mood_lighting_enable(false);
    frame.set_daytime_running_lamps_enable(false);
    frame.set_adaptive_lamps_enable(true);
    frame.set_welcome_function_enable(false);
    frame.set_boot_selective_unlocking_enable(true);
    frame.set_selective_unlocking_enable(false);
    frame.set_key_selective_unlocking_enable(true);
    frame.set_auto_elec_parking_brake_application_enable(false);
    frame.set_automatic_headlamps_enable(true);
    frame.set_welcome_lighting_duration(LightingDuration2010::SixtySeconds);
    frame.set_welcome_lighting_enable(false);
    frame.set_motorway_lighting_enable(true);
    frame.set_follow_me_home_lighting_duration(LightingDuration2010::SixtySeconds);
    frame.set_follow_me_home_enable(false);
    frame.set_configurable_key_mode(ConfigurableKeyAction2010::CeilingLight);
    frame.set_motorized_tailgate_enable(true);
    frame.set_rear_wiper_in_reverse_gear_enable(false);
    frame.set_blind_spot_monitoring_enable(true);
    frame.set_park_sensors_enable(false);
    frame.set_mirrors_tilting_in_reverse_gear_enable(true);
    frame.set_indirect_under_inflation_reset_status(false);
    frame.set_automatic_emergency_braking_enable(true);
    frame.set_collision_alert_sensibility_level(CollisionAlertSensibilityLevel::Distant);
    frame.set_collision_alert_enable(false);
    frame.set_hands_free_tailgate_enable(true);
    frame.set_speed_limit_recognition_enable(false);
    frame.set_radiator_grill_lamps_enable(true);
    frame.set_automatic_main_beam_enable(false);
    frame.set_driver_alert_assist_enable(true);
    frame.set_hands_free_tailgate_auto_lock_enable(false);
    frame.set_extended_traffic_sign_recognition_enable(true);
    frame.set_electric_child_security_enable(false);
    frame.set_auto_mirrors_folding_inhibit(true);

    assert_eq!(frame.into_inner(), REPR_FRAME_BYTES_2.to_vec());
}

#[test]
fn x260_test_overlong() {
    let bytes: [u8; 9] = [0x01, 0x03, 0xb2, 0x00, 0x00, 0xd0, 0x00, 0x20, 0xff];
    assert_eq!(
        Frame::new_unchecked(bytes.to_vec()).check_len().unwrap_err(),
        Error::Overlong
    );
}

#[test]
fn x260_test_underlong() {
    let bytes: [u8; 7] = [0x01, 0x03, 0xb2, 0x00, 0x00, 0xd0, 0x00];
    assert_eq!(Frame::new_checked(bytes.to_vec()).unwrap_err(), Error::Truncated);
}

#[test]
fn x260_test_repr_1_parse_valid() {
    let frame = Frame::new_unchecked(REPR_FRAME_BYTES_1.to_vec());
    let repr = Repr::parse(&frame).unwrap();
    assert_eq!(repr, frame_1_repr());
}

#[test]
fn x260_test_repr_2_parse_valid() {
    let frame = Frame::new_unchecked(REPR_FRAME_BYTES_2.to_vec());
    let repr = Repr::parse(&frame).unwrap();
    assert_eq!(repr, frame_2_repr());
}

#[test]
fn x260_test_basic_repr_1_emit() {
    let buf = [0u8; 8];
    let mut frame = Frame::new_unchecked(buf.to_vec());
    let repr = frame_1_repr();
    repr.emit(&mut frame);
    assert_eq!(frame.into_inner(), REPR_FRAME_BYTES_1.to_vec());
}

#[test]
fn x260_test_basic_repr_2_emit() {
    let buf = [0u8; 8];
    let mut frame = Frame::new_unchecked(buf.to_vec());
    let repr = frame_2_repr();
    repr.emit(&mut frame);
    assert_eq!(frame.into_inner(), REPR_FRAME_BYTES_2.to_vec());
}
