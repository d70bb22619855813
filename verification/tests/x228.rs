use psa_can::Error;
use psa_can::aee2010::infodiv::x228::{Frame, Repr};
use psa_can::vehicle::AdaptiveCruiseControlState;
use psa_can::vehicle::SpeedRegulationMode;
use psa_can::vehicle::SpeedRegulationModeState;
use psa_can::vehicle::SpeedRegulationSettingPage;

const REPR_FRAME_BYTES_1: [u8; 8] = [0x00, 0x82, 0x49, 0x80, 0x80, 0x00, 0x00, 0x92];
const REPR_FRAME_BYTES_2: [u8; 8] = [0x00, 0x49, 0xc4, 0x00, 0x0a, 0x00, 0x45, 0x11];

fn frame_1_repr() -> Repr {
    Repr {
        speed_setting: 130,
        speed_setting_adjustment_in_progress: true,
        try_enable: false,
        speed_regulation_mode_state: SpeedRegulationModeState::Up,
        speed_regulation_mode: SpeedRegulationMode::CruiseControl,
        speed_regulation_available: true,
        acc_time: 0,
        speed_regulation_page_req: SpeedRegulationSettingPage::CruiseControl,
        acc_adjusted_speed: 0,
        set_speed_from_traffic_sign_recognition_allowed: false,
        mem_key_state: true,
        acc_displayed_state: AdaptiveCruiseControlState::Disabled,
    }
}

fn frame_2_repr() -> Repr {
    Repr {
        speed_setting: 73,
        speed_setting_adjustment_in_progress: false,
        try_enable: true,
        speed_regulation_mode_state: SpeedRegulationModeState::Standby,
        speed_regulation_mode: SpeedRegulationMode::AdaptiveCruiseControl,
        speed_regulation_available: false,
        acc_time: 10,
        speed_regulation_page_req: SpeedRegulationSettingPage::Close,
        acc_adjusted_speed: 69,
        set_speed_from_traffic_sign_recognition_allowed: true,
        mem_key_state: false,
        acc_displayed_state: AdaptiveCruiseControlState::AdjustInProgress,
    }
}

#[test]
fn x228_test_frame_1_deconstruction() {
    let frame = Frame::new_unchecked(REPR_FRAME_BYTES_1.to_vec());
    assert_eq!(frame.check_len(), Ok(()));
    assert_eq!(frame.speed_setting(), 130);
    assert_eq!(frame.speed_setting_adjustment_in_progress(), true);
    assert_eq!(frame.try_enable(), false);
    assert_eq!(
        frame.speed_regulation_mode_state(),
        SpeedRegulationModeState::Up
    );
    assert_eq!(
        frame.speed_regulation_mode(),
        SpeedRegulationMode::CruiseControl
    );
    assert_eq!(frame.speed_regulation_available(), true);
    assert_eq!(frame.acc_time(), 0);
    assert_eq!(
        frame.speed_regulation_page_req(),
        SpeedRegulationSettingPage::CruiseControl
    );
    assert_eq!(frame.acc_adjusted_speed(), 0);
    assert_eq!(
        frame.set_speed_from_traffic_sign_recognition_allowed(),
        false
    );
    assert_eq!(frame.mem_key_state(), true);
    assert_eq!(
        frame.acc_displayed_state(),
        AdaptiveCruiseControlState::Disabled
    );
}

#[test]
fn x228_test_frame_2_deconstruction() {
    let frame = Frame::new_unchecked(REPR_FRAME_BYTES_2.to_vec());
    assert_eq!(frame.check_len(), Ok(()));
    assert_eq!(frame.speed_setting(), 73);
    assert_eq!(frame.speed_setting_adjustment_in_progress(), false);
    assert_eq!(frame.try_enable(), true);
    assert_eq!(
        frame.speed_regulation_mode_state(),
        SpeedRegulationModeState::Standby
    );
    assert_eq!(
        frame.speed_regulation_mode(),
        SpeedRegulationMode::AdaptiveCruiseControl
    );
    assert_eq!(frame.speed_regulation_available(), false);
    assert_eq!(frame.acc_time(), 10);
    assert_eq!(
        frame.speed_regulation_page_req(),
        SpeedRegulationSettingPage::Close
    );
    assert_eq!(frame.acc_adjusted_speed(), 69);
    assert_eq!(
        frame.set_speed_from_traffic_sign_recognition_allowed(),
        true
    );
    assert_eq!(frame.mem_key_state(), false);
    assert_eq!(
        frame.acc_displayed_state(),
        AdaptiveCruiseControlState::AdjustInProgress
    );
}

#[test]
fn x228_test_frame_1_construction() {
    let bytes = [0x00; 8];
    let mut frame = Frame::new_unchecked(bytes.to_vec());

    frame.set_speed_setting(130);
    frame.set_speed_setting_adjustment_in_progress(true);
    frame.set_try_enable(false);
    frame.set_speed_regulation_mode_state(SpeedRegulationModeState::Up);
    frame.set_speed_regulation_mode(SpeedRegulationMode::CruiseControl);
    frame.set_speed_regulation_available(true);
    frame.set_acc_time(0);
    frame.set_speed_regulation_page_req(SpeedRegulationSettingPage::CruiseControl);
    frame.set_acc_adjusted_speed(0);
    frame.set_set_speed_from_traffic_sign_recognition_allowed(false);
    frame.set_mem_key_state(true);
    frame.set_acc_displayed_state(AdaptiveCruiseControlState::Disabled);

    assert_eq!(frame.into_inner(), REPR_FRAME_BYTES_1.to_vec());
}

#[test]
fn x228_test_frame_2_construction() {
    let bytes = [0x00; 8];
    let mut frame = Frame::new_unchecked(bytes.to_vec());

    frame.set_speed_setting(73);
    frame.set_speed_setting_adjustment_in_progress(false);
    frame.set_try_enable(true);
    frame.set_speed_regulation_mode_state(SpeedRegulationModeState::Standby);
    frame.set_speed_regulation_mode(SpeedRegulationMode::AdaptiveCruiseControl);
    frame.set_speed_regulation_available(false);
    frame.set_acc_time(10);
    frame.set_speed_regulation_page_req(SpeedRegulationSettingPage::Close);
    frame.set_acc_adjusted_speed(69);
    frame.set_set_speed_from_traffic_sign_recognition_allowed(true);
    frame.set_mem_key_state(false);
    frame.set_acc_displayed_state(AdaptiveCruiseControlState::AdjustInProgress);

    assert_eq!(frame.into_inner(), REPR_FRAME_BYTES_2.to_vec());
}

#[test]
fn x228_test_overlong() {
    let bytes: [u8; 9] = [0x00, 0x82, 0x49, 0x80, 0x80, 0x00, 0x00, 0x92, 0xff];
    assert_eq!(
        Frame::new_unchecked(bytes.to_vec()).check_len().unwrap_err(),
        Error::Overlong
    );
}

#[test]
fn x228_test_underlong() {
    let bytes: [u8; 7] = [0x00, 0x82, 0x49, 0x80, 0x80, 0x00, 0x00];
    assert_eq!(Frame::new_checked(bytes.to_vec()).unwrap_err(), Error::Truncated);
}

#[test]
fn x228_test_repr_1_parse_valid() {
    let frame = Frame::new_unchecked(REPR_FRAME_BYTES_1.to_vec());
    let repr = Repr::parse(&frame).unwrap();
    assert_eq!(repr, frame_1_repr());
}

#[test]
fn x228_test_repr_2_parse_valid() {
    let frame = Frame::new_unchecked(REPR_FRAME_BYTES_2.to_vec());
    let repr = Repr::parse(&frame).unwrap();
    assert_eq!(repr, frame_2_repr());
}

#[test]
fn x228_test_basic_repr_1_emit() {
    let buf = [0u8; 8];
    let mut frame = Frame::new_unchecked(buf.to_vec());
    let repr = frame_1_repr();
    repr.emit(&mut frame);
    assert_eq!(frame.into_inner(), REPR_FRAME_BYTES_1.to_vec());
}

#[test]
fn x228_test_basic_repr_2_emit() {
    let buf = [0u8; 8];
    let mut frame = Frame::new_unchecked(buf.to_vec());
    let repr = frame_2_repr();
    repr.emit(&mut frame);
    assert_eq!(frame.into_inner(), REPR_FRAME_BYTES_2.to_vec());
}
