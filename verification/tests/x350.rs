use psa_can::Error;
use psa_can::aee2010::infodiv::x350::{Frame, Repr};
use psa_can::vehicle::ACAirDistributionPosition;
use psa_can::vehicle::ACAirIntakeMode;
use psa_can::vehicle::ACAirTemperature;
use psa_can::vehicle::ACFanMode2010;
use psa_can::vehicle::ACFanSpeed;
use psa_can::vehicle::ACModeRequest;

const REPR_FRAME_BYTES_1: [u8; 8] = [0x09, 0x00, 0x00, 0x94, 0x14, 0x25, 0x32, 0xc8];
const REPR_FRAME_BYTES_2: [u8; 8] = [0x03, 0x00, 0x00, 0x53, 0x31, 0x83, 0x10, 0x1c];

fn frame_1_repr() -> Repr {
    Repr {
        front_ac_fan_mode: ACFanMode2010::AutoComfort,
        ac_request: ACModeRequest::Off,
        front_left_temperature: ACAirTemperature::TwentySeven,
        mono_temperature: false,
        ac_max: true,
        front_right_temperature: ACAirTemperature::TwentySeven,
        front_left_seat_ventilation: 0,
        front_fan_speed: ACFanSpeed::Speed6,
        air_intake_mode: ACAirIntakeMode::ForcedOpen,
        air_quality_enabled: false,
        front_right_distribution_position: ACAirDistributionPosition::Foot,
        front_left_distribution_position: ACAirDistributionPosition::Ventilation,
        front_right_seat_ventilation: 0,
        front_left_seat_heating: 1,
        front_right_seat_heating: 2,
        energy_saver_mode_enabled: true,
    }
}

fn frame_2_repr() -> Repr {
    Repr {
        front_ac_fan_mode: ACFanMode2010::Manual,
        ac_request: ACModeRequest::AutoComfort,
        front_left_temperature: ACAirTemperature::TwentySix,
        mono_temperature: true,
        ac_max: false,
        front_right_temperature: ACAirTemperature::TwentyFour,
        front_left_seat_ventilation: 1,
        front_fan_speed: ACFanSpeed::Speed4,
        air_intake_mode: ACAirIntakeMode::AutoComfort,
        air_quality_enabled: true,
        front_right_distribution_position: ACAirDistributionPosition::AutoComfort,
        front_left_distribution_position: ACAirDistributionPosition::AutoDemist,
        front_right_seat_ventilation: 2,
        front_left_seat_heating: 3,
        front_right_seat_heating: 0,
        energy_saver_mode_enabled: false,
    }
}

#[test]
fn x350_test_frame_1_deconstruction() {
    let frame = Frame::new_unchecked(REPR_FRAME_BYTES_1.to_vec());
    assert_eq!(frame.check_len(), Ok(()));
    assert_eq!(frame.front_ac_fan_mode(), ACFanMode2010::AutoComfort);
    assert_eq!(frame.ac_request(), ACModeRequest::Off);
    assert_eq!(frame.front_left_temp(), ACAirTemperature::TwentySeven);
    assert_eq!(frame.mono_temp(), false);
    assert_eq!(frame.ac_max(), true);
    assert_eq!(frame.front_right_temp(), ACAirTemperature::TwentySeven);
    assert_eq!(frame.front_left_seat_ventilation(), 0);
    assert_eq!(frame.front_fan_speed(), ACFanSpeed::Speed6);
    assert_eq!(frame.air_intake_mode(), ACAirIntakeMode::ForcedOpen);
    assert_eq!(frame.air_quality_enable(), false);
    assert_eq!(
        frame.front_right_distribution_position(),
        ACAirDistributionPosition::Foot
    );
    assert_eq!(
        frame.front_left_distribution_position(),
        ACAirDistributionPosition::Ventilation
    );
    assert_eq!(frame.front_right_seat_ventilation(), 0);
    assert_eq!(frame.front_left_seat_heating(), 1);
    assert_eq!(frame.front_right_seat_heating(), 2);
    assert_eq!(frame.energy_saver_mode_enable(), true);
}

#[test]
fn x350_test_frame_2_deconstruction() {
    let frame = Frame::new_unchecked(REPR_FRAME_BYTES_2.to_vec());
    assert_eq!(frame.check_len(), Ok(()));
    assert_eq!(frame.front_ac_fan_mode(), ACFanMode2010::Manual);
    assert_eq!(frame.ac_request(), ACModeRequest::AutoComfort);
    assert_eq!(frame.front_left_temp(), ACAirTemperature::TwentySix);
    assert_eq!(frame.mono_temp(), true);
    assert_eq!(frame.ac_max(), false);
    assert_eq!(frame.front_right_temp(), ACAirTemperature::TwentyFour);
    assert_eq!(frame.front_left_seat_ventilation(), 1);
    assert_eq!(frame.front_fan_speed(), ACFanSpeed::Speed4);
    assert_eq!(frame.air_intake_mode(), ACAirIntakeMode::AutoComfort);
    assert_eq!(frame.air_quality_enable(), true);
    assert_eq!(
        frame.front_right_distribution_position(),
        ACAirDistributionPosition::AutoComfort
    );
    assert_eq!(
        frame.front_left_distribution_position(),
        ACAirDistributionPosition::AutoDemist
    );
    assert_eq!(frame.front_right_seat_ventilation(), 2);
    assert_eq!(frame.front_left_seat_heating(), 3);
    assert_eq!(frame.front_right_seat_heating(), 0);
    assert_eq!(frame.energy_saver_mode_enable(), false);
}

#[test]
fn x350_test_frame_1_construction() {
    let bytes = [0u8; 8];
    let mut frame = Frame::new_unchecked(bytes.to_vec());

    frame.set_front_ac_fan_mode(ACFanMode2010::AutoComfort);
    frame.set_ac_request(ACModeRequest::Off);
    frame.set_front_left_temp(ACAirTemperature::TwentySeven);
    frame.set_mono_temp(false);
    frame.set_ac_max(true);
    frame.set_front_right_temp(ACAirTemperature::TwentySeven);
    frame.set_front_left_seat_ventilation(0);
    frame.set_front_fan_speed(ACFanSpeed::Speed6);
    frame.set_air_intake_mode(ACAirIntakeMode::ForcedOpen);
    frame.set_air_quality_enable(false);
    frame.set_front_right_distribution_position(ACAirDistributionPosition::Foot);
    frame.set_front_left_distribution_position(ACAirDistributionPosition::Ventilation);
    frame.set_front_right_seat_ventilation(0);
    frame.set_front_left_seat_heating(1);
    frame.set_front_right_seat_heating(2);
    frame.set_energy_saver_mode_enable(true);

    assert_eq!(frame.into_inner(), REPR_FRAME_BYTES_1.to_vec());
}

#[test]
fn x350_test_frame_2_construction() {
    let bytes = [0u8; 8];
    let mut frame = Frame::new_unchecked(bytes.to_vec());

    frame.set_front_ac_fan_mode(ACFanMode2010::Manual);
    frame.set_ac_request(ACModeRequest::AutoComfort);
    frame.set_front_left_temp(ACAirTemperature::TwentySix);
    frame.set_mono_temp(true);
    frame.set_ac_max(false);
    frame.set_front_right_temp(ACAirTemperature::TwentyFour);
    frame.set_front_left_seat_ventilation(1);
    frame.set_front_fan_speed(ACFanSpeed::Speed4);
    frame.set_air_intake_mode(ACAirIntakeMode::AutoComfort);
    frame.set_air_quality_enable(true);
    frame.set_front_right_distribution_position(ACAirDistributionPosition::AutoComfort);
    frame.set_front_left_distribution_position(ACAirDistributionPosition::AutoDemist);
    frame.set_front_right_seat_ventilation(2);
    frame.set_front_left_seat_heating(3);
    frame.set_front_right_seat_heating(0);
    frame.set_energy_saver_mode_enable(false);

    assert_eq!(frame.into_inner(), REPR_FRAME_BYTES_2.to_vec());
}

#[test]
fn x350_test_overlong() {
    let bytes: [u8; 9] = [0x09, 0x00, 0x00, 0x94, 0x14, 0x25, 0x32, 0xc8, 0xff];
    assert_eq!(
        Frame::new_unchecked(bytes.to_vec()).check_len().unwrap_err(),
        Error::Overlong
    );
}

#[test]
fn x350_test_underlong() {
    let bytes: [u8; 7] = [0x09, 0x00, 0x00, 0x94, 0x14, 0x25, 0x32];
    assert_eq!(Frame::new_checked(bytes.to_vec()).unwrap_err(), Error::Truncated);
}

#[test]
fn x350_test_repr_1_parse_valid() {
    let frame = Frame::new_unchecked(REPR_FRAME_BYTES_1.to_vec());
    let repr = Repr::parse(&frame).unwrap();
    assert_eq!(repr, frame_1_repr());
}

#[test]
fn x350_test_repr_2_parse_valid() {
    let frame = Frame::new_unchecked(REPR_FRAME_BYTES_2.to_vec());
    let repr = Repr::parse(&frame).unwrap();
    assert_eq!(repr, frame_2_repr());
}

#[test]
fn x350_test_basic_repr_1_emit() {
    let buf = [0u8; 8];
    let mut frame = Frame::new_unchecked(buf.to_vec());
    let repr = frame_1_repr();
    repr.emit(&mut frame);
    assert_eq!(frame.into_inner(), REPR_FRAME_BYTES_1.to_vec());
}

#[test]
fn x350_test_basic_repr_2_emit() {
    let buf = [0u8; 8];
    let mut frame = Frame::new_unchecked(buf.to_vec());
    let repr = frame_2_repr();
    repr.emit(&mut frame);
    assert_eq!(frame.into_inner(), REPR_FRAME_BYTES_2.to_vec());
}
