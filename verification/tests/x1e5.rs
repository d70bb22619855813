use psa_can::Error;
use psa_can::aee2010::infodiv::x1e5::{Frame, Repr};
use psa_can::config::ConfigOption;
use psa_can::config::MusicalAmbiance;
use psa_can::config::SoundRepartition;

const REPR_FRAME_BYTES_1: [u8; 7] = [0x7e, 0x7e, 0x7e, 0x7e, 0x56, 0x82, 0x70];
const REPR_FRAME_BYTES_2: [u8; 7] = [0xfd, 0xfd, 0xfd, 0xfd, 0xb9, 0x5d, 0x9e];

fn frame_1_repr() -> Repr {
    Repr {
        balance_opt: ConfigOption::SelectableOption,
        balance_level: 31,
        balance_under_adj: false,
        fader_opt: ConfigOption::SelectableOption,
        fader_level: 31,
        fader_under_adj: false,
        bass_opt: ConfigOption::SelectableOption,
        bass_level: 31,
        bass_under_adj: false,
        treble_opt: ConfigOption::SelectableOption,
        treble_level: 31,
        treble_under_adj: false,
        speed_dependent_volume_opt: ConfigOption::SelectableOption,
        speed_dependent_volume_enabled: true,
        speed_dependent_volume_under_adj: false,
        loudness_opt: ConfigOption::SelectableOption,
        loudness_enabled: true,
        loudness_under_adj: false,
        musical_ambiance_opt: ConfigOption::SelectableOption,
        musical_ambiance: MusicalAmbiance::NoAmbiance,
        musical_ambiance_under_adj: false,
        sound_repartition_opt: ConfigOption::SelectableOption,
        sound_repartition: SoundRepartition::AllPassengers,
        sound_repartition_under_adj: false,
        spatial_sound_under_adj: false,
        spectral_sound_under_adj: false,
        impossible_setting: false,
    }
}

fn frame_2_repr() -> Repr {
    Repr {
        balance_opt: ConfigOption::UnselectableOption,
        balance_level: 31,
        balance_under_adj: true,
        fader_opt: ConfigOption::UnselectableOption,
        fader_level: 31,
        fader_under_adj: true,
        bass_opt: ConfigOption::UnselectableOption,
        bass_level: 31,
        bass_under_adj: true,
        treble_opt: ConfigOption::UnselectableOption,
        treble_level: 31,
        treble_under_adj: true,
        speed_dependent_volume_opt: ConfigOption::UnselectableOption,
        speed_dependent_volume_enabled: false,
        speed_dependent_volume_under_adj: true,
        loudness_opt: ConfigOption::UnselectableOption,
        loudness_enabled: true,
        loudness_under_adj: true,
        musical_ambiance_opt: ConfigOption::UnselectableOption,
        musical_ambiance: MusicalAmbiance::PopRock,
        musical_ambiance_under_adj: true,
        sound_repartition_opt: ConfigOption::UnselectableOption,
        sound_repartition: SoundRepartition::Driver,
        sound_repartition_under_adj: true,
        spatial_sound_under_adj: true,
        spectral_sound_under_adj: true,
        impossible_setting: true,
    }
}

#[test]
fn x1e5_test_frame_1_deconstruction() {
    let frame = Frame::new_unchecked(REPR_FRAME_BYTES_1.to_vec());
    assert_eq!(frame.check_len(), Ok(()));
    assert_eq!(frame.balance_option(), ConfigOption::SelectableOption);
    assert_eq!(frame.balance_level(), 31);
    assert_eq!(frame.balance_under_adjustment(), false);
    assert_eq!(frame.fader_option(), ConfigOption::SelectableOption);
    assert_eq!(frame.fader_level(), 31);
    assert_eq!(frame.fader_under_adjustment(), false);
    assert_eq!(frame.bass_option(), ConfigOption::SelectableOption);
    assert_eq!(frame.bass_level(), 31);
    assert_eq!(frame.bass_under_adjustment(), false);
    assert_eq!(frame.treble_option(), ConfigOption::SelectableOption);
    assert_eq!(frame.treble_level(), 31);
    assert_eq!(frame.treble_under_adjustment(), false);
    assert_eq!(
        frame.speed_dependent_volume_option(),
        ConfigOption::SelectableOption
    );
    assert_eq!(frame.speed_dependent_volume_enabled(), true);
    assert_eq!(frame.speed_dependent_volume_under_adjustment(), false);
    assert_eq!(frame.loudness_option(), ConfigOption::SelectableOption);
    assert_eq!(frame.loudness_enabled(), true);
    assert_eq!(frame.loudness_under_adjustment(), false);
    assert_eq!(
        frame.musical_ambiance_option(),
        ConfigOption::SelectableOption
    );
    assert_eq!(frame.musical_ambiance(), MusicalAmbiance::NoAmbiance);
    assert_eq!(frame.musical_ambiance_under_adjustment(), false);
    assert_eq!(
        frame.sound_repartition_option(),
        ConfigOption::SelectableOption
    );
    assert_eq!(frame.sound_repartition(), SoundRepartition::AllPassengers);
    assert_eq!(frame.sound_repartition_under_adjustment(), false);
    assert_eq!(frame.spatial_sound_under_adjustment(), false);
    assert_eq!(frame.spectral_sound_under_adjustment(), false);
    assert_eq!(frame.impossible_setting(), false);
}

#[test]
fn x1e5_test_frame_2_deconstruction() {
    let frame = Frame::new_unchecked(REPR_FRAME_BYTES_2.to_vec());
    assert_eq!(frame.check_len(), Ok(()));
    assert_eq!(frame.balance_level(), 31);
    assert_eq!(frame.balance_option(), ConfigOption::UnselectableOption);
    assert_eq!(frame.balance_under_adjustment(), true);
    assert_eq!(frame.fader_option(), ConfigOption::UnselectableOption);
    assert_eq!(frame.fader_level(), 31);
    assert_eq!(frame.fader_under_adjustment(), true);
    assert_eq!(frame.bass_option(), ConfigOption::UnselectableOption);
    assert_eq!(frame.bass_level(), 31);
    assert_eq!(frame.bass_under_adjustment(), true);
    assert_eq!(frame.treble_option(), ConfigOption::UnselectableOption);
    assert_eq!(frame.treble_level(), 31);
    assert_eq!(frame.treble_under_adjustment(), true);
    assert_eq!(
        frame.speed_dependent_volume_option(),
        ConfigOption::UnselectableOption
    );
    assert_eq!(frame.speed_dependent_volume_enabled(), false);
    assert_eq!(frame.speed_dependent_volume_under_adjustment(), true);
    assert_eq!(frame.loudness_option(), ConfigOption::UnselectableOption);
    assert_eq!(frame.loudness_enabled(), true);
    assert_eq!(frame.loudness_under_adjustment(), true);
    assert_eq!(
        frame.musical_ambiance_option(),
        ConfigOption::UnselectableOption
    );
    assert_eq!(frame.musical_ambiance(), MusicalAmbiance::PopRock);
    assert_eq!(frame.musical_ambiance_under_adjustment(), true);
    assert_eq!(
        frame.sound_repartition_option(),
        ConfigOption::UnselectableOption
    );
    assert_eq!(frame.sound_repartition(), SoundRepartition::Driver);
    assert_eq!(frame.sound_repartition_under_adjustment(), true);
    assert_eq!(frame.spatial_sound_under_adjustment(), true);
    assert_eq!(frame.spectral_sound_under_adjustment(), true);
    assert_eq!(frame.impossible_setting(), true);
}

#[test]
fn x1e5_test_frame_1_construction() {
    let bytes = [0x00; 7];
    let mut frame = Frame::new_unchecked(bytes.to_vec());

    frame.set_balance_option(ConfigOption::SelectableOption);
    frame.set_balance_level(31);
    frame.set_balance_under_adjustment(false);
    frame.set_fader_option(ConfigOption::SelectableOption);
    frame.set_fader_level(31);
    frame.set_fader_under_adjustment(false);
    frame.set_bass_option(ConfigOption::SelectableOption);
    frame.set_bass_level(31);
    frame.set_bass_under_adjustment(false);
    frame.set_treble_option(ConfigOption::SelectableOption);
    frame.set_treble_level(31);
    frame.set_treble_under_adjustment(false);
    frame.set_speed_dependent_volume_option(ConfigOption::SelectableOption);
    frame.set_speed_dependent_volume_enabled(true);
    frame.set_speed_dependent_volume_under_adjustment(false);
    frame.set_loudness_option(ConfigOption::SelectableOption);
    frame.set_loudness_enabled(true);
    frame.set_loudness_under_adjustment(false);
    frame.set_musical_ambiance_option(ConfigOption::SelectableOption);
    frame.set_musical_ambiance(MusicalAmbiance::NoAmbiance);
    frame.set_musical_ambiance_under_adjustment(false);
    frame.set_sound_repartition_option(ConfigOption::SelectableOption);
    frame.set_sound_repartition(SoundRepartition::AllPassengers);
    frame.set_sound_repartition_under_adjustment(false);
    frame.set_spatial_sound_under_adjustment(false);
    frame.set_spectral_sound_under_adjustment(false);
    frame.set_impossible_setting(false);

    assert_eq!(frame.into_inner(), REPR_FRAME_BYTES_1.to_vec());
}

#[test]
fn x1e5_test_frame_2_construction() {
    let bytes = [0x00; 7];
    let mut frame = Frame::new_unchecked(bytes.to_vec());

    frame.set_balance_option(ConfigOption::UnselectableOption);
    frame.set_balance_level(31);
    frame.set_balance_under_adjustment(true);
    frame.set_fader_option(ConfigOption::UnselectableOption);
    frame.set_fader_level(31);
    frame.set_fader_under_adjustment(true);
    frame.set_bass_option(ConfigOption::UnselectableOption);
    frame.set_bass_level(31);
    frame.set_bass_under_adjustment(true);
    frame.set_treble_option(ConfigOption::UnselectableOption);
    frame.set_treble_level(31);
    frame.set_treble_under_adjustment(true);
    frame.set_speed_dependent_volume_option(ConfigOption::UnselectableOption);
    frame.set_speed_dependent_volume_enabled(false);
    frame.set_speed_dependent_volume_under_adjustment(true);
    frame.set_loudness_option(ConfigOption::UnselectableOption);
    frame.set_loudness_enabled(true);
    frame.set_loudness_under_adjustment(true);
    frame.set_musical_ambiance_option(ConfigOption::UnselectableOption);
    frame.set_musical_ambiance(MusicalAmbiance::PopRock);
    frame.set_musical_ambiance_under_adjustment(true);
    frame.set_sound_repartition_option(ConfigOption::UnselectableOption);
    frame.set_sound_repartition(SoundRepartition::Driver);
    frame.set_sound_repartition_under_adjustment(true);
    frame.set_spatial_sound_under_adjustment(true);
    frame.set_spectral_sound_under_adjustment(true);
    frame.set_impossible_setting(true);

    assert_eq!(frame.into_inner(), REPR_FRAME_BYTES_2.to_vec());
}

#[test]
fn x1e5_test_overlong() {
    let bytes: [u8; 8] = [0x7e, 0x7e, 0x7e, 0x7e, 0x56, 0x82, 0x70, 0xff];
    assert_eq!(
        Frame::new_unchecked(bytes.to_vec()).check_len().unwrap_err(),
        Error::Overlong
    );
}

#[test]
fn x1e5_test_underlong() {
    let bytes: [u8; 6] = [0x7e, 0x7e, 0x7e, 0x7e, 0x56, 0x82];
    assert_eq!(Frame::new_checked(bytes.to_vec()).unwrap_err(), Error::Truncated);
}

#[test]
fn x1e5_test_repr_1_parse_valid() {
    let frame = Frame::new_unchecked(REPR_FRAME_BYTES_1.to_vec());
    let repr = Repr::parse(&frame).unwrap();
    assert_eq!(repr, frame_1_repr());
}

#[test]
fn x1e5_test_repr_2_parse_valid() {
    let frame = Frame::new_unchecked(REPR_FRAME_BYTES_2.to_vec());
    let repr = Repr::parse(&frame).unwrap();
    assert_eq!(repr, frame_2_repr());
}

#[test]
fn x1e5_test_basic_repr_1_emit() {
    let buf = [0u8; 7];
    let mut frame = Frame::new_unchecked(buf.to_vec());
    let repr = frame_1_repr();
    repr.emit(&mut frame);
    assert_eq!(frame.into_inner(), REPR_FRAME_BYTES_1.to_vec());
}

#[test]
fn x1e5_test_basic_repr_2_emit() {
    let buf = [0u8; 7];
    let mut frame = Frame::new_unchecked(buf.to_vec());
    let repr = frame_2_repr();
    repr.emit(&mut frame);
    assert_eq!(frame.into_inner(), REPR_FRAME_BYTES_2.to_vec());
}
