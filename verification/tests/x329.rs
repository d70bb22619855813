use psa_can::Error;
use psa_can::aee2010::infodiv::x329::{Frame, Repr};

const REPR_FRAME_BYTES_1: [u8; 7] = [0x10, 0x00, 0x02, 0x01, 0x00, 0x00, 0x00];
const REPR_FRAME_BYTES_2: [u8; 7] = [0x03, 0xff, 0x3c, 0x1e, 0x00, 0x00, 0x00];

fn frame_1_repr() -> Repr {
    Repr {
        fragrance_diffuser_mono_fragrance_cartridge_type: 0,
        lane_keep_assist_button_state: true,
        front_seat_massage_adjustment: 0,
        fragrance_diffuser_perfume_selection: 0,
        fragrance_diffuser_intensity: 0,
        fragrance_diffuser_request: 0,
        massage_activation_request: true,
        massage_intensity: 0,
        massage_type: 0,
        asr_inhibit: true,
        consumption_history_zoomed_value: 0,
        dynamic_mode_selected_mode: 0,
    }
}

fn frame_2_repr() -> Repr {
    Repr {
        fragrance_diffuser_mono_fragrance_cartridge_type: 3,
        lane_keep_assist_button_state: false,
        front_seat_massage_adjustment: 3,
        fragrance_diffuser_perfume_selection: 3,
        fragrance_diffuser_intensity: 3,
        fragrance_diffuser_request: 3,
        massage_activation_request: false,
        massage_intensity: 3,
        massage_type: 3,
        asr_inhibit: false,
        consumption_history_zoomed_value: 3,
        dynamic_mode_selected_mode: 3,
    }
}

#[test]
fn x329_test_frame_1_deconstruction() {
    let frame = Frame::new_unchecked(REPR_FRAME_BYTES_1.to_vec());
    assert_eq!(frame.check_len(), Ok(()));
    assert_eq!(frame.fragrance_diffuser_mono_type(), 0);
    assert_eq!(frame.lane_keep_assist_button_state(), true);
    assert_eq!(frame.front_massage_adjustment(), 0);
    assert_eq!(frame.fragrance_diffuser_perfume_selection(), 0);
    assert_eq!(frame.fragrance_diffuser_intensity(), 0);
    assert_eq!(frame.fragrance_diffuser_request(), 0);
    assert_eq!(frame.massage_activation_request(), true);
    assert_eq!(frame.massage_intensity(), 0);
    assert_eq!(frame.massage_type(), 0);
    assert_eq!(frame.asr_inhibit(), true);
    assert_eq!(frame.consumption_history_zoomed_value(), 0);
    assert_eq!(frame.dynamic_mode_selected_mode(), 0);
}

#[test]
fn x329_test_frame_2_deconstruction() {
    let frame = Frame::new_unchecked(REPR_FRAME_BYTES_2.to_vec());
    assert_eq!(frame.check_len(), Ok(()));
    assert_eq!(frame.fragrance_diffuser_mono_type(), 3);
    assert_eq!(frame.lane_keep_assist_button_state(), false);
    assert_eq!(frame.front_massage_adjustment(), 3);
    assert_eq!(frame.fragrance_diffuser_perfume_selection(), 3);
    assert_eq!(frame.fragrance_diffuser_intensity(), 3);
    assert_eq!(frame.fragrance_diffuser_request(), 3);
    assert_eq!(frame.massage_activation_request(), false);
    assert_eq!(frame.massage_intensity(), 3);
    assert_eq!(frame.massage_type(), 3);
    assert_eq!(frame.asr_inhibit(), false);
    assert_eq!(frame.consumption_history_zoomed_value(), 3);
    assert_eq!(frame.dynamic_mode_selected_mode(), 3);
}

#[test]
fn x329_test_frame_1_construction() {
    let bytes = [0x00; 7];
    let mut frame = Frame::new_unchecked(bytes.to_vec());

    frame.set_fragrance_diffuser_mono_type(0);
    frame.set_lane_keep_assist_button_state(true);
    frame.set_front_massage_adjustment(0);
    frame.set_fragrance_diffuser_perfume_selection(0);
    frame.set_fragrance_diffuser_intensity(0);
    frame.set_fragrance_diffuser_request(0);
    frame.set_massage_activation_request(true);
    frame.set_massage_intensity(0);
    frame.set_massage_type(0);
    frame.set_asr_inhibit(true);
    frame.set_consumption_history_zoomed_value(0);
    frame.set_dynamic_mode_selected_mode(0);

    assert_eq!(frame.into_inner(), REPR_FRAME_BYTES_1.to_vec());
}

#[test]
fn x329_test_frame_2_construction() {
    let bytes = [0x00; 7];
    let mut frame = Frame::new_unchecked(bytes.to_vec());

    frame.set_fragrance_diffuser_mono_type(3);
    frame.set_lane_keep_assist_button_state(false);
    frame.set_front_massage_adjustment(3);
    frame.set_fragrance_diffuser_perfume_selection(3);
    frame.set_fragrance_diffuser_intensity(3);
    frame.set_fragrance_diffuser_request(3);
    frame.set_massage_activation_request(false);
    frame.set_massage_intensity(3);
    frame.set_massage_type(3);
    frame.set_asr_inhibit(false);
    frame.set_consumption_history_zoomed_value(3);
    frame.set_dynamic_mode_selected_mode(3);

    assert_eq!(frame.into_inner(), REPR_FRAME_BYTES_2.to_vec());
}

#[test]
fn x329_test_overlong() {
    let bytes: [u8; 8] = [0x10, 0x00, 0x02, 0x01, 0x00, 0x00, 0x00, 0xff];
    assert_eq!(
        Frame::new_unchecked(bytes.to_vec()).check_len().unwrap_err(),
        Error::Overlong
    );
}

#[test]
fn x329_test_underlong() {
    let bytes: [u8; 6] = [0x10, 0x00, 0x02, 0x01, 0x00, 0x00];
    assert_eq!(Frame::new_checked(bytes.to_vec()).unwrap_err(), Error::Truncated);
}

#[test]
fn x329_test_repr_1_parse_valid() {
    let frame = Frame::new_unchecked(REPR_FRAME_BYTES_1.to_vec());
    let repr = Repr::parse(&frame).unwrap();
    assert_eq!(repr, frame_1_repr());
}

#[test]
fn x329_test_repr_2_parse_valid() {
    let frame = Frame::new_unchecked(REPR_FRAME_BYTES_2.to_vec());
    let repr = Repr::parse(&frame).unwrap();
    assert_eq!(repr, frame_2_repr());
}

#[test]
fn x329_test_basic_repr_1_emit() {
    let buf = [0u8; 7];
    let mut frame = Frame::new_unchecked(buf.to_vec());
    let repr = frame_1_repr();
    repr.emit(&mut frame);
    assert_eq!(frame.into_inner(), REPR_FRAME_BYTES_1.to_vec());
}

#[test]
fn x329_test_basic_repr_2_emit() {
    let buf = [0u8; 7];
    let mut frame = Frame::new_unchecked(buf.to_vec());
    let repr = frame_2_repr();
    repr.emit(&mut frame);
    assert_eq!(frame.into_inner(), REPR_FRAME_BYTES_2.to_vec());
}
