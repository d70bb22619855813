use psa_can::Error;
use psa_can::aee2010::infodiv::x122::{Frame, Repr};

const REPR_FRAME_BYTES_1: [u8; 8] = [0x55, 0x55, 0x55, 0x55, 0x55, 0x55, 0x00, 0x00];
const REPR_FRAME_BYTES_2: [u8; 8] = [0xaa, 0xaa, 0xaa, 0xaa, 0xaa, 0xaa, 0xff, 0xff];

fn frame_1_repr() -> Repr {
    let mut buttons = [true; 44];
    for (i, btn) in buttons.iter_mut().enumerate() {
        if (i & 1) == 0 {
            *btn = false;
        }
    }

    Repr {
        front_panel_buttons_state: buttons,
        front_panel_bp_button_state: true,
        front_panel_esp_button_state: false,
        front_panel_first_wheel_sync_request: false,
        front_panel_second_wheel_sync_request: true,
        front_panel_first_wheel_ticks_counter: 0,
        front_panel_second_wheel_ticks_counter: 0,
    }
}

fn frame_2_repr() -> Repr {
    let mut buttons = [false; 44];
    for (i, btn) in buttons.iter_mut().enumerate() {
        if (i & 1) == 0 {
            *btn = true;
        }
    }

    Repr {
        front_panel_buttons_state: buttons,
        front_panel_bp_button_state: false,
        front_panel_esp_button_state: true,
        front_panel_first_wheel_sync_request: true,
        front_panel_second_wheel_sync_request: false,
        front_panel_first_wheel_ticks_counter: 255,
        front_panel_second_wheel_ticks_counter: 255,
    }
}

#[test]
fn x122_test_frame_1_deconstruction() {
    let frame = Frame::new_unchecked(REPR_FRAME_BYTES_1.to_vec());
    assert_eq!(frame.check_len(), Ok(()));
    assert_eq!(frame.fp_second_wheel_sync_request(), true);
    assert_eq!(frame.fp_first_wheel_sync_request(), false);
    assert_eq!(frame.fp_first_wheel_ticks_counter(), 0);
    assert_eq!(frame.fp_second_wheel_ticks_counter(), 0);
}

#[test]
fn x122_test_frame_2_deconstruction() {
    let frame = Frame::new_unchecked(REPR_FRAME_BYTES_2.to_vec());
    assert_eq!(frame.check_len(), Ok(()));
    assert_eq!(frame.fp_second_wheel_sync_request(), false);
    assert_eq!(frame.fp_first_wheel_sync_request(), true);
    assert_eq!(frame.fp_first_wheel_ticks_counter(), 255);
    assert_eq!(frame.fp_second_wheel_ticks_counter(), 255);
}

#[test]
fn x122_test_frame_1_construction() {
    let bytes = [0x55, 0x55, 0x55, 0x55, 0x55, 0x55, 0x00, 0x00];
    let mut frame = Frame::new_unchecked(bytes.to_vec());

    frame.set_fp_second_wheel_sync_request(true);
    frame.set_fp_first_wheel_sync_request(false);
    frame.set_fp_first_wheel_ticks_counter(0);
    frame.set_fp_second_wheel_ticks_counter(0);

    assert_eq!(frame.into_inner(), REPR_FRAME_BYTES_1.to_vec());
}

#[test]
fn x122_test_frame_2_construction() {
    let bytes = [0xaa, 0xaa, 0xaa, 0xaa, 0xaa, 0xaa, 0xff, 0xff];
    let mut frame = Frame::new_unchecked(bytes.to_vec());

    frame.set_fp_second_wheel_sync_request(false);
    frame.set_fp_first_wheel_sync_request(true);
    frame.set_fp_first_wheel_ticks_counter(255);
    frame.set_fp_second_wheel_ticks_counter(255);

    assert_eq!(frame.into_inner(), REPR_FRAME_BYTES_2.to_vec());
}

#[test]
fn x122_test_overlong() {
    let bytes: [u8; 9] = [0x55, 0x55, 0x55, 0x55, 0x55, 0x55, 0x00, 0x00, 0xff];
    assert_eq!(
        Frame::new_unchecked(bytes.to_vec()).check_len().unwrap_err(),
        Error::Overlong
    );
}

#[test]
fn x122_test_underlong() {
    let bytes: [u8; 7] = [0x55, 0x55, 0x55, 0x55, 0x55, 0x55, 0x00];
    assert_eq!(Frame::new_checked(bytes.to_vec()).unwrap_err(), Error::Truncated);
}

#[test]
fn x122_test_repr_1_parse_valid() {
    let frame = Frame::new_unchecked(REPR_FRAME_BYTES_1.to_vec());
    let repr = Repr::parse(&frame).unwrap();
    assert_eq!(repr, frame_1_repr());
}

#[test]
fn x122_test_repr_2_parse_valid() {
    let frame = Frame::new_unchecked(REPR_FRAME_BYTES_2.to_vec());
    let repr = Repr::parse(&frame).unwrap();
    assert_eq!(repr, frame_2_repr());
}

#[test]
fn x122_test_basic_repr_1_emit() {
    let buf = [0u8; 8];
    let mut frame = Frame::new_unchecked(buf.to_vec());
    let repr = frame_1_repr();
    repr.emit(&mut frame);
    assert_eq!(frame.into_inner(), REPR_FRAME_BYTES_1.to_vec());
}

#[test]
fn x122_test_basic_repr_2_emit() {
    let buf = [0u8; 8];
    let mut frame = Frame::new_unchecked(buf.to_vec());
    let repr = frame_2_repr();
    repr.emit(&mut frame);
    assert_eq!(frame.into_inner(), REPR_FRAME_BYTES_2.to_vec());
}
