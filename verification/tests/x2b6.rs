use heapless::String;
use psa_can::Error;
use psa_can::aee2010::infodiv::x2b6::{Frame, Repr};

const REPR_FRAME_BYTES: [u8; 8] = [0x37, 0x34, 0x37, 0x38, 0x30, 0x32, 0x34, 0x38];

fn frame_repr() -> Repr {
    Repr {
        vis: String::try_from("74780248").unwrap(),
    }
}

#[test]
fn x2b6_test_frame_deconstruction() {
    let frame = Frame::new_unchecked(REPR_FRAME_BYTES.to_vec());
    assert_eq!(frame.check_len(), Ok(()));
    assert_eq!(frame.vis_first_char(), '7');
    assert_eq!(frame.vis_second_char(), '4');
    assert_eq!(frame.vis_third_char(), '7');
    assert_eq!(frame.vis_fourth_char(), '8');
    assert_eq!(frame.vis_fifth_char(), '0');
    assert_eq!(frame.vis_sixth_char(), '2');
    assert_eq!(frame.vis_seventh_char(), '4');
    assert_eq!(frame.vis_eighth_char(), '8');
}

#[test]
fn x2b6_test_frame_construction() {
    let bytes = [0u8; 8];
    let mut frame = Frame::new_unchecked(bytes.to_vec());

    frame.set_vis_first_char('7');
    frame.set_vis_second_char('4');
    frame.set_vis_third_char('7');
    frame.set_vis_fourth_char('8');
    frame.set_vis_fifth_char('0');
    frame.set_vis_sixth_char('2');
    frame.set_vis_seventh_char('4');
    frame.set_vis_eighth_char('8');

    assert_eq!(frame.into_inner(), REPR_FRAME_BYTES.to_vec());
}

#[test]
fn x2b6_test_overlong() {
    let bytes: [u8; 9] = [0x37, 0x34, 0x37, 0x38, 0x30, 0x32, 0x34, 0x38, 0xff];
    assert_eq!(
        Frame::new_unchecked(bytes.to_vec()).check_len().unwrap_err(),
        Error::Overlong
    );
}

#[test]
fn x2b6_test_underlong() {
    let bytes: [u8; 7] = [0x37, 0x34, 0x37, 0x38, 0x30, 0x32, 0x34];
    assert_eq!(Frame::new_checked(bytes.to_vec()).unwrap_err(), Error::Truncated);
}

#[test]
fn x2b6_test_repr_parse_valid() {
    let frame = Frame::new_unchecked(REPR_FRAME_BYTES.to_vec());
    let repr = Repr::parse(&frame).unwrap();
    assert_eq!(repr, frame_repr());
}

#[test]
fn x2b6_test_basic_repr_emit() {
    let buf = [0u8; 8];
    let mut frame = Frame::new_unchecked(buf.to_vec());
    let repr = frame_repr();
    repr.emit(&mut frame);
    assert_eq!(frame.into_inner(), REPR_FRAME_BYTES.to_vec());
}
