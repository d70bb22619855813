use psa_can::calendar::DateTime;
use psa_can::Error;
use psa_can::aee2010::infodiv::x276::{Frame, Repr};
use psa_can::config::ClockFormat;
use psa_can::config::DisplayMode;

const REPR_FRAME_BYTES: [u8; 7] = [0x96, 0x11, 0x0a, 0x0f, 0x1d, 0x3f, 0xfe];

fn frame_repr() -> Repr {
    Repr {
        clock_format: ClockFormat::H24,
        clock_disp_mode: DisplayMode::Blinking,
        utc_datetime: DateTime {
            year: 2022,
            month: 1,
            day: 10,
            hour: 15,
            minute: 29,
        },
        adblue_autonomy: 16382,
        adblue_autonomy_display_request: false,
    }
}

#[test]
fn x276_test_frame_deconstruction() {
    let frame = Frame::new_unchecked(REPR_FRAME_BYTES.to_vec());
    assert_eq!(frame.check_len(), Ok(()));
    assert_eq!(frame.clock_format(), ClockFormat::H24);
    assert_eq!(frame.year(), 0x16);
    assert_eq!(frame.month(), 0x01);
    assert_eq!(frame.clock_display_mode(), DisplayMode::Blinking);
    assert_eq!(frame.day(), 0x0a);
    assert_eq!(frame.hour(), 0x0f);
    assert_eq!(frame.minute(), 0x1d);
    assert_eq!(frame.adblue_autonomy(), 0x3ffe);
    assert_eq!(frame.adblue_autonomy_display_request(), false);
}

#[test]
fn x276_test_frame_construction() {
    let bytes = [0u8; 7];
    let mut frame = Frame::new_unchecked(bytes.to_vec());

    frame.set_clock_format(ClockFormat::H24);
    frame.set_year(0x16);
    frame.set_month(0x01);
    frame.set_clock_display_mode(DisplayMode::Blinking);
    frame.set_day(0x0a);
    frame.set_hour(0x0f);
    frame.set_minute(0x1d);
    frame.set_adblue_autonomy(0x3ffe);
    frame.set_adblue_autonomy_display_request(false);

    assert_eq!(frame.into_inner(), REPR_FRAME_BYTES.to_vec());
}

#[test]
fn x276_test_overlong() {
    let bytes: [u8; 8] = [0x96, 0x11, 0x0a, 0x0f, 0x1d, 0x3f, 0xfe, 0xff];
    assert_eq!(
        Frame::new_unchecked(bytes.to_vec()).check_len().unwrap_err(),
        Error::Overlong
    );
}

#[test]
fn x276_test_underlong() {
    let bytes: [u8; 5] = [0x96, 0x11, 0x0a, 0x0f, 0x1d];
    assert_eq!(Frame::new_checked(bytes.to_vec()).unwrap_err(), Error::Truncated);
}

#[test]
fn x276_test_repr_parse_valid() {
    let frame = Frame::new_unchecked(REPR_FRAME_BYTES.to_vec());
    let repr = Repr::parse(&frame).unwrap();
    assert_eq!(repr, frame_repr());
}

#[test]
fn x276_test_basic_repr_emit() {
    let buf = [0u8; 7];
    let mut frame = Frame::new_unchecked(buf.to_vec());
    let repr = frame_repr();
    repr.emit(&mut frame);
    assert_eq!(frame.into_inner(), REPR_FRAME_BYTES.to_vec());
}
