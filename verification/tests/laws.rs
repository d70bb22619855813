use heapless::String;
use psa_can::aee2010::infodiv::{x122, x15b, x1a9, x260, x276, x2b6, x361, x39b, x3e7};
use psa_can::vehicle::CruiseControlCustomSettingPosition;
use psa_can::calendar::{calendar_date_exists, DateTime};
use psa_can::config::{ClockFormat, DisplayMode};
use psa_can::{check_frame_len, Error};

fn date(year: i32, month: u8, day: u8, hour: u8, minute: u8) -> DateTime {
    DateTime {
        year,
        month,
        day,
        hour,
        minute,
    }
}

#[test]
fn error_descriptions() {
    assert_eq!(Error::Truncated.description(), "truncated packet");
    assert_eq!(Error::Overlong.description(), "overlong packet");
    assert_eq!(Error::Illegal.description(), "illegal value");
    assert_eq!(Error::Invalid.description(), "invalid value");
}

#[test]
fn frame_length_checks() {
    assert_eq!(check_frame_len(7, 8), Err(Error::Truncated));
    assert_eq!(check_frame_len(9, 8), Err(Error::Overlong));
    assert_eq!(check_frame_len(8, 8), Ok(()));
    assert_eq!(check_frame_len(0, 0), Ok(()));
}

#[test]
fn calendar_dates_follow_the_gregorian_rule() {
    assert!(calendar_date_exists(2024, 2, 29));
    assert!(!calendar_date_exists(2023, 2, 29));
    assert!(calendar_date_exists(2000, 2, 29));
    assert!(!calendar_date_exists(1900, 2, 29));
    assert!(!calendar_date_exists(2022, 4, 31));
    assert!(calendar_date_exists(2022, 12, 31));
    assert!(!calendar_date_exists(2022, 13, 1));
    assert!(!calendar_date_exists(2022, 0, 1));
    assert!(!calendar_date_exists(2022, 1, 0));
    assert!(!calendar_date_exists(10000, 1, 1));
}

#[test]
fn date_time_construction() {
    assert_eq!(DateTime::new(2022, 1, 10, 15, 29), Some(date(2022, 1, 10, 15, 29)));
    assert_eq!(DateTime::new(2022, 1, 10, 24, 0), None);
    assert_eq!(DateTime::new(2022, 1, 10, 23, 60), None);
    assert_eq!(DateTime::new(2022, 2, 30, 0, 0), None);
}

#[test]
fn x276_parse_refuses_missing_dates() {
    // month 0
    let frame = x276::Frame::new_unchecked(vec![0x96, 0x10, 0x0a, 0x0f, 0x1d, 0x3f, 0xfe]);
    assert_eq!(x276::Repr::parse(&frame), Err(Error::Illegal));
    // month 13
    let frame = x276::Frame::new_unchecked(vec![0x96, 0x1d, 0x0a, 0x0f, 0x1d, 0x3f, 0xfe]);
    assert_eq!(x276::Repr::parse(&frame), Err(Error::Illegal));
    // 30 February 2022
    let frame = x276::Frame::new_unchecked(vec![0x96, 0x12, 0x1e, 0x0f, 0x1d, 0x3f, 0xfe]);
    assert_eq!(x276::Repr::parse(&frame), Err(Error::Illegal));
    // hour 24
    let frame = x276::Frame::new_unchecked(vec![0x96, 0x11, 0x0a, 0x18, 0x1d, 0x3f, 0xfe]);
    assert_eq!(x276::Repr::parse(&frame), Err(Error::Illegal));
    // minute 60
    let frame = x276::Frame::new_unchecked(vec![0x96, 0x11, 0x0a, 0x0f, 0x3c, 0x3f, 0xfe]);
    assert_eq!(x276::Repr::parse(&frame), Err(Error::Illegal));
    // too short
    let frame = x276::Frame::new_unchecked(vec![0x96, 0x11, 0x0a]);
    assert_eq!(x276::Repr::parse(&frame), Err(Error::Truncated));
}

#[test]
fn x276_parse_accepts_leap_day() {
    // 29 February 2024 at 00:00
    let frame = x276::Frame::new_unchecked(vec![0x98, 0x02, 0x1d, 0x00, 0x00, 0x00, 0x00]);
    let repr = x276::Repr::parse(&frame).unwrap();
    assert_eq!(repr.utc_datetime, date(2024, 2, 29, 0, 0));
    assert_eq!(repr.clock_format, ClockFormat::H24);
    // 29 February 2023 does not exist
    let frame = x276::Frame::new_unchecked(vec![0x97, 0x02, 0x1d, 0x00, 0x00, 0x00, 0x00]);
    assert_eq!(x276::Repr::parse(&frame), Err(Error::Illegal));
}

#[test]
fn x276_adblue_autonomy_replaces_its_field() {
    let mut frame = x276::Frame::new_unchecked(vec![0x96, 0x11, 0x0a, 0x0f, 0x1d, 0x3f, 0xfe]);
    frame.set_adblue_autonomy(0x0001);
    assert_eq!(frame.adblue_autonomy(), 0x0001);
    assert_eq!(frame.adblue_autonomy_display_request(), false);
    let repr = x276::Repr {
        clock_format: ClockFormat::H12,
        clock_disp_mode: DisplayMode::Steady,
        utc_datetime: date(2023, 6, 1, 12, 0),
        adblue_autonomy: 0x0001,
        adblue_autonomy_display_request: false,
    };
    let mut frame = x276::Frame::new_unchecked(vec![0xff; 7]);
    repr.emit(&mut frame);
    assert_eq!(frame.adblue_autonomy(), 0x0001);
    assert_eq!(x276::Repr::parse(&frame), Ok(repr));
}

#[test]
fn x39b_parse_refuses_fields_out_of_range() {
    let frame = x39b::Frame::new_unchecked(vec![0x96, 0x00, 0x0a, 0x0f, 0x1d]);
    assert_eq!(x39b::Repr::parse(&frame), Err(Error::Invalid));
    let frame = x39b::Frame::new_unchecked(vec![0x96, 0x01, 0x00, 0x0f, 0x1d]);
    assert_eq!(x39b::Repr::parse(&frame), Err(Error::Invalid));
    let frame = x39b::Frame::new_unchecked(vec![0x96, 0x01, 0x20, 0x0f, 0x1d]);
    assert_eq!(x39b::Repr::parse(&frame), Err(Error::Invalid));
    let frame = x39b::Frame::new_unchecked(vec![0x96, 0x01, 0x0a, 0x18, 0x1d]);
    assert_eq!(x39b::Repr::parse(&frame), Err(Error::Invalid));
    let frame = x39b::Frame::new_unchecked(vec![0x96, 0x01, 0x0a, 0x0f, 0x3c]);
    assert_eq!(x39b::Repr::parse(&frame), Err(Error::Invalid));
    let frame = x39b::Frame::new_unchecked(vec![0x96, 0x01, 0x0a, 0x0f, 0x1d, 0x00]);
    assert_eq!(x39b::Repr::parse(&frame), Err(Error::Overlong));
}

#[test]
fn x39b_round_trip() {
    let repr = x39b::Repr {
        clock_format: ClockFormat::H12,
        utc_datetime: date(2100, 12, 31, 23, 59),
    };
    let mut frame = x39b::Frame::new_unchecked(vec![0xff; 5]);
    repr.emit(&mut frame);
    assert_eq!(x39b::Repr::parse(&frame), Ok(repr));
}

#[test]
fn x3e7_distance_counts_steps_of_20_km() {
    // Negative flag set, 3 steps.
    let frame = x3e7::Frame::new_unchecked(vec![0x08, 0x00, 0x50, 0x00, 0x03]);
    let repr = x3e7::Repr::parse(&frame).unwrap();
    assert_eq!(repr.remaining_distance, -60);
    assert_eq!(repr.remaining_days, 10);
}

#[test]
fn x3e7_round_trip_of_a_positive_distance() {
    let repr = x3e7::Repr {
        distance_counter_display_mode: DisplayMode::Blinking,
        maintenance_wrench_display_mode: DisplayMode::Steady,
        remaining_days: 2047,
        remaining_distance: 0xffff * 20,
    };
    let mut frame = x3e7::Frame::new_unchecked(vec![0xff; 5]);
    repr.emit(&mut frame);
    assert_eq!(x3e7::Repr::parse(&frame), Ok(repr));
}

#[test]
fn x3e7_negative_distance_round_trip() {
    let repr = x3e7::Repr {
        distance_counter_display_mode: DisplayMode::Steady,
        maintenance_wrench_display_mode: DisplayMode::Steady,
        remaining_days: 10,
        remaining_distance: -40,
    };
    let mut frame = x3e7::Frame::new_unchecked(vec![0; 5]);
    repr.emit(&mut frame);
    assert!(frame.distance_counter_negative());
    // The counter holds the size of the distance in 20 km steps.
    assert_eq!(frame.remaining_distance(), 2);
    assert_eq!(frame.remaining_days(), 10);
    assert_eq!(x3e7::Repr::parse(&frame), Ok(repr));
}

#[test]
fn x3e7_emit_keeps_the_bytes_it_parsed() {
    let bytes = vec![0x30, 0xc0, 0x57, 0x12, 0x34];
    let frame = x3e7::Frame::new_unchecked(bytes.clone());
    let repr = x3e7::Repr::parse(&frame).unwrap();
    let mut out = x3e7::Frame::new_unchecked(bytes.clone());
    repr.emit(&mut out);
    assert_eq!(out.into_inner(), bytes);
}

#[test]
fn x2b6_emit_checked_needs_eight_characters() {
    let repr = x2b6::Repr {
        vis: String::try_from("7478").unwrap(),
    };
    let mut frame = x2b6::Frame::new_unchecked(vec![0x41; 8]);
    assert!(!repr.emit_checked(&mut frame));
    assert_eq!(frame.into_inner(), vec![0x41; 8]);
    let repr = x2b6::Repr {
        vis: String::try_from("ABCDEFGH").unwrap(),
    };
    let mut frame = x2b6::Frame::new_unchecked(vec![0; 8]);
    assert!(repr.emit_checked(&mut frame));
    assert_eq!(frame.into_inner(), b"ABCDEFGH".to_vec());
}

#[test]
fn x2b6_round_trip() {
    let frame = x2b6::Frame::new_unchecked(b"VF3XYZ12".to_vec());
    let repr = x2b6::Repr::parse(&frame).unwrap();
    assert_eq!(repr.vis.as_str(), "VF3XYZ12");
    let copy = repr.clone();
    let mut out = x2b6::Frame::new_unchecked(vec![0; 8]);
    copy.emit(&mut out);
    assert_eq!(out.into_inner(), b"VF3XYZ12".to_vec());
}

#[test]
fn x122_buttons_fill_the_bytes_from_the_highest_bit() {
    let frame = x122::Frame::new_unchecked(vec![0x80, 0x01, 0x00, 0x00, 0x00, 0x10, 0x07, 0x09]);
    let repr = x122::Repr::parse(&frame).unwrap();
    for (i, state) in repr.front_panel_buttons_state.iter().enumerate() {
        assert_eq!(*state, i == 0 || i == 15 || i == 43, "button {}", i);
    }
    assert_eq!(repr.front_panel_first_wheel_ticks_counter, 7);
    assert_eq!(repr.front_panel_second_wheel_ticks_counter, 9);
    let mut out = x122::Frame::new_unchecked(vec![0xff; 8]);
    repr.emit(&mut out);
    assert_eq!(out.into_inner(), vec![0x80, 0x01, 0x00, 0x00, 0x00, 0x10, 0x07, 0x09]);
}

#[test]
fn x1a9_emit_keeps_the_bytes_it_parsed() {
    let bytes = vec![0xff, 0xff, 0xff, 0xff, 0xff, 0xff, 0xff, 0xff];
    let frame = x1a9::Frame::new_unchecked(bytes.clone());
    let repr = x1a9::Repr::parse(&frame).unwrap();
    let mut out = x1a9::Frame::new_unchecked(bytes.clone());
    repr.emit(&mut out);
    assert_eq!(out.into_inner(), bytes);
}

#[test]
fn x1a9_setters_replace_their_fields() {
    let mut frame = x1a9::Frame::new_unchecked(vec![0x00, 0x7f, 0xff, 0x00, 0x00, 0x00, 0x00, 0x00]);
    assert_eq!(frame.interactive_message(), 0x7fff);
    frame.set_interactive_message(0x0021);
    assert_eq!(frame.interactive_message(), 0x0021);
    assert_eq!(frame.stop_check_request(), false);
    let mut frame = x1a9::Frame::new_unchecked(vec![0; 8]);
    frame.set_cruise_control_spd_setting_instruction_pos(CruiseControlCustomSettingPosition::Position6);
    frame.set_cruise_control_spd_setting_instruction_pos(CruiseControlCustomSettingPosition::Position1);
    assert_eq!(
        frame.cruise_control_spd_setting_instruction_pos(),
        CruiseControlCustomSettingPosition::Position1
    );
    assert_eq!(frame.into_inner()[5] & 0x8f, 0);
}

#[test]
fn x260_locking_flags_leave_the_frame_unchanged() {
    let bytes = vec![0x86, 0xef, 0x54, 0x55, 0x50, 0x74, 0x55, 0x08];
    let mut frame = x260::Frame::new_unchecked(bytes.clone());
    frame.set_locking_mode_on_coe_enable(false);
    frame.set_auto_door_locking_when_leaving_enable(false);
    frame.set_boot_permanent_locking_enable(false);
    frame.set_auto_door_locking_when_driving_enable(true);
    assert_eq!(frame.into_inner(), bytes);
}

#[test]
fn x15b_emit_keeps_the_bytes_it_parsed() {
    let bytes = vec![0x5a, 0xa5, 0x3c, 0xc3, 0x0f, 0xf0, 0x69, 0x96];
    let frame = x15b::Frame::new_unchecked(bytes.clone());
    let repr = x15b::Repr::parse(&frame).unwrap();
    let mut out = x15b::Frame::new_unchecked(bytes.clone());
    repr.emit(&mut out);
    assert_eq!(out.into_inner(), bytes);
}

#[test]
fn x361_round_trip_through_a_dirty_buffer() {
    let bytes = vec![0xde, 0xad, 0xbe, 0xef, 0x12, 0x34];
    let frame = x361::Frame::new_unchecked(bytes.clone());
    let repr = x361::Repr::parse(&frame).unwrap();
    let mut out = x361::Frame::new_unchecked(vec![0xff; 6]);
    repr.emit(&mut out);
    assert_eq!(x361::Repr::parse(&out), Ok(repr));
}

#[test]
fn x3e7_text() {
    let frame = x3e7::Frame::new_unchecked(vec![0x08, 0x00, 0x50, 0x00, 0x03]);
    assert_eq!(
        frame.to_text(),
        "x3e7\n distance_counter_display_mode=Steady\n maintenance_wrench_display_mode=Steady\n remaining_days=10\n remaining_distance=-60\n"
    );
    let frame = x3e7::Frame::new_unchecked(vec![0x08, 0x00]);
    assert_eq!(frame.to_text(), "x3e7 (truncated packet)");
}

#[test]
fn x276_text() {
    let frame = x276::Frame::new_unchecked(vec![0x96, 0x11, 0x0a, 0x0f, 0x1d, 0x3f, 0xfe]);
    assert_eq!(
        frame.to_text(),
        "x276 clock_format=H24\n clock_disp_mode=Blinking\n utc_datetime=2022-01-10 15:29:00.0 +00:00:00\n adblue_autonomy=16382\n adblue_autonomy_display_request=false\n"
    );
    let frame = x276::Frame::new_unchecked(vec![0x96, 0x10, 0x0a, 0x0f, 0x1d, 0x3f, 0xfe]);
    assert_eq!(frame.to_text(), "x276 (illegal value)");
}

#[test]
fn x2b6_text() {
    let frame = x2b6::Frame::new_unchecked(b"74780248".to_vec());
    assert_eq!(frame.to_text(), "x2b6 vis=74780248");
}

#[test]
fn x122_text_lists_every_button() {
    let frame = x122::Frame::new_unchecked(vec![0x80, 0, 0, 0, 0, 0x10, 0x07, 0x09]);
    let text = frame.to_text();
    assert!(text.starts_with("x122\n front_panel_buttons_state=\n  button_0=true\n  button_1=false\n"));
    assert!(text.contains("  button_43=true\n front_panel_bp_button_state=false\n"));
    assert!(text.ends_with(" front_panel_first_wheel_ticks_counter=7\n front_panel_second_wheel_ticks_counter=9\n"));
}

#[test]
fn x361_text_of_an_overlong_frame() {
    let frame = x361::Frame::new_unchecked(vec![0; 7]);
    assert_eq!(frame.to_text(), "x361 (overlong packet)");
}

#[test]
fn x39b_text_writes_the_date_as_time_does() {
    let frame = x39b::Frame::new_unchecked(vec![0x96, 0x01, 0x0a, 0x09, 0x05]);
    assert_eq!(frame.to_text(), "x39b utc_datetime=2022-01-10 9:05:00.0 clock_format=H24");
    let repr = x39b::Repr {
        clock_format: ClockFormat::H12,
        utc_datetime: date(-45, 3, 15, 0, 0),
    };
    assert_eq!(repr.to_text(), "x39b utc_datetime=-0045-03-15 0:00:00.0 clock_format=H12");
}

#[test]
fn x15b_locking_flags_leave_the_frame_unchanged() {
    let bytes = vec![0x5a, 0xa5, 0x3c, 0xc3, 0x0f, 0xf0, 0x69, 0x96];
    let mut frame = x15b::Frame::new_unchecked(bytes.clone());
    frame.set_locking_mode_on_coe_enable(true);
    frame.set_auto_door_locking_when_leaving_enable(false);
    frame.set_boot_permanent_locking_enable(true);
    frame.set_auto_door_locking_when_driving_enable(true);
    assert_eq!(frame.into_inner(), bytes);
}
