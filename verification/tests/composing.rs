use morse_frames::frame::{blank_frame, instrument_frame, lamp_frame, InstrumentDraws};

#[test]
fn picks_are_placed_on_the_active_channels() {
    let draws = InstrumentDraws {
        picks: vec![
            None,
            Some(0),
            None,
            Some(2),
            None,
            None,
            Some(1),
            None,
            None,
            None,
            None,
            Some(0),
        ],
        forced: None,
    };
    assert_eq!(instrument_frame(1, 12, &draws), "<01030020000100000000000000>\n");

    let draws = InstrumentDraws {
        picks: vec![Some(3), None, None, Some(0), None, Some(2), Some(1), None],
        forced: None,
    };
    assert_eq!(instrument_frame(13, 20, &draws), "<00000000000040010320000000>\n");
}

#[test]
fn a_silent_frame_gets_its_forced_channel() {
    let draws = InstrumentDraws { picks: vec![None; 12], forced: Some((5, 1)) };
    assert_eq!(instrument_frame(1, 12, &draws), "<00002000000000000000000000>\n");
    let draws = InstrumentDraws { picks: vec![None; 12], forced: Some((12, 2)) };
    assert_eq!(instrument_frame(1, 12, &draws), "<00000000000300000000000000>\n");
    let draws = InstrumentDraws { picks: vec![None; 8], forced: Some((13, 3)) };
    assert_eq!(instrument_frame(13, 20, &draws), "<00000000000040000000000000>\n");
    let draws = InstrumentDraws { picks: vec![None; 8], forced: Some((20, 0)) };
    assert_eq!(instrument_frame(13, 20, &draws), "<00000000000000000001000000>\n");
}

#[test]
fn nothing_is_forced_on_a_frame_that_sounds() {
    let mut picks = vec![None; 12];
    picks[11] = Some(0);
    let draws = InstrumentDraws { picks, forced: Some((1, 2)) };
    assert_eq!(instrument_frame(1, 12, &draws), "<00000000000100000000000000>\n");
}

#[test]
fn without_picks_and_forced_channel_the_frame_stays_silent() {
    let draws = InstrumentDraws { picks: vec![None; 8], forced: None };
    assert_eq!(instrument_frame(13, 20, &draws), "<00000000000000000000000000>\n");
}

#[test]
fn a_single_channel_can_be_the_active_zone() {
    let draws = InstrumentDraws { picks: vec![Some(1)], forced: None };
    assert_eq!(instrument_frame(7, 7, &draws), "<00000020000000000000000000>\n");
}

#[test]
fn lit_lamps_carry_the_marker() {
    assert_eq!(
        lamp_frame('1', &[true, false, false, true, true, false]),
        "<00000000000000000000100110>\n"
    );
    assert_eq!(lamp_frame('2', &[true; 6]), "<00000000000000000000222222>\n");
    assert_eq!(lamp_frame('2', &[false; 6]), "<00000000000000000000000000>\n");
    assert_eq!(
        lamp_frame('1', &[false, false, false, false, false, true]),
        "<00000000000000000000000001>\n"
    );
}

#[test]
fn the_blank_frame_is_all_zero() {
    let frame = blank_frame();
    assert_eq!(frame, "<00000000000000000000000000>\n");
    assert_eq!(frame.chars().count(), 29);
}
