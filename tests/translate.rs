use opendeck_ajazz_n1::inputs::{
    process_input_n1, read_button_press_n1, read_button_states, translate, EncoderCodes,
    LogicalEvent, UnknownInput, N1_DIAL_PRESS, N1_DIAL_ROTATE_CCW, N1_DIAL_ROTATE_CW,
    N1_FACE_BUTTON_LEFT, N1_FACE_BUTTON_RIGHT,
};
use opendeck_ajazz_n1::keymap::device_to_opendeck_n1;

fn buttons(ev: LogicalEvent) -> Vec<bool> {
    match ev {
        LogicalEvent::ButtonStateChange(v) => v,
        other => panic!("expected a button snapshot, got {:?}", other),
    }
}

#[test]
fn face_presses_accumulate_in_encoder_state() {
    let mut state = vec![false, false, false];
    let first = process_input_n1(N1_FACE_BUTTON_LEFT, 1, &mut state).unwrap();
    assert_eq!(first, LogicalEvent::EncoderStateChange(vec![true, false, false]));
    let second = process_input_n1(N1_FACE_BUTTON_RIGHT, 1, &mut state).unwrap();
    assert_eq!(second, LogicalEvent::EncoderStateChange(vec![true, true, false]));
    assert_eq!(state, vec![true, true, false]);
}

#[test]
fn face_release_clears_only_its_slot() {
    let mut state = vec![true, true, false];
    let ev = process_input_n1(N1_FACE_BUTTON_LEFT, 0, &mut state).unwrap();
    assert_eq!(ev, LogicalEvent::EncoderStateChange(vec![false, true, false]));
}

#[test]
fn dial_press_sets_third_slot() {
    let mut state = vec![false, true, false];
    let ev = process_input_n1(N1_DIAL_PRESS, 7, &mut state).unwrap();
    assert_eq!(ev, LogicalEvent::EncoderStateChange(vec![false, true, true]));
}

#[test]
fn dial_rotation_is_a_unit_twist_and_keeps_state() {
    let mut state = vec![true, false, true];
    let ccw = process_input_n1(N1_DIAL_ROTATE_CCW, 1, &mut state).unwrap();
    assert_eq!(ccw, LogicalEvent::EncoderTwist(vec![0, 0, -1]));
    assert_eq!(state, vec![true, false, true]);
    let cw = process_input_n1(N1_DIAL_ROTATE_CW, 0, &mut state).unwrap();
    assert_eq!(cw, LogicalEvent::EncoderTwist(vec![0, 0, 1]));
    assert_eq!(state, vec![true, false, true]);
}

#[test]
fn grid_code_five_sets_one_logical_slot() {
    let mut state = vec![false, false, false];
    let v = buttons(process_input_n1(5, 1, &mut state).unwrap());
    assert_eq!(v.len(), 18);
    assert_eq!(v.iter().filter(|b| **b).count(), 1);
    assert!(v[device_to_opendeck_n1(5)]);
    assert!(v[7]);
}

#[test]
fn grid_release_is_all_false() {
    let mut state = vec![false, false, false];
    let v = buttons(process_input_n1(16, 0, &mut state).unwrap());
    assert_eq!(v, vec![false; 18]);
}

#[test]
fn top_lcd_codes_land_in_first_row() {
    let mut state = vec![false, false, false];
    for (code, slot) in [(16u8, 0usize), (17, 1), (18, 2), (1, 3), (15, 17)] {
        let v = buttons(process_input_n1(code, 1, &mut state).unwrap());
        let mut expected = vec![false; 18];
        expected[slot] = true;
        assert_eq!(v, expected);
    }
}

#[test]
fn sync_code_is_all_released() {
    let mut state = vec![true, false, false];
    let v = buttons(process_input_n1(0, 1, &mut state).unwrap());
    assert_eq!(v, vec![false; 18]);
    assert_eq!(state, vec![true, false, false]);
}

#[test]
fn unknown_codes_are_rejected_without_change() {
    for code in [19u8, 29, 32, 34, 36, 49, 52, 200, 255] {
        let mut state = vec![true, false, true];
        assert_eq!(process_input_n1(code, 1, &mut state), Err(UnknownInput { code }));
        assert_eq!(state, vec![true, false, true]);
    }
}

#[test]
fn translate_with_custom_codes() {
    let codes = EncoderCodes { press: vec![40, 41], ccw: vec![60, 0], cw: vec![61, 0] };
    let mut state = vec![false, false];
    assert_eq!(
        translate(&codes, 41, 1, &mut state),
        Ok(LogicalEvent::EncoderStateChange(vec![false, true]))
    );
    assert_eq!(translate(&codes, 60, 1, &mut state), Ok(LogicalEvent::EncoderTwist(vec![-1, 0])));
    assert_eq!(translate(&codes, 61, 1, &mut state), Ok(LogicalEvent::EncoderTwist(vec![1, 0])));
    assert_eq!(translate(&codes, 30, 1, &mut state), Err(UnknownInput { code: 30 }));
    assert_eq!(state, vec![false, true]);
}

#[test]
fn n1_codes_table() {
    let codes = EncoderCodes::n1();
    assert_eq!(codes.press, vec![30, 31, 35]);
    assert_eq!(codes.ccw, vec![0, 0, 50]);
    assert_eq!(codes.cw, vec![0, 0, 51]);
}

#[test]
fn read_button_states_skips_header_and_pads() {
    assert_eq!(read_button_states(&[1, 0, 5, 0], 5), vec![false, true, false, false, false]);
    assert_eq!(read_button_states(&[], 2), vec![false, false]);
    assert_eq!(read_button_states(&[9, 1], 0), Vec::<bool>::new());
}

#[test]
fn read_button_press_maps_code() {
    let v = buttons(read_button_press_n1(2, 1));
    let mut expected = vec![false; 18];
    expected[4] = true;
    assert_eq!(v, expected);
}

#[test]
fn read_button_press_outside_grid_is_released() {
    assert_eq!(buttons(read_button_press_n1(0, 1)), vec![false; 18]);
    assert_eq!(buttons(read_button_press_n1(30, 1)), vec![false; 18]);
}
