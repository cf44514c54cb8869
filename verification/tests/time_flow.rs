use eigc::input::Key;
use eigc::sim::{handle_time_flow_keyboard_controls, SimSet};

#[test]
fn keyboard_control_sets_expected_time_scale() {
    let new_time_scale = handle_time_flow_keyboard_controls(&[Key::Digit2]);
    let time_scale = new_time_scale.map(|scale| scale as f32).unwrap_or(1000.0);
    assert_eq!(
        time_scale, 600.0,
        "pressionar Digit2 deveria ajustar time_scale para 600.0, mas foi {}",
        time_scale
    );
}

#[test]
fn each_preset_key_selects_its_time_scale() {
    assert_eq!(handle_time_flow_keyboard_controls(&[Key::Digit0]), Some(0));
    assert_eq!(handle_time_flow_keyboard_controls(&[Key::Numpad0]), Some(0));
    assert_eq!(handle_time_flow_keyboard_controls(&[Key::Digit1]), Some(1));
    assert_eq!(handle_time_flow_keyboard_controls(&[Key::Numpad2]), Some(600));
    assert_eq!(handle_time_flow_keyboard_controls(&[Key::Digit3]), Some(1200));
    assert_eq!(handle_time_flow_keyboard_controls(&[Key::Numpad4]), Some(5000));
}

#[test]
fn highest_preset_pressed_wins_regardless_of_order() {
    assert_eq!(handle_time_flow_keyboard_controls(&[Key::Digit3, Key::Numpad1]), Some(1200));
    assert_eq!(handle_time_flow_keyboard_controls(&[Key::Numpad1, Key::Digit3]), Some(1200));
    assert_eq!(handle_time_flow_keyboard_controls(&[Key::Digit0, Key::Digit4]), Some(5000));
}

#[test]
fn no_preset_key_leaves_time_scale_unchanged() {
    assert_eq!(handle_time_flow_keyboard_controls(&[]), None);
    assert_eq!(handle_time_flow_keyboard_controls(&[Key::KeyW, Key::Escape]), None);
}

#[test]
fn sim_sets_are_distinct() {
    assert_ne!(SimSet::Advance, SimSet::Animate);
}
