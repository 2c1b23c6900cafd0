use bevy::input::keyboard::KeyCode;
use bevy::input::Input;
use quad_material::inspector::{apply_hotkey, toggle_inspector};

fn frame_with(keys: &[KeyCode]) -> Input<KeyCode> {
    let mut input: Input<KeyCode> = Input::default();
    for key in keys {
        input.press(*key);
    }
    input
}

#[test]
fn hotkey_press_shows_hidden_inspector() {
    let input = frame_with(&[KeyCode::Grave]);
    let mut enabled = false;
    toggle_inspector(&input, &mut enabled);
    assert!(enabled);
}

#[test]
fn hotkey_press_hides_shown_inspector() {
    let input = frame_with(&[KeyCode::Grave]);
    let mut enabled = true;
    toggle_inspector(&input, &mut enabled);
    assert!(!enabled);
}

#[test]
fn quiet_frame_keeps_visibility() {
    let input = frame_with(&[]);
    let mut enabled = false;
    toggle_inspector(&input, &mut enabled);
    assert!(!enabled);
    enabled = true;
    toggle_inspector(&input, &mut enabled);
    assert!(enabled);
}

#[test]
fn other_keys_do_not_toggle() {
    let input = frame_with(&[KeyCode::Escape, KeyCode::Space, KeyCode::Apostrophe, KeyCode::Key1]);
    let mut enabled = false;
    toggle_inspector(&input, &mut enabled);
    assert!(!enabled);
    enabled = true;
    toggle_inspector(&input, &mut enabled);
    assert!(enabled);
}

#[test]
fn hotkey_among_other_keys_toggles() {
    let input = frame_with(&[KeyCode::A, KeyCode::Grave, KeyCode::LShift]);
    let mut enabled = false;
    toggle_inspector(&input, &mut enabled);
    assert!(enabled);
}

#[test]
fn held_hotkey_toggles_once() {
    let mut input = frame_with(&[KeyCode::Grave]);
    let mut enabled = false;
    toggle_inspector(&input, &mut enabled);
    assert!(enabled);
    // The next frame begins: the key is still down, but no longer just pressed.
    input.clear();
    assert!(input.pressed(KeyCode::Grave));
    toggle_inspector(&input, &mut enabled);
    assert!(enabled);
    // Pressing a key that is already down is no new press.
    input.press(KeyCode::Grave);
    toggle_inspector(&input, &mut enabled);
    assert!(enabled);
}

#[test]
fn released_hotkey_does_not_toggle() {
    let mut input = frame_with(&[KeyCode::Grave]);
    input.clear();
    input.release(KeyCode::Grave);
    assert!(input.just_released(KeyCode::Grave));
    let mut enabled = true;
    toggle_inspector(&input, &mut enabled);
    assert!(enabled);
}

#[test]
fn hotkey_pressed_and_released_in_one_frame_toggles() {
    let mut input = frame_with(&[KeyCode::Grave]);
    input.release(KeyCode::Grave);
    let mut enabled = false;
    toggle_inspector(&input, &mut enabled);
    assert!(enabled);
}

#[test]
fn second_press_restores_visibility() {
    let mut input: Input<KeyCode> = Input::default();
    let mut enabled = false;
    for expected in [true, false, true, false] {
        input.press(KeyCode::Grave);
        toggle_inspector(&input, &mut enabled);
        assert_eq!(enabled, expected);
        input.release(KeyCode::Grave);
        input.clear();
    }
}

#[test]
fn same_frame_read_twice_toggles_twice() {
    let input = frame_with(&[KeyCode::Grave]);
    let mut enabled = false;
    toggle_inspector(&input, &mut enabled);
    toggle_inspector(&input, &mut enabled);
    assert!(!enabled);
}

#[test]
fn apply_hotkey_truth_table() {
    for (pressed, before, after) in [
        (false, false, false),
        (false, true, true),
        (true, false, true),
        (true, true, false),
    ] {
        let mut enabled = before;
        apply_hotkey(pressed, &mut enabled);
        assert_eq!(enabled, after);
    }
}
