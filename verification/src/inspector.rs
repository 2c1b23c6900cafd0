//! Visibility of the debug inspector overlay, driven by a keyboard hotkey.

use bevy::input::keyboard::KeyCode;
use bevy::input::Input;
use std::hash::Hash;
use vstd::prelude::*;

verus! {

/// `bevy::input::Input`: the record of which inputs are down, which went
/// down during the current frame and which went up during it. The verifier
/// does not look inside; what it holds is spoken of through
/// `just_pressed_keys`.
#[verifier::external_type_specification]
#[verifier::external_body]
#[verifier::reject_recursive_types(T)]
pub struct ExInput<T: Eq + Hash>(Input<T>);

/// `bevy::input::keyboard::KeyCode`: the names of the keys, an enum without
/// fields. It is declared with its variants, so that verified code can name
/// a key.
#[verifier::external_type_specification]
pub struct ExKeyCode(KeyCode);

/// The keys that `input` holds as pressed during the current frame.
pub uninterp spec fn just_pressed_keys(input: Input<KeyCode>) -> Set<KeyCode>;

/// `Input::just_pressed`: whether `key` is among the keys that `input` holds
/// as pressed during the current frame. The claim is taken from bevy's
/// source, where the method is a membership test on that set of keys; it is
/// not proved.
#[verifier::external_body]
fn just_pressed(input: &Input<KeyCode>, key: KeyCode) -> (pressed: bool)
    ensures
        pressed == just_pressed_keys(*input).contains(key),
{
    input.just_pressed(key)
}

/// The key that shows and hides the inspector.
pub open spec fn hotkey() -> KeyCode {
    KeyCode::Grave
}

/// The overlay's visibility after a frame: flipped when the hotkey went down
/// during that frame, unchanged otherwise.
pub open spec fn toggled(enabled: bool, hotkey_just_pressed: bool) -> bool {
    enabled != hotkey_just_pressed
}

/// Applies one frame's hotkey state to the overlay's visibility.
pub fn apply_hotkey(hotkey_just_pressed: bool, enabled: &mut bool)
    ensures
        *final(enabled) == toggled(*old(enabled), hotkey_just_pressed),
{
    if hotkey_just_pressed {
        *enabled = !*enabled;
    }
}

/// Flips the overlay's visibility when the hotkey went down during the
/// frame that `input` records, and leaves it as it is otherwise.
pub fn toggle_inspector(input: &Input<KeyCode>, enabled: &mut bool)
    ensures
        *final(enabled) == toggled(*old(enabled), just_pressed_keys(*input).contains(hotkey())),
{
    let pressed = just_pressed(input, KeyCode::Grave);
    apply_hotkey(pressed, enabled);
}

/// A frame without the hotkey leaves the visibility alone, a frame with it
/// changes the visibility, and two frames with it bring the first
/// visibility back.
pub proof fn lemma_toggle_is_involution(enabled: bool)
    ensures
        toggled(enabled, false) == enabled,
        toggled(enabled, true) != enabled,
        toggled(toggled(enabled, true), true) == enabled,
{
}

} // verus!
