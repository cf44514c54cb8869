//! Passage of simulated time: the system sets that order advancing the clock before animating
//! from it, and the keyboard presets that choose how fast simulated time flows.

use crate::input::{contains_key, lemma_contains_after_push, Key};
use vstd::prelude::*;

verus! {

/// Groups the systems related to advancing time.
#[derive(Clone, Copy, Debug, PartialEq, Eq, Hash, Structural)]
pub enum SimSet {
    /// Systems that advance the simulation clock.
    Advance,
    /// Systems that read the simulation clock to animate something.
    Animate,
}

/// Plugin that registers the simulation clock, its time flow and the systems that advance and
/// control them, ordering `SimSet::Advance` before `SimSet::Animate`. Its registration with the
/// engine lives with the application, which cannot extend this type.
#[derive(Clone, Copy, Debug, Default)]
pub struct TimeFlowPlugin;

/// Time scale of preset `0`: the simulation is paused.
pub const TIME_SCALE_PAUSED: u32 = 0;

/// Time scale of preset `1`: real time.
pub const TIME_SCALE_REAL_TIME: u32 = 1;

/// Time scale of preset `2`: ten simulated minutes per second.
pub const TIME_SCALE_FAST: u32 = 600;

/// Time scale of preset `3`: twenty simulated minutes per second.
pub const TIME_SCALE_FASTER: u32 = 1200;

/// Time scale of preset `4`.
pub const TIME_SCALE_FASTEST: u32 = 5000;

/// Whether a preset key was pressed, on the digit row or on the numeric keypad.
pub open spec fn preset_pressed(keys: Seq<Key>, digit: Key, numpad: Key) -> bool {
    keys.contains(digit) || keys.contains(numpad)
}

/// The time scale that a frame's just-pressed keys select: the preset of the highest digit
/// pressed (on either the digit row or the keypad), or none when no preset key was pressed.
pub open spec fn selected_time_scale(keys: Seq<Key>) -> Option<u32> {
    if preset_pressed(keys, Key::Digit4, Key::Numpad4) {
        Some(TIME_SCALE_FASTEST)
    } else if preset_pressed(keys, Key::Digit3, Key::Numpad3) {
        Some(TIME_SCALE_FASTER)
    } else if preset_pressed(keys, Key::Digit2, Key::Numpad2) {
        Some(TIME_SCALE_FAST)
    } else if preset_pressed(keys, Key::Digit1, Key::Numpad1) {
        Some(TIME_SCALE_REAL_TIME)
    } else if preset_pressed(keys, Key::Digit0, Key::Numpad0) {
        Some(TIME_SCALE_PAUSED)
    } else {
        None
    }
}

/// Whether a preset key was just pressed on the digit row or on the keypad.
fn preset_key_pressed(just_pressed: &[Key], digit: Key, numpad: Key) -> (pressed: bool)
    ensures
        pressed == preset_pressed(just_pressed@, digit, numpad),
{
    contains_key(just_pressed, digit) || contains_key(just_pressed, numpad)
}

/// Applies the time-flow keyboard controls of one frame: each preset key just pressed sets its
/// time scale, in the order `0`, `1`, `2`, `3`, `4`, so that the highest one wins. Returns the
/// new time scale, or `None` when no preset key was pressed and the time scale stays as it was.
pub fn handle_time_flow_keyboard_controls(just_pressed: &[Key]) -> (new_time_scale: Option<u32>)
    ensures
        new_time_scale == selected_time_scale(just_pressed@),
{
    let mut time_scale: Option<u32> = None;
    if preset_key_pressed(just_pressed, Key::Digit0, Key::Numpad0) {
        time_scale = Some(TIME_SCALE_PAUSED);
    }
    if preset_key_pressed(just_pressed, Key::Digit1, Key::Numpad1) {
        time_scale = Some(TIME_SCALE_REAL_TIME);
    }
    if preset_key_pressed(just_pressed, Key::Digit2, Key::Numpad2) {
        time_scale = Some(TIME_SCALE_FAST);
    }
    if preset_key_pressed(just_pressed, Key::Digit3, Key::Numpad3) {
        time_scale = Some(TIME_SCALE_FASTER);
    }
    if preset_key_pressed(just_pressed, Key::Digit4, Key::Numpad4) {
        time_scale = Some(TIME_SCALE_FASTEST);
    }
    time_scale
}

/// The time scale of each preset follows the keys pressed, read on the digit row and the keypad
/// alike: if a `4` key is pressed the scale is `TIME_SCALE_FASTEST`; else if a `3` key is pressed it
/// is `TIME_SCALE_FASTER`; else if a `2` key, `TIME_SCALE_FAST`; else if a `1` key,
/// `TIME_SCALE_REAL_TIME`; else if a `0` key, `TIME_SCALE_PAUSED`; and with no preset key pressed
/// the scale is left unchanged.
pub proof fn time_scale_follows_highest_preset_key(keys: Seq<Key>)
    ensures
        keys.contains(Key::Digit4) || keys.contains(Key::Numpad4) ==> selected_time_scale(keys)
            == Some(5000u32),
        !keys.contains(Key::Digit4) && !keys.contains(Key::Numpad4) && (keys.contains(Key::Digit3)
            || keys.contains(Key::Numpad3)) ==> selected_time_scale(keys) == Some(1200u32),
        !keys.contains(Key::Digit4) && !keys.contains(Key::Numpad4) && !keys.contains(Key::Digit3)
            && !keys.contains(Key::Numpad3) && (keys.contains(Key::Digit2) || keys.contains(
            Key::Numpad2,
        )) ==> selected_time_scale(keys) == Some(600u32),
        !keys.contains(Key::Digit4) && !keys.contains(Key::Numpad4) && !keys.contains(Key::Digit3)
            && !keys.contains(Key::Numpad3) && !keys.contains(Key::Digit2) && !keys.contains(
            Key::Numpad2,
        ) && (keys.contains(Key::Digit1) || keys.contains(Key::Numpad1)) ==> selected_time_scale(
            keys,
        ) == Some(1u32),
        !keys.contains(Key::Digit4) && !keys.contains(Key::Numpad4) && !keys.contains(Key::Digit3)
            && !keys.contains(Key::Numpad3) && !keys.contains(Key::Digit2) && !keys.contains(
            Key::Numpad2,
        ) && !keys.contains(Key::Digit1) && !keys.contains(Key::Numpad1) && (keys.contains(
            Key::Digit0,
        ) || keys.contains(Key::Numpad0)) ==> selected_time_scale(keys) == Some(0u32),
        !keys.contains(Key::Digit4) && !keys.contains(Key::Numpad4) && !keys.contains(Key::Digit3)
            && !keys.contains(Key::Numpad3) && !keys.contains(Key::Digit2) && !keys.contains(
            Key::Numpad2,
        ) && !keys.contains(Key::Digit1) && !keys.contains(Key::Numpad1) && !keys.contains(
            Key::Digit0,
        ) && !keys.contains(Key::Numpad0) ==> selected_time_scale(keys) is None,
{
}

/// The keypad and the digit row are interchangeable: adding the keypad key of a preset to a
/// frame's keys selects the same time scale as adding the digit-row key of the same preset.
pub proof fn keypad_and_digit_row_select_the_same_scale(keys: Seq<Key>)
    ensures
        selected_time_scale(keys.push(Key::Numpad0)) == selected_time_scale(keys.push(Key::Digit0)),
        selected_time_scale(keys.push(Key::Numpad1)) == selected_time_scale(keys.push(Key::Digit1)),
        selected_time_scale(keys.push(Key::Numpad2)) == selected_time_scale(keys.push(Key::Digit2)),
        selected_time_scale(keys.push(Key::Numpad3)) == selected_time_scale(keys.push(Key::Digit3)),
        selected_time_scale(keys.push(Key::Numpad4)) == selected_time_scale(keys.push(Key::Digit4)),
{
    assert forall|added: Key, key: Key| #[trigger] keys.push(added).contains(key) <==> (
    keys.contains(key) || key == added) by {
        lemma_contains_after_push(keys, added, key);
    }
    time_scale_follows_highest_preset_key(keys.push(Key::Numpad0));
    time_scale_follows_highest_preset_key(keys.push(Key::Digit0));
    time_scale_follows_highest_preset_key(keys.push(Key::Numpad1));
    time_scale_follows_highest_preset_key(keys.push(Key::Digit1));
    time_scale_follows_highest_preset_key(keys.push(Key::Numpad2));
    time_scale_follows_highest_preset_key(keys.push(Key::Digit2));
    time_scale_follows_highest_preset_key(keys.push(Key::Numpad3));
    time_scale_follows_highest_preset_key(keys.push(Key::Digit3));
    time_scale_follows_highest_preset_key(keys.push(Key::Numpad4));
    time_scale_follows_highest_preset_key(keys.push(Key::Digit4));
}

/// Pressing a single preset key selects that preset's time scale, whether it is on the digit row
/// or on the keypad.
pub proof fn single_preset_key_selects_its_scale()
    ensures
        selected_time_scale(seq![Key::Digit0]) == Some(0u32),
        selected_time_scale(seq![Key::Numpad0]) == Some(0u32),
        selected_time_scale(seq![Key::Digit1]) == Some(1u32),
        selected_time_scale(seq![Key::Numpad1]) == Some(1u32),
        selected_time_scale(seq![Key::Digit2]) == Some(600u32),
        selected_time_scale(seq![Key::Numpad2]) == Some(600u32),
        selected_time_scale(seq![Key::Digit3]) == Some(1200u32),
        selected_time_scale(seq![Key::Numpad3]) == Some(1200u32),
        selected_time_scale(seq![Key::Digit4]) == Some(5000u32),
        selected_time_scale(seq![Key::Numpad4]) == Some(5000u32),
{
    assert forall|only: Key, key: Key| #[trigger] seq![only].contains(key) <==> key == only by {
        lemma_contains_after_push(Seq::<Key>::empty(), only, key);
        assert(Seq::<Key>::empty().push(only) =~= seq![only]);
    }
    time_scale_follows_highest_preset_key(seq![Key::Digit0]);
    time_scale_follows_highest_preset_key(seq![Key::Numpad0]);
    time_scale_follows_highest_preset_key(seq![Key::Digit1]);
    time_scale_follows_highest_preset_key(seq![Key::Numpad1]);
    time_scale_follows_highest_preset_key(seq![Key::Digit2]);
    time_scale_follows_highest_preset_key(seq![Key::Numpad2]);
    time_scale_follows_highest_preset_key(seq![Key::Digit3]);
    time_scale_follows_highest_preset_key(seq![Key::Numpad3]);
    time_scale_follows_highest_preset_key(seq![Key::Digit4]);
    time_scale_follows_highest_preset_key(seq![Key::Numpad4]);
}

} // verus!
