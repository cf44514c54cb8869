//! Decisions of the free-fly camera: which celestial body it is locked on, where that lock makes
//! it look, which way the movement keys push it, and when the cursor is released.

use crate::input::{contains_key, lemma_contains_after_push, Key};
use vstd::prelude::*;

verus! {

/// Plugin of the free-fly camera: each frame, in this order, the lock toggle, mouse look,
/// keyboard movement, aiming at the locked body and cursor release. Its registration with the
/// engine lives with the application, which cannot extend this type.
#[derive(Clone, Copy, Debug, Default)]
pub struct FreeFlyCameraPlugin;

/// Lock modes of the camera.
#[derive(Clone, Copy, Debug, PartialEq, Eq, Hash, Structural)]
pub enum LockMode {
    /// The camera looks where the mouse turns it.
    Free,
    /// The camera keeps looking at the Sun.
    Sun,
    /// The camera keeps looking at Jupiter.
    Jupiter,
}

impl Default for LockMode {
    /// The camera starts free.
    fn default() -> (mode: Self)
        ensures
            mode == LockMode::Free,
    {
        LockMode::Free
    }
}

/// Whether the camera is free or locked on a celestial body.
#[derive(Clone, Copy, Debug)]
pub struct CamLock {
    /// Current lock mode.
    pub mode: LockMode,
}

impl Default for CamLock {
    /// A free camera.
    fn default() -> (lock: Self)
        ensures
            lock.mode == LockMode::Free,
    {
        CamLock { mode: LockMode::Free }
    }
}

/// The mode after pressing `F`: locked on the Sun, or freed when it was locked on the Sun.
pub open spec fn toggled_sun(mode: LockMode) -> LockMode {
    if mode == LockMode::Sun {
        LockMode::Free
    } else {
        LockMode::Sun
    }
}

/// The mode after pressing `J`: locked on Jupiter, or freed when it was locked on Jupiter.
pub open spec fn toggled_jupiter(mode: LockMode) -> LockMode {
    if mode == LockMode::Jupiter {
        LockMode::Free
    } else {
        LockMode::Jupiter
    }
}

/// The mode after a frame in which `F` and/or `J` may have been just pressed: `F` acts first,
/// then `J` acts on the result.
pub open spec fn toggled_mode(mode: LockMode, sun_key: bool, jupiter_key: bool) -> LockMode {
    let after_sun = if sun_key {
        toggled_sun(mode)
    } else {
        mode
    };
    if jupiter_key {
        toggled_jupiter(after_sun)
    } else {
        after_sun
    }
}

/// Switches the lock between free, locked on the Sun (`F`) and locked on Jupiter (`J`), given the
/// keys just pressed in this frame.
pub fn toggle_lock(lock: &mut CamLock, just_pressed: &[Key])
    ensures
        final(lock).mode == toggled_mode(
            old(lock).mode,
            just_pressed@.contains(Key::KeyF),
            just_pressed@.contains(Key::KeyJ),
        ),
{
    if contains_key(just_pressed, Key::KeyF) {
        lock.mode = match lock.mode {
            LockMode::Sun => LockMode::Free,
            _ => LockMode::Sun,
        };
    }
    if contains_key(just_pressed, Key::KeyJ) {
        lock.mode = match lock.mode {
            LockMode::Jupiter => LockMode::Free,
            _ => LockMode::Jupiter,
        };
    }
}

/// Pressing `F` in two frames restores the mode, unless the camera was locked on Jupiter (then
/// the first press moves the lock to the Sun and the second frees it).
pub proof fn sun_toggle_twice_restores(mode: LockMode)
    ensures
        mode != LockMode::Jupiter ==> toggled_mode(toggled_mode(mode, true, false), true, false)
            == mode,
        mode == LockMode::Jupiter ==> toggled_mode(toggled_mode(mode, true, false), true, false)
            == LockMode::Free,
{
}

/// Pressing `J` in two frames restores the mode, unless the camera was locked on the Sun (then the
/// first press moves the lock to Jupiter and the second frees it).
pub proof fn jupiter_toggle_twice_restores(mode: LockMode)
    ensures
        mode != LockMode::Sun ==> toggled_mode(toggled_mode(mode, false, true), false, true)
            == mode,
        mode == LockMode::Sun ==> toggled_mode(toggled_mode(mode, false, true), false, true)
            == LockMode::Free,
{
}

/// A frame without `F` or `J` leaves the lock as it was; `F` alone never locks on Jupiter and
/// `J` alone never locks on the Sun; pressing both in one frame always ends locked on Jupiter or
/// free, the `J` press acting last.
pub proof fn lock_keys_act_independently(mode: LockMode)
    ensures
        toggled_mode(mode, false, false) == mode,
        toggled_mode(mode, true, false) != LockMode::Jupiter,
        toggled_mode(mode, false, true) != LockMode::Sun,
        toggled_mode(mode, true, true) != LockMode::Sun,
{
}

/// The direction that the lock aims at: none when free, else the direction of the body locked on.
pub open spec fn lock_direction<V>(mode: LockMode, sun_dir: V, jupiter_dir: V) -> Option<V> {
    match mode {
        LockMode::Free => None,
        LockMode::Sun => Some(sun_dir),
        LockMode::Jupiter => Some(jupiter_dir),
    }
}

/// Resolves the direction that the current lock aims at, from the directions of the Sun and of
/// Jupiter; `None` when the camera is free, since no direction belongs to that mode.
pub fn resolve_lock_direction<V>(mode: LockMode, sun_dir: V, jupiter_dir: V) -> (direction: Option<V>)
    ensures
        direction == lock_direction(mode, sun_dir, jupiter_dir),
{
    match mode {
        LockMode::Free => None,
        LockMode::Sun => Some(sun_dir),
        LockMode::Jupiter => Some(jupiter_dir),
    }
}

/// A free camera aims at nothing; a camera locked on the Sun aims at the Sun's direction and one
/// locked on Jupiter at Jupiter's, whatever the other body's direction is.
pub proof fn lock_aims_at_the_locked_body<V>(sun_dir: V, jupiter_dir: V, other_dir: V)
    ensures
        lock_direction(LockMode::Free, sun_dir, jupiter_dir) is None,
        lock_direction(LockMode::Sun, sun_dir, jupiter_dir) == Some(sun_dir),
        lock_direction(LockMode::Sun, sun_dir, other_dir) == lock_direction(
            LockMode::Sun,
            sun_dir,
            jupiter_dir,
        ),
        lock_direction(LockMode::Jupiter, sun_dir, jupiter_dir) == Some(jupiter_dir),
        lock_direction(LockMode::Jupiter, other_dir, jupiter_dir) == lock_direction(
            LockMode::Jupiter,
            sun_dir,
            jupiter_dir,
        ),
{
}

/// Which way the held movement keys push the camera, along its own axes, and whether it sprints.
#[derive(Clone, Copy, Debug, PartialEq, Eq, Structural)]
pub struct MovementIntent {
    /// `1` forward, `-1` backward, `0` when `W` and `S` cancel or neither is held.
    pub forward: i8,
    /// `1` to the right, `-1` to the left, `0` when `A` and `D` cancel or neither is held.
    pub right: i8,
    /// `1` up, `-1` down, `0` when space and left control cancel or neither is held.
    pub up: i8,
    /// Whether left shift is held, multiplying the speed.
    pub sprint: bool,
}

/// `1` when only the positive key is held, `-1` when only the negative one is, else `0`.
pub open spec fn axis(keys: Seq<Key>, positive: Key, negative: Key) -> int {
    (if keys.contains(positive) {
        1int
    } else {
        0int
    }) - (if keys.contains(negative) {
        1int
    } else {
        0int
    })
}

/// One axis of movement from the keys held.
fn movement_axis(pressed: &[Key], positive: Key, negative: Key) -> (value: i8)
    ensures
        value == axis(pressed@, positive, negative),
{
    let mut value: i8 = 0;
    if contains_key(pressed, positive) {
        value = value + 1;
    }
    if contains_key(pressed, negative) {
        value = value - 1;
    }
    value
}

/// The movement intent of the keys held: `W`/`S` forward and back, `D`/`A` right and left,
/// space and left control up and down, left shift to sprint.
pub fn keyboard_movement_intent(pressed: &[Key]) -> (intent: MovementIntent)
    ensures
        intent.forward == axis(pressed@, Key::KeyW, Key::KeyS),
        intent.right == axis(pressed@, Key::KeyD, Key::KeyA),
        intent.up == axis(pressed@, Key::Space, Key::ControlLeft),
        intent.sprint == pressed@.contains(Key::ShiftLeft),
{
    MovementIntent {
        forward: movement_axis(pressed, Key::KeyW, Key::KeyS),
        right: movement_axis(pressed, Key::KeyD, Key::KeyA),
        up: movement_axis(pressed, Key::Space, Key::ControlLeft),
        sprint: contains_key(pressed, Key::ShiftLeft),
    }
}

impl MovementIntent {
    /// Whether the keys push the camera at all.
    pub fn is_idle(&self) -> (idle: bool)
        ensures
            idle == (self.forward == 0 && self.right == 0 && self.up == 0),
    {
        self.forward == 0 && self.right == 0 && self.up == 0
    }
}

/// Each movement axis follows its own two keys and nothing else: forward is `1` when `W` is held
/// without `S`, `-1` when `S` is held without `W`, and `0` otherwise; right likewise with `D`/`A`
/// and up with space/left control.
pub proof fn movement_axes_follow_their_keys(keys: Seq<Key>)
    ensures
        axis(keys, Key::KeyW, Key::KeyS) == (if keys.contains(Key::KeyW) && !keys.contains(
            Key::KeyS,
        ) {
            1int
        } else if keys.contains(Key::KeyS) && !keys.contains(Key::KeyW) {
            -1int
        } else {
            0int
        }),
        axis(keys, Key::KeyD, Key::KeyA) == (if keys.contains(Key::KeyD) && !keys.contains(
            Key::KeyA,
        ) {
            1int
        } else if keys.contains(Key::KeyA) && !keys.contains(Key::KeyD) {
            -1int
        } else {
            0int
        }),
        axis(keys, Key::Space, Key::ControlLeft) == (if keys.contains(Key::Space)
            && !keys.contains(Key::ControlLeft) {
            1int
        } else if keys.contains(Key::ControlLeft) && !keys.contains(Key::Space) {
            -1int
        } else {
            0int
        }),
{
}

/// Holding any other key (sprint, a key of another axis, a lock key) leaves an axis unchanged:
/// adding a key that is neither of an axis's two keys to the keys held gives the same value.
pub proof fn other_keys_leave_movement_axis_unchanged(
    keys: Seq<Key>,
    positive: Key,
    negative: Key,
    other: Key,
)
    requires
        other != positive,
        other != negative,
    ensures
        axis(keys.push(other), positive, negative) == axis(keys, positive, negative),
{
    lemma_contains_after_push(keys, other, positive);
    lemma_contains_after_push(keys, other, negative);
}

/// Sprinting changes the speed, never the direction: adding left shift to the keys held leaves
/// all three axes as they were and turns sprint on.
pub proof fn sprint_keeps_direction(keys: Seq<Key>)
    ensures
        axis(keys.push(Key::ShiftLeft), Key::KeyW, Key::KeyS) == axis(keys, Key::KeyW, Key::KeyS),
        axis(keys.push(Key::ShiftLeft), Key::KeyD, Key::KeyA) == axis(keys, Key::KeyD, Key::KeyA),
        axis(keys.push(Key::ShiftLeft), Key::Space, Key::ControlLeft) == axis(
            keys,
            Key::Space,
            Key::ControlLeft,
        ),
        keys.push(Key::ShiftLeft).contains(Key::ShiftLeft),
{
    other_keys_leave_movement_axis_unchanged(keys, Key::KeyW, Key::KeyS, Key::ShiftLeft);
    other_keys_leave_movement_axis_unchanged(keys, Key::KeyD, Key::KeyA, Key::ShiftLeft);
    other_keys_leave_movement_axis_unchanged(keys, Key::Space, Key::ControlLeft, Key::ShiftLeft);
    lemma_contains_after_push(keys, Key::ShiftLeft, Key::ShiftLeft);
}

/// The lock keys act as documented from every mode: `F` alone locks on the Sun, or frees a camera
/// locked on the Sun; `J` alone locks on Jupiter, or frees a camera locked on Jupiter.
pub proof fn lock_keys_outcomes()
    ensures
        toggled_mode(LockMode::Free, true, false) == LockMode::Sun,
        toggled_mode(LockMode::Sun, true, false) == LockMode::Free,
        toggled_mode(LockMode::Jupiter, true, false) == LockMode::Sun,
        toggled_mode(LockMode::Free, false, true) == LockMode::Jupiter,
        toggled_mode(LockMode::Jupiter, false, true) == LockMode::Free,
        toggled_mode(LockMode::Sun, false, true) == LockMode::Jupiter,
{
}

/// Whether the cursor is released this frame: when escape was just pressed.
pub fn cursor_release(just_pressed: &[Key]) -> (release: bool)
    ensures
        release == just_pressed@.contains(Key::Escape),
{
    contains_key(just_pressed, Key::Escape)
}

} // verus!
