use eigc::camera::{
    cursor_release, keyboard_movement_intent, resolve_lock_direction, toggle_lock, CamLock,
    LockMode, MovementIntent,
};
use eigc::input::{contains_key, Key};

#[test]
fn resolve_lock_direction_returns_body_direction() {
    let sun_dir = [1.0_f32, 0.0, 0.0];
    let jupiter_dir = [0.0_f32, 0.0, 1.0];

    assert_eq!(resolve_lock_direction(LockMode::Free, sun_dir, jupiter_dir), None);
    assert_eq!(
        resolve_lock_direction(LockMode::Sun, sun_dir, jupiter_dir),
        Some([1.0, 0.0, 0.0])
    );
    assert_eq!(
        resolve_lock_direction(LockMode::Jupiter, sun_dir, jupiter_dir),
        Some([0.0, 0.0, 1.0])
    );
}

fn toggled(mode: LockMode, keys: &[Key]) -> LockMode {
    let mut lock = CamLock { mode };
    toggle_lock(&mut lock, keys);
    lock.mode
}

#[test]
fn camera_lock_starts_free() {
    assert_eq!(CamLock::default().mode, LockMode::Free);
    assert_eq!(LockMode::default(), LockMode::Free);
}

#[test]
fn f_locks_on_the_sun_and_frees_again() {
    assert_eq!(toggled(LockMode::Free, &[Key::KeyF]), LockMode::Sun);
    assert_eq!(toggled(LockMode::Sun, &[Key::KeyF]), LockMode::Free);
    assert_eq!(toggled(LockMode::Jupiter, &[Key::KeyF]), LockMode::Sun);
}

#[test]
fn j_locks_on_jupiter_and_frees_again() {
    assert_eq!(toggled(LockMode::Free, &[Key::KeyJ]), LockMode::Jupiter);
    assert_eq!(toggled(LockMode::Jupiter, &[Key::KeyJ]), LockMode::Free);
    assert_eq!(toggled(LockMode::Sun, &[Key::KeyJ]), LockMode::Jupiter);
}

#[test]
fn f_and_j_in_one_frame_apply_f_first() {
    assert_eq!(toggled(LockMode::Free, &[Key::KeyJ, Key::KeyF]), LockMode::Jupiter);
    assert_eq!(toggled(LockMode::Jupiter, &[Key::KeyF, Key::KeyJ]), LockMode::Jupiter);
    assert_eq!(toggled(LockMode::Sun, &[Key::KeyF, Key::KeyJ]), LockMode::Jupiter);
}

#[test]
fn pressing_f_twice_restores_a_free_camera() {
    let once = toggled(LockMode::Free, &[Key::KeyF]);
    assert_eq!(toggled(once, &[Key::KeyF]), LockMode::Free);
    let once = toggled(LockMode::Jupiter, &[Key::KeyF]);
    assert_eq!(toggled(once, &[Key::KeyF]), LockMode::Free);
}

#[test]
fn other_keys_leave_the_lock_alone() {
    assert_eq!(toggled(LockMode::Sun, &[Key::KeyW, Key::Escape]), LockMode::Sun);
    assert_eq!(toggled(LockMode::Jupiter, &[]), LockMode::Jupiter);
}

#[test]
fn w_moves_forward() {
    let intent = keyboard_movement_intent(&[Key::KeyW]);
    assert_eq!(
        intent,
        MovementIntent { forward: 1, right: 0, up: 0, sprint: false }
    );
    assert!(!intent.is_idle());
}

#[test]
fn opposite_keys_cancel() {
    let intent = keyboard_movement_intent(&[Key::KeyW, Key::KeyS, Key::KeyA, Key::KeyD]);
    assert_eq!(intent.forward, 0);
    assert_eq!(intent.right, 0);
    assert!(intent.is_idle());
}

#[test]
fn each_axis_follows_its_keys() {
    let intent =
        keyboard_movement_intent(&[Key::KeyS, Key::KeyA, Key::ControlLeft, Key::ShiftLeft]);
    assert_eq!(
        intent,
        MovementIntent { forward: -1, right: -1, up: -1, sprint: true }
    );
    let intent = keyboard_movement_intent(&[Key::KeyD, Key::Space]);
    assert_eq!(
        intent,
        MovementIntent { forward: 0, right: 1, up: 1, sprint: false }
    );
}

#[test]
fn sprint_alone_does_not_move() {
    let intent = keyboard_movement_intent(&[Key::ShiftLeft]);
    assert!(intent.sprint);
    assert!(intent.is_idle());
}

#[test]
fn escape_releases_the_cursor() {
    assert!(cursor_release(&[Key::KeyW, Key::Escape]));
    assert!(!cursor_release(&[Key::KeyW]));
    assert!(!cursor_release(&[]));
}

#[test]
fn contains_key_finds_keys_anywhere() {
    let keys = [Key::KeyA, Key::Digit3, Key::Escape];
    assert!(contains_key(&keys, Key::KeyA));
    assert!(contains_key(&keys, Key::Escape));
    assert!(!contains_key(&keys, Key::Digit4));
    assert!(!contains_key(&[], Key::KeyA));
}
