//! Keys of the keyboard that the simulation reacts to, and membership queries over the set of
//! keys pressed in a frame.

use vstd::prelude::*;

verus! {

/// A key of the keyboard that one of the simulation's controls reads.
#[derive(Clone, Copy, Debug, PartialEq, Eq, Hash, Structural)]
pub enum Key {
    /// Digit row `0`.
    Digit0,
    /// Digit row `1`.
    Digit1,
    /// Digit row `2`.
    Digit2,
    /// Digit row `3`.
    Digit3,
    /// Digit row `4`.
    Digit4,
    /// Numeric keypad `0`.
    Numpad0,
    /// Numeric keypad `1`.
    Numpad1,
    /// Numeric keypad `2`.
    Numpad2,
    /// Numeric keypad `3`.
    Numpad3,
    /// Numeric keypad `4`.
    Numpad4,
    /// `W`: move forward.
    KeyW,
    /// `A`: move left.
    KeyA,
    /// `S`: move backward.
    KeyS,
    /// `D`: move right.
    KeyD,
    /// Space bar: move up.
    Space,
    /// Left control: move down.
    ControlLeft,
    /// Left shift: sprint.
    ShiftLeft,
    /// `F`: toggle the lock on the Sun.
    KeyF,
    /// `J`: toggle the lock on Jupiter.
    KeyJ,
    /// Escape: release the cursor.
    Escape,
}

/// Whether `key` is one of `keys`.
pub fn contains_key(keys: &[Key], key: Key) -> (found: bool)
    ensures
        found == keys@.contains(key),
{
    let mut index: usize = 0;
    while index < keys.len()
        invariant
            index <= keys@.len(),
            forall|j: int| 0 <= j < index ==> keys@[j] != key,
        decreases keys@.len() - index,
    {
        if keys[index] == key {
            assert(keys@[index as int] == key);
            return true;
        }
        index = index + 1;
    }
    proof {
        if keys@.contains(key) {
            let j = choose|j: int| 0 <= j < keys@.len() && keys@[j] == key;
            assert(keys@[j] != key);
        }
    }
    false
}

/// Adding a key to a frame's keys adds exactly that key: any other key is held after the addition
/// if and only if it was held before.
pub proof fn lemma_contains_after_push(keys: Seq<Key>, added: Key, key: Key)
    ensures
        keys.push(added).contains(key) <==> (keys.contains(key) || key == added),
{
    let pushed = keys.push(added);
    if keys.contains(key) {
        let j = choose|j: int| 0 <= j < keys.len() && keys[j] == key;
        assert(pushed[j] == key);
    }
    if key == added {
        assert(pushed[keys.len() as int] == key);
    }
    if pushed.contains(key) {
        let j = choose|j: int| 0 <= j < pushed.len() && pushed[j] == key;
        if j < keys.len() {
            assert(keys[j] == key);
        }
    }
}

} // verus!
