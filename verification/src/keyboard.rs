//! The latch of the sixteen keys.

use vstd::prelude::*;
use crate::error::BoundsError;

verus! {

/// Number of keys, with codes `0x0` to `0xF`.
pub const NUM_KEYS: usize = 16;

#[derive(Debug, Clone)]
pub struct Keyboard {
    pub keys: [bool; NUM_KEYS],
}

impl View for Keyboard {
    type V = Seq<bool>;

    /// The latch as a sequence of `NUM_KEYS` flags, indexed by key code.
    open spec fn view(&self) -> Seq<bool> {
        self.keys@
    }
}

/// A latch with every key released.
pub open spec fn all_released() -> Seq<bool> {
    Seq::new(NUM_KEYS as nat, |k: int| false)
}

/// Whether `key` is pressed in `keys` and no key with a lower code is.
pub open spec fn is_lowest_pressed(keys: Seq<bool>, key: int) -> bool {
    &&& 0 <= key < keys.len()
    &&& keys[key]
    &&& forall|k: int| 0 <= k < key ==> !keys[k]
}

/// The lowest code among the pressed keys, if any key is pressed.
pub open spec fn lowest_pressed(keys: Seq<bool>) -> Option<u8> {
    if exists|key: int| is_lowest_pressed(keys, key) {
        Some((choose|key: int| is_lowest_pressed(keys, key)) as u8)
    } else {
        None
    }
}

/// `lowest_pressed` is `Some(key)` exactly for the one key that
/// `is_lowest_pressed` picks, and `None` exactly when no key is pressed.
pub proof fn lemma_lowest_pressed(keys: Seq<bool>)
    requires
        keys.len() <= 256,
    ensures
        forall|key: int| is_lowest_pressed(keys, key) ==> lowest_pressed(keys) == Some(key as u8),
        (forall|k: int| 0 <= k < keys.len() ==> !keys[k]) ==> lowest_pressed(keys) is None,
        lowest_pressed(keys) matches Some(key) ==> is_lowest_pressed(keys, key as int),
        lowest_pressed(keys) is None ==> forall|k: int| 0 <= k < keys.len() ==> !keys[k],
{
    assert forall|key: int| is_lowest_pressed(keys, key) implies lowest_pressed(keys) == Some(
        key as u8,
    ) by {
        let chosen = choose|key: int| is_lowest_pressed(keys, key);
        assert(is_lowest_pressed(keys, chosen));
        if chosen < key {
            assert(!keys[chosen]);
        }
        if key < chosen {
            assert(!keys[key]);
        }
    }
    if lowest_pressed(keys) is None {
        assert forall|k: int| 0 <= k < keys.len() implies !keys[k] by {
            if keys[k] {
                lemma_some_key_is_lowest(keys, k);
            }
        }
    }
}

/// Below any pressed key there is a lowest pressed key.
proof fn lemma_some_key_is_lowest(keys: Seq<bool>, pressed: int)
    requires
        0 <= pressed < keys.len(),
        keys[pressed],
    ensures
        exists|key: int| is_lowest_pressed(keys, key),
    decreases pressed,
{
    if exists|k: int| 0 <= k < pressed && keys[k] {
        let k = choose|k: int| 0 <= k < pressed && keys[k];
        lemma_some_key_is_lowest(keys, k);
    } else {
        assert(is_lowest_pressed(keys, pressed));
    }
}

impl Keyboard {
    pub fn new() -> (keyboard: Keyboard)
        ensures
            keyboard@ == all_released(),
    {
        Keyboard { keys: [false; NUM_KEYS] }
    }

    /// Whether `key` is latched as pressed, or a failure when there is no such key.
    pub fn is_pressed(&self, key: u8) -> (r: Result<bool, BoundsError>)
        ensures
            key < NUM_KEYS ==> r == Ok::<bool, BoundsError>(self@[key as int]),
            key >= NUM_KEYS ==> r == Err::<bool, BoundsError>(BoundsError::Keyboard),
    {
        if (key as usize) < NUM_KEYS {
            Ok(self.keys[key as usize])
        } else {
            Err(BoundsError::Keyboard)
        }
    }

    /// Latches `key` as pressed or released, or fails without a change when
    /// there is no such key.
    pub fn press(&mut self, key: u8, pressed: bool) -> (r: Result<(), BoundsError>)
        ensures
            key < NUM_KEYS ==> r is Ok && final(self)@ == old(self)@.update(key as int, pressed),
            key >= NUM_KEYS ==> r == Err::<(), BoundsError>(BoundsError::Keyboard) && final(self)@
                == old(self)@,
    {
        if (key as usize) < NUM_KEYS {
            self.keys[key as usize] = pressed;
            Ok(())
        } else {
            Err(BoundsError::Keyboard)
        }
    }

    /// Releases every key.
    pub fn clean(&mut self)
        ensures
            final(self)@ == all_released(),
    {
        self.keys = [false; NUM_KEYS];
    }

    /// The lowest code among the pressed keys, if any key is pressed.
    pub fn first_pressed(&self) -> (r: Option<u8>)
        ensures
            r == lowest_pressed(self@),
            r matches Some(key) ==> is_lowest_pressed(self@, key as int),
            r is None ==> forall|k: int| 0 <= k < NUM_KEYS ==> !self@[k],
    {
        let mut key: u8 = 0;
        while (key as usize) < NUM_KEYS
            invariant
                key <= NUM_KEYS,
                forall|k: int| 0 <= k < key ==> !self@[k],
            decreases NUM_KEYS - key,
        {
            if self.keys[key as usize] {
                proof {
                    assert(is_lowest_pressed(self@, key as int));
                    lemma_lowest_pressed(self@);
                }
                return Some(key);
            }
            key += 1;
        }
        proof {
            lemma_lowest_pressed(self@);
        }
        None
    }
}

impl Default for Keyboard {
    fn default() -> (keyboard: Keyboard)
        ensures
            keyboard@ == all_released(),
    {
        Keyboard::new()
    }
}

} // verus!
