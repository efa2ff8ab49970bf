//! The sixteen keys of the machine's keypad, as the keys of a keyboard.

use vstd::prelude::*;

verus! {

/// The keypad key that a keyboard key stands for, by the character that the
/// keyboard key types. The keypad
///
/// ```text
/// 1 2 3 C
/// 4 5 6 D
/// 7 8 9 E
/// A 0 B F
/// ```
///
/// lies on the block of keys from `1` to `4` down to `z` to `v`; no other
/// keyboard key stands for a keypad key.
pub open spec fn keypad_of(symbol: char) -> Option<u8> {
    match symbol {
        '1' => Some(0x1u8),
        '2' => Some(0x2u8),
        '3' => Some(0x3u8),
        '4' => Some(0xCu8),
        'q' => Some(0x4u8),
        'w' => Some(0x5u8),
        'e' => Some(0x6u8),
        'r' => Some(0xDu8),
        'a' => Some(0x7u8),
        's' => Some(0x8u8),
        'd' => Some(0x9u8),
        'f' => Some(0xEu8),
        'z' => Some(0xAu8),
        'x' => Some(0x0u8),
        'c' => Some(0xBu8),
        'v' => Some(0xFu8),
        _ => None,
    }
}

/// The keypad key that a keyboard key stands for, if it stands for one.
pub fn keypad_key(symbol: char) -> (key: Option<u8>)
    ensures
        key == keypad_of(symbol),
        key matches Some(code) ==> code < 16,
{
    match symbol {
        '1' => Some(0x1),
        '2' => Some(0x2),
        '3' => Some(0x3),
        '4' => Some(0xC),
        'q' => Some(0x4),
        'w' => Some(0x5),
        'e' => Some(0x6),
        'r' => Some(0xD),
        'a' => Some(0x7),
        's' => Some(0x8),
        'd' => Some(0x9),
        'f' => Some(0xE),
        'z' => Some(0xA),
        'x' => Some(0x0),
        'c' => Some(0xB),
        'v' => Some(0xF),
        _ => None,
    }
}

} // verus!
