//! The keypad layout: which key of a QWERTY keyboard stands for which of the
//! 16 CHIP-8 keys.
//!
//! ```text
//!  1 2 3 4        1 2 3 C
//!  q w e r   -->  4 5 6 D
//!  a s d f        7 8 9 E
//!  z x c v        A 0 B F
//! ```
use vstd::prelude::*;

verus! {

/// `keypad_keys()[k]` is the keyboard key that presses CHIP-8 key `k`.
pub open spec fn keypad_keys() -> Seq<char> {
    seq!['x', '1', '2', '3', 'q', 'w', 'e', 'a', 's', 'd', 'z', 'c', '4', 'r', 'f', 'v']
}

/// The CHIP-8 key that keyboard key `key` (a lower-case letter or a digit, as
/// the keyboard reports it) stands for, or `None` for a key outside the
/// keypad.
pub fn keycode_to_index(key: char) -> (r: Option<usize>)
    ensures
        match r {
            Some(k) => k < 16 && keypad_keys()[k as int] == key,
            None => forall|k: int| 0 <= k < 16 ==> keypad_keys()[k] != key,
        },
{
    match key {
        '1' => Some(0x1),
        '2' => Some(0x2),
        '3' => Some(0x3),
        '4' => Some(0xC),
        'q' => Some(0x4),
        'w' => Some(0x5),
        'e' => Some(0x6),
        'r' => Some(0xD),
        'a' => Some(0x7),
        's' => Some(0x8),
        'd' => Some(0x9),
        'f' => Some(0xE),
        'z' => Some(0xA),
        'x' => Some(0x0),
        'c' => Some(0xB),
        'v' => Some(0xF),
        _ => None,
    }
}

} // verus!
