//! Nibble extraction and wrapping byte arithmetic.
use vstd::prelude::*;

verus! {

/// Positional weight of nibble `n` (1 is the least significant, 4 the most).
pub open spec fn nibble_weight(n: int) -> int {
    if n == 1 {
        1
    } else if n == 2 {
        16
    } else if n == 3 {
        256
    } else {
        4096
    }
}

/// The 4-bit field at position `n` of a 16-bit word.
pub open spec fn nibble(num: u16, n: int) -> int {
    (num as int / nibble_weight(n)) % 16
}

/// Extracts nibble `n` (1 = least significant, 4 = most significant) of `num`.
///
/// `get_nth_nibble(0xABCD, 1) == 0xD`, `get_nth_nibble(0xABCD, 2) == 0xC`.
pub fn get_nth_nibble(num: u16, n: u8) -> (r: u8)
    requires
        1 <= n <= 4,
    ensures
        r as int == nibble(num, n as int),
        r < 16,
{
    let shift_width: u16 = ((n - 1) * 4) as u16;
    let shifted: u16 = num >> shift_width;
    let r: u8 = (shifted & 0xF) as u8;
    proof {
        if n == 1 {
            assert((num >> 0u16) & 0xF == num % 16) by (bit_vector);
        } else if n == 2 {
            assert((num >> 4u16) & 0xF == (num / 16) % 16) by (bit_vector);
        } else if n == 3 {
            assert((num >> 8u16) & 0xF == (num / 256) % 16) by (bit_vector);
        } else {
            assert((num >> 12u16) & 0xF == (num / 4096) % 16) by (bit_vector);
        }
    }
    r
}

/// Addition modulo 256.
pub fn wrap_add(a: u8, b: u8) -> (r: u8)
    ensures
        r as int == (a as int + b as int) % 256,
{
    a.wrapping_add(b)
}

/// Subtraction modulo 256.
pub fn wrap_sub(a: u8, b: u8) -> (r: u8)
    ensures
        r as int == (a as int - b as int) % 256,
{
    a.wrapping_sub(b)
}

} // verus!
