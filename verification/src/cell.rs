//! One display position and its two-byte hardware encoding: the ASCII byte
//! in the low half of a `u16`, the colour byte in the high half.

use vstd::prelude::*;

use crate::color::ColorCode;

verus! {

/// One display position: an ASCII byte and the colour it is drawn with.
#[derive(Debug, Clone, Copy, PartialEq, Eq, Structural)]
pub struct ScreenChar {
    pub ascii_character: u8,
    pub color_code: ColorCode,
}

/// The two-byte value the display stores for a cell.
pub open spec fn char_bits(c: ScreenChar) -> u16 {
    (c.color_code.0 * 256 + c.ascii_character) as u16
}

/// The cell a stored two-byte value stands for.
pub open spec fn char_of_bits(x: u16) -> ScreenChar {
    ScreenChar { ascii_character: (x % 256) as u8, color_code: ColorCode((x / 256) as u8) }
}

/// Decoding undoes encoding: a cell survives the trip through its stored
/// two-byte value.
pub proof fn lemma_char_bits_inverse(c: ScreenChar)
    ensures
        char_of_bits(char_bits(c)) == c,
{
    let a = c.ascii_character as int;
    let k = c.color_code.0 as int;
    assert((k * 256 + a) % 256 == a && (k * 256 + a) / 256 == k) by (nonlinear_arith)
        requires
            0 <= a < 256 && 0 <= k < 256,
    ;
}

/// Packs a cell into the two-byte value the display stores.
pub fn pack_char(c: ScreenChar) -> (x: u16)
    ensures
        x == char_bits(c),
{
    (c.color_code.0 as u16) * 256 + (c.ascii_character as u16)
}

/// Reads a cell back out of its stored two-byte value.
pub fn unpack_char(x: u16) -> (c: ScreenChar)
    ensures
        c == char_of_bits(x),
{
    ScreenChar { ascii_character: (x % 256) as u8, color_code: ColorCode((x / 256) as u8) }
}

} // verus!
