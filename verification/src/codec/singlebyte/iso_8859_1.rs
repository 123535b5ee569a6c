//! Algorithmic mapping for ISO 8859-1.

use vstd::prelude::*;

verus! {

/// The code point of byte `code`: the same value.
pub fn forward(code: u8) -> (r: u16)
    ensures
        r == code as u16,
{
    code as u16
}

/// The byte for code point `code`, when it lies in 0x80..=0xFF; 0 otherwise.
pub fn backward(code: u16) -> (r: u8)
    ensures
        r == (if 0x80 <= code <= 0xff {
            code as u8
        } else {
            0
        }),
{
    let hi: u16 = code & !0x7f;
    assert(hi == 0x80 <==> 0x80 <= code <= 0xff) by (bit_vector)
        requires
            hi == code & !0x7fu16,
    ;
    if hi == 0x80 {
        code as u8
    } else {
        0
    }
}

} // verus!
