//! Indices for WHATWG x-user-defined encoding.

use vstd::prelude::*;

verus! {

/// The code point for index `code` (the byte minus 0x80), which is below 0x80.
pub fn forward(code: u8) -> (r: u16)
    requires
        code < 0x80,
    ensures
        r == 0xf780 + code,
{
    0xf780 + (code as u16)
}

/// The index (the byte minus 0x80) for code point `code`, or 0xff where unmapped.
pub fn backward(code: u16) -> (r: u8)
    ensures
        r == (if 0xf780 <= code <= 0xf7ff {
            (code - 0xf780) as u8
        } else {
            0xff
        }),
        r == 0xff || r < 0x80,
{
    if 0xf780 <= code && code <= 0xf7ff {
        (code - 0xf780) as u8
    } else {
        0xff
    }
}

} // verus!
