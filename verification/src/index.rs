//! Index tables of the legacy encodings, looked up in the `encoding-index-*` crates.
//!
//! Each table is a function from a pointer (or a byte) to a code point and back.
//! What a table holds is data, hundreds of entries long; here each lookup is
//! given a name, and the contracts of the codecs speak of those names.
//! The lookups are trusted to return, for the same argument, the same value.

pub mod whatwg_x_user_defined;

use vstd::prelude::*;

verus! {

/// The code point of byte `code` (at least 0x80) in the ibm866 table; 0xffff where unmapped.
pub uninterp spec fn ibm866_forward(code: u8) -> u16;

/// The byte for code point `code` in the ibm866 table; 0 where unmapped.
pub uninterp spec fn ibm866_backward(code: u32) -> u8;

/// `ibm866::forward` looks byte `code` up in its table (it subtracts 0x80 first, so
/// smaller bytes are excluded); only the name of its result is claimed.
pub assume_specification[encoding_index_singlebyte::ibm866::forward](code: u8) -> (r: u16)
    requires
        code >= 0x80,
    ensures
        r == ibm866_forward(code),
;

/// `ibm866::backward` looks code point `code` up in its table; only the name of its result is claimed.
pub assume_specification[encoding_index_singlebyte::ibm866::backward](code: u32) -> (r: u8)
    ensures
        r == ibm866_backward(code),
;

/// The code point of byte `code` (at least 0x80) in the iso_8859_2 table; 0xffff where unmapped.
pub uninterp spec fn iso_8859_2_forward(code: u8) -> u16;

/// The byte for code point `code` in the iso_8859_2 table; 0 where unmapped.
pub uninterp spec fn iso_8859_2_backward(code: u32) -> u8;

/// `iso_8859_2::forward` looks byte `code` up in its table (it subtracts 0x80 first, so
/// smaller bytes are excluded); only the name of its result is claimed.
pub assume_specification[encoding_index_singlebyte::iso_8859_2::forward](code: u8) -> (r: u16)
    requires
        code >= 0x80,
    ensures
        r == iso_8859_2_forward(code),
;

/// `iso_8859_2::backward` looks code point `code` up in its table; only the name of its result is claimed.
pub assume_specification[encoding_index_singlebyte::iso_8859_2::backward](code: u32) -> (r: u8)
    ensures
        r == iso_8859_2_backward(code),
;

/// The code point of byte `code` (at least 0x80) in the iso_8859_3 table; 0xffff where unmapped.
pub uninterp spec fn iso_8859_3_forward(code: u8) -> u16;

/// The byte for code point `code` in the iso_8859_3 table; 0 where unmapped.
pub uninterp spec fn iso_8859_3_backward(code: u32) -> u8;

/// `iso_8859_3::forward` looks byte `code` up in its table (it subtracts 0x80 first, so
/// smaller bytes are excluded); only the name of its result is claimed.
pub assume_specification[encoding_index_singlebyte::iso_8859_3::forward](code: u8) -> (r: u16)
    requires
        code >= 0x80,
    ensures
        r == iso_8859_3_forward(code),
;

/// `iso_8859_3::backward` looks code point `code` up in its table; only the name of its result is claimed.
pub assume_specification[encoding_index_singlebyte::iso_8859_3::backward](code: u32) -> (r: u8)
    ensures
        r == iso_8859_3_backward(code),
;

/// The code point of byte `code` (at least 0x80) in the iso_8859_4 table; 0xffff where unmapped.
pub uninterp spec fn iso_8859_4_forward(code: u8) -> u16;

/// The byte for code point `code` in the iso_8859_4 table; 0 where unmapped.
pub uninterp spec fn iso_8859_4_backward(code: u32) -> u8;

/// `iso_8859_4::forward` looks byte `code` up in its table (it subtracts 0x80 first, so
/// smaller bytes are excluded); only the name of its result is claimed.
pub assume_specification[encoding_index_singlebyte::iso_8859_4::forward](code: u8) -> (r: u16)
    requires
        code >= 0x80,
    ensures
        r == iso_8859_4_forward(code),
;

/// `iso_8859_4::backward` looks code point `code` up in its table; only the name of its result is claimed.
pub assume_specification[encoding_index_singlebyte::iso_8859_4::backward](code: u32) -> (r: u8)
    ensures
        r == iso_8859_4_backward(code),
;

/// The code point of byte `code` (at least 0x80) in the iso_8859_5 table; 0xffff where unmapped.
pub uninterp spec fn iso_8859_5_forward(code: u8) -> u16;

/// The byte for code point `code` in the iso_8859_5 table; 0 where unmapped.
pub uninterp spec fn iso_8859_5_backward(code: u32) -> u8;

/// `iso_8859_5::forward` looks byte `code` up in its table (it subtracts 0x80 first, so
/// smaller bytes are excluded); only the name of its result is claimed.
pub assume_specification[encoding_index_singlebyte::iso_8859_5::forward](code: u8) -> (r: u16)
    requires
        code >= 0x80,
    ensures
        r == iso_8859_5_forward(code),
;

/// `iso_8859_5::backward` looks code point `code` up in its table; only the name of its result is claimed.
pub assume_specification[encoding_index_singlebyte::iso_8859_5::backward](code: u32) -> (r: u8)
    ensures
        r == iso_8859_5_backward(code),
;

/// The code point of byte `code` (at least 0x80) in the iso_8859_6 table; 0xffff where unmapped.
pub uninterp spec fn iso_8859_6_forward(code: u8) -> u16;

/// The byte for code point `code` in the iso_8859_6 table; 0 where unmapped.
pub uninterp spec fn iso_8859_6_backward(code: u32) -> u8;

/// `iso_8859_6::forward` looks byte `code` up in its table (it subtracts 0x80 first, so
/// smaller bytes are excluded); only the name of its result is claimed.
pub assume_specification[encoding_index_singlebyte::iso_8859_6::forward](code: u8) -> (r: u16)
    requires
        code >= 0x80,
    ensures
        r == iso_8859_6_forward(code),
;

/// `iso_8859_6::backward` looks code point `code` up in its table; only the name of its result is claimed.
pub assume_specification[encoding_index_singlebyte::iso_8859_6::backward](code: u32) -> (r: u8)
    ensures
        r == iso_8859_6_backward(code),
;

/// The code point of byte `code` (at least 0x80) in the iso_8859_7 table; 0xffff where unmapped.
pub uninterp spec fn iso_8859_7_forward(code: u8) -> u16;

/// The byte for code point `code` in the iso_8859_7 table; 0 where unmapped.
pub uninterp spec fn iso_8859_7_backward(code: u32) -> u8;

/// `iso_8859_7::forward` looks byte `code` up in its table (it subtracts 0x80 first, so
/// smaller bytes are excluded); only the name of its result is claimed.
pub assume_specification[encoding_index_singlebyte::iso_8859_7::forward](code: u8) -> (r: u16)
    requires
        code >= 0x80,
    ensures
        r == iso_8859_7_forward(code),
;

/// `iso_8859_7::backward` looks code point `code` up in its table; only the name of its result is claimed.
pub assume_specification[encoding_index_singlebyte::iso_8859_7::backward](code: u32) -> (r: u8)
    ensures
        r == iso_8859_7_backward(code),
;

/// The code point of byte `code` (at least 0x80) in the iso_8859_8 table; 0xffff where unmapped.
pub uninterp spec fn iso_8859_8_forward(code: u8) -> u16;

/// The byte for code point `code` in the iso_8859_8 table; 0 where unmapped.
pub uninterp spec fn iso_8859_8_backward(code: u32) -> u8;

/// `iso_8859_8::forward` looks byte `code` up in its table (it subtracts 0x80 first, so
/// smaller bytes are excluded); only the name of its result is claimed.
pub assume_specification[encoding_index_singlebyte::iso_8859_8::forward](code: u8) -> (r: u16)
    requires
        code >= 0x80,
    ensures
        r == iso_8859_8_forward(code),
;

/// `iso_8859_8::backward` looks code point `code` up in its table; only the name of its result is claimed.
pub assume_specification[encoding_index_singlebyte::iso_8859_8::backward](code: u32) -> (r: u8)
    ensures
        r == iso_8859_8_backward(code),
;

/// The code point of byte `code` (at least 0x80) in the iso_8859_10 table; 0xffff where unmapped.
pub uninterp spec fn iso_8859_10_forward(code: u8) -> u16;

/// The byte for code point `code` in the iso_8859_10 table; 0 where unmapped.
pub uninterp spec fn iso_8859_10_backward(code: u32) -> u8;

/// `iso_8859_10::forward` looks byte `code` up in its table (it subtracts 0x80 first, so
/// smaller bytes are excluded); only the name of its result is claimed.
pub assume_specification[encoding_index_singlebyte::iso_8859_10::forward](code: u8) -> (r: u16)
    requires
        code >= 0x80,
    ensures
        r == iso_8859_10_forward(code),
;

/// `iso_8859_10::backward` looks code point `code` up in its table; only the name of its result is claimed.
pub assume_specification[encoding_index_singlebyte::iso_8859_10::backward](code: u32) -> (r: u8)
    ensures
        r == iso_8859_10_backward(code),
;

/// The code point of byte `code` (at least 0x80) in the iso_8859_13 table; 0xffff where unmapped.
pub uninterp spec fn iso_8859_13_forward(code: u8) -> u16;

/// The byte for code point `code` in the iso_8859_13 table; 0 where unmapped.
pub uninterp spec fn iso_8859_13_backward(code: u32) -> u8;

/// `iso_8859_13::forward` looks byte `code` up in its table (it subtracts 0x80 first, so
/// smaller bytes are excluded); only the name of its result is claimed.
pub assume_specification[encoding_index_singlebyte::iso_8859_13::forward](code: u8) -> (r: u16)
    requires
        code >= 0x80,
    ensures
        r == iso_8859_13_forward(code),
;

/// `iso_8859_13::backward` looks code point `code` up in its table; only the name of its result is claimed.
pub assume_specification[encoding_index_singlebyte::iso_8859_13::backward](code: u32) -> (r: u8)
    ensures
        r == iso_8859_13_backward(code),
;

/// The code point of byte `code` (at least 0x80) in the iso_8859_14 table; 0xffff where unmapped.
pub uninterp spec fn iso_8859_14_forward(code: u8) -> u16;

/// The byte for code point `code` in the iso_8859_14 table; 0 where unmapped.
pub uninterp spec fn iso_8859_14_backward(code: u32) -> u8;

/// `iso_8859_14::forward` looks byte `code` up in its table (it subtracts 0x80 first, so
/// smaller bytes are excluded); only the name of its result is claimed.
pub assume_specification[encoding_index_singlebyte::iso_8859_14::forward](code: u8) -> (r: u16)
    requires
        code >= 0x80,
    ensures
        r == iso_8859_14_forward(code),
;

/// `iso_8859_14::backward` looks code point `code` up in its table; only the name of its result is claimed.
pub assume_specification[encoding_index_singlebyte::iso_8859_14::backward](code: u32) -> (r: u8)
    ensures
        r == iso_8859_14_backward(code),
;

/// The code point of byte `code` (at least 0x80) in the iso_8859_15 table; 0xffff where unmapped.
pub uninterp spec fn iso_8859_15_forward(code: u8) -> u16;

/// The byte for code point `code` in the iso_8859_15 table; 0 where unmapped.
pub uninterp spec fn iso_8859_15_backward(code: u32) -> u8;

/// `iso_8859_15::forward` looks byte `code` up in its table (it subtracts 0x80 first, so
/// smaller bytes are excluded); only the name of its result is claimed.
pub assume_specification[encoding_index_singlebyte::iso_8859_15::forward](code: u8) -> (r: u16)
    requires
        code >= 0x80,
    ensures
        r == iso_8859_15_forward(code),
;

/// `iso_8859_15::backward` looks code point `code` up in its table; only the name of its result is claimed.
pub assume_specification[encoding_index_singlebyte::iso_8859_15::backward](code: u32) -> (r: u8)
    ensures
        r == iso_8859_15_backward(code),
;

/// The code point of byte `code` (at least 0x80) in the iso_8859_16 table; 0xffff where unmapped.
pub uninterp spec fn iso_8859_16_forward(code: u8) -> u16;

/// The byte for code point `code` in the iso_8859_16 table; 0 where unmapped.
pub uninterp spec fn iso_8859_16_backward(code: u32) -> u8;

/// `iso_8859_16::forward` looks byte `code` up in its table (it subtracts 0x80 first, so
/// smaller bytes are excluded); only the name of its result is claimed.
pub assume_specification[encoding_index_singlebyte::iso_8859_16::forward](code: u8) -> (r: u16)
    requires
        code >= 0x80,
    ensures
        r == iso_8859_16_forward(code),
;

/// `iso_8859_16::backward` looks code point `code` up in its table; only the name of its result is claimed.
pub assume_specification[encoding_index_singlebyte::iso_8859_16::backward](code: u32) -> (r: u8)
    ensures
        r == iso_8859_16_backward(code),
;

/// The code point of byte `code` (at least 0x80) in the koi8_r table; 0xffff where unmapped.
pub uninterp spec fn koi8_r_forward(code: u8) -> u16;

/// The byte for code point `code` in the koi8_r table; 0 where unmapped.
pub uninterp spec fn koi8_r_backward(code: u32) -> u8;

/// `koi8_r::forward` looks byte `code` up in its table (it subtracts 0x80 first, so
/// smaller bytes are excluded); only the name of its result is claimed.
pub assume_specification[encoding_index_singlebyte::koi8_r::forward](code: u8) -> (r: u16)
    requires
        code >= 0x80,
    ensures
        r == koi8_r_forward(code),
;

/// `koi8_r::backward` looks code point `code` up in its table; only the name of its result is claimed.
pub assume_specification[encoding_index_singlebyte::koi8_r::backward](code: u32) -> (r: u8)
    ensures
        r == koi8_r_backward(code),
;

/// The code point of byte `code` (at least 0x80) in the koi8_u table; 0xffff where unmapped.
pub uninterp spec fn koi8_u_forward(code: u8) -> u16;

/// The byte for code point `code` in the koi8_u table; 0 where unmapped.
pub uninterp spec fn koi8_u_backward(code: u32) -> u8;

/// `koi8_u::forward` looks byte `code` up in its table (it subtracts 0x80 first, so
/// smaller bytes are excluded); only the name of its result is claimed.
pub assume_specification[encoding_index_singlebyte::koi8_u::forward](code: u8) -> (r: u16)
    requires
        code >= 0x80,
    ensures
        r == koi8_u_forward(code),
;

/// `koi8_u::backward` looks code point `code` up in its table; only the name of its result is claimed.
pub assume_specification[encoding_index_singlebyte::koi8_u::backward](code: u32) -> (r: u8)
    ensures
        r == koi8_u_backward(code),
;

/// The code point of byte `code` (at least 0x80) in the macintosh table; 0xffff where unmapped.
pub uninterp spec fn macintosh_forward(code: u8) -> u16;

/// The byte for code point `code` in the macintosh table; 0 where unmapped.
pub uninterp spec fn macintosh_backward(code: u32) -> u8;

/// `macintosh::forward` looks byte `code` up in its table (it subtracts 0x80 first, so
/// smaller bytes are excluded); only the name of its result is claimed.
pub assume_specification[encoding_index_singlebyte::macintosh::forward](code: u8) -> (r: u16)
    requires
        code >= 0x80,
    ensures
        r == macintosh_forward(code),
;

/// `macintosh::backward` looks code point `code` up in its table; only the name of its result is claimed.
pub assume_specification[encoding_index_singlebyte::macintosh::backward](code: u32) -> (r: u8)
    ensures
        r == macintosh_backward(code),
;

/// The code point of byte `code` (at least 0x80) in the windows_874 table; 0xffff where unmapped.
pub uninterp spec fn windows_874_forward(code: u8) -> u16;

/// The byte for code point `code` in the windows_874 table; 0 where unmapped.
pub uninterp spec fn windows_874_backward(code: u32) -> u8;

/// `windows_874::forward` looks byte `code` up in its table (it subtracts 0x80 first, so
/// smaller bytes are excluded); only the name of its result is claimed.
pub assume_specification[encoding_index_singlebyte::windows_874::forward](code: u8) -> (r: u16)
    requires
        code >= 0x80,
    ensures
        r == windows_874_forward(code),
;

/// `windows_874::backward` looks code point `code` up in its table; only the name of its result is claimed.
pub assume_specification[encoding_index_singlebyte::windows_874::backward](code: u32) -> (r: u8)
    ensures
        r == windows_874_backward(code),
;

/// The code point of byte `code` (at least 0x80) in the windows_1250 table; 0xffff where unmapped.
pub uninterp spec fn windows_1250_forward(code: u8) -> u16;

/// The byte for code point `code` in the windows_1250 table; 0 where unmapped.
pub uninterp spec fn windows_1250_backward(code: u32) -> u8;

/// `windows_1250::forward` looks byte `code` up in its table (it subtracts 0x80 first, so
/// smaller bytes are excluded); only the name of its result is claimed.
pub assume_specification[encoding_index_singlebyte::windows_1250::forward](code: u8) -> (r: u16)
    requires
        code >= 0x80,
    ensures
        r == windows_1250_forward(code),
;

/// `windows_1250::backward` looks code point `code` up in its table; only the name of its result is claimed.
pub assume_specification[encoding_index_singlebyte::windows_1250::backward](code: u32) -> (r: u8)
    ensures
        r == windows_1250_backward(code),
;

/// The code point of byte `code` (at least 0x80) in the windows_1251 table; 0xffff where unmapped.
pub uninterp spec fn windows_1251_forward(code: u8) -> u16;

/// The byte for code point `code` in the windows_1251 table; 0 where unmapped.
pub uninterp spec fn windows_1251_backward(code: u32) -> u8;

/// `windows_1251::forward` looks byte `code` up in its table (it subtracts 0x80 first, so
/// smaller bytes are excluded); only the name of its result is claimed.
pub assume_specification[encoding_index_singlebyte::windows_1251::forward](code: u8) -> (r: u16)
    requires
        code >= 0x80,
    ensures
        r == windows_1251_forward(code),
;

/// `windows_1251::backward` looks code point `code` up in its table; only the name of its result is claimed.
pub assume_specification[encoding_index_singlebyte::windows_1251::backward](code: u32) -> (r: u8)
    ensures
        r == windows_1251_backward(code),
;

/// The code point of byte `code` (at least 0x80) in the windows_1252 table; 0xffff where unmapped.
pub uninterp spec fn windows_1252_forward(code: u8) -> u16;

/// The byte for code point `code` in the windows_1252 table; 0 where unmapped.
pub uninterp spec fn windows_1252_backward(code: u32) -> u8;

/// `windows_1252::forward` looks byte `code` up in its table (it subtracts 0x80 first, so
/// smaller bytes are excluded); only the name of its result is claimed.
pub assume_specification[encoding_index_singlebyte::windows_1252::forward](code: u8) -> (r: u16)
    requires
        code >= 0x80,
    ensures
        r == windows_1252_forward(code),
;

/// `windows_1252::backward` looks code point `code` up in its table; only the name of its result is claimed.
pub assume_specification[encoding_index_singlebyte::windows_1252::backward](code: u32) -> (r: u8)
    ensures
        r == windows_1252_backward(code),
;

/// The code point of byte `code` (at least 0x80) in the windows_1253 table; 0xffff where unmapped.
pub uninterp spec fn windows_1253_forward(code: u8) -> u16;

/// The byte for code point `code` in the windows_1253 table; 0 where unmapped.
pub uninterp spec fn windows_1253_backward(code: u32) -> u8;

/// `windows_1253::forward` looks byte `code` up in its table (it subtracts 0x80 first, so
/// smaller bytes are excluded); only the name of its result is claimed.
pub assume_specification[encoding_index_singlebyte::windows_1253::forward](code: u8) -> (r: u16)
    requires
        code >= 0x80,
    ensures
        r == windows_1253_forward(code),
;

/// `windows_1253::backward` looks code point `code` up in its table; only the name of its result is claimed.
pub assume_specification[encoding_index_singlebyte::windows_1253::backward](code: u32) -> (r: u8)
    ensures
        r == windows_1253_backward(code),
;

/// The code point of byte `code` (at least 0x80) in the windows_1254 table; 0xffff where unmapped.
pub uninterp spec fn windows_1254_forward(code: u8) -> u16;

/// The byte for code point `code` in the windows_1254 table; 0 where unmapped.
pub uninterp spec fn windows_1254_backward(code: u32) -> u8;

/// `windows_1254::forward` looks byte `code` up in its table (it subtracts 0x80 first, so
/// smaller bytes are excluded); only the name of its result is claimed.
pub assume_specification[encoding_index_singlebyte::windows_1254::forward](code: u8) -> (r: u16)
    requires
        code >= 0x80,
    ensures
        r == windows_1254_forward(code),
;

/// `windows_1254::backward` looks code point `code` up in its table; only the name of its result is claimed.
pub assume_specification[encoding_index_singlebyte::windows_1254::backward](code: u32) -> (r: u8)
    ensures
        r == windows_1254_backward(code),
;

/// The code point of byte `code` (at least 0x80) in the windows_1255 table; 0xffff where unmapped.
pub uninterp spec fn windows_1255_forward(code: u8) -> u16;

/// The byte for code point `code` in the windows_1255 table; 0 where unmapped.
pub uninterp spec fn windows_1255_backward(code: u32) -> u8;

/// `windows_1255::forward` looks byte `code` up in its table (it subtracts 0x80 first, so
/// smaller bytes are excluded); only the name of its result is claimed.
pub assume_specification[encoding_index_singlebyte::windows_1255::forward](code: u8) -> (r: u16)
    requires
        code >= 0x80,
    ensures
        r == windows_1255_forward(code),
;

/// `windows_1255::backward` looks code point `code` up in its table; only the name of its result is claimed.
pub assume_specification[encoding_index_singlebyte::windows_1255::backward](code: u32) -> (r: u8)
    ensures
        r == windows_1255_backward(code),
;

/// The code point of byte `code` (at least 0x80) in the windows_1256 table; 0xffff where unmapped.
pub uninterp spec fn windows_1256_forward(code: u8) -> u16;

/// The byte for code point `code` in the windows_1256 table; 0 where unmapped.
pub uninterp spec fn windows_1256_backward(code: u32) -> u8;

/// `windows_1256::forward` looks byte `code` up in its table (it subtracts 0x80 first, so
/// smaller bytes are excluded); only the name of its result is claimed.
pub assume_specification[encoding_index_singlebyte::windows_1256::forward](code: u8) -> (r: u16)
    requires
        code >= 0x80,
    ensures
        r == windows_1256_forward(code),
;

/// `windows_1256::backward` looks code point `code` up in its table; only the name of its result is claimed.
pub assume_specification[encoding_index_singlebyte::windows_1256::backward](code: u32) -> (r: u8)
    ensures
        r == windows_1256_backward(code),
;

/// The code point of byte `code` (at least 0x80) in the windows_1257 table; 0xffff where unmapped.
pub uninterp spec fn windows_1257_forward(code: u8) -> u16;

/// The byte for code point `code` in the windows_1257 table; 0 where unmapped.
pub uninterp spec fn windows_1257_backward(code: u32) -> u8;

/// `windows_1257::forward` looks byte `code` up in its table (it subtracts 0x80 first, so
/// smaller bytes are excluded); only the name of its result is claimed.
pub assume_specification[encoding_index_singlebyte::windows_1257::forward](code: u8) -> (r: u16)
    requires
        code >= 0x80,
    ensures
        r == windows_1257_forward(code),
;

/// `windows_1257::backward` looks code point `code` up in its table; only the name of its result is claimed.
pub assume_specification[encoding_index_singlebyte::windows_1257::backward](code: u32) -> (r: u8)
    ensures
        r == windows_1257_backward(code),
;

/// The code point of byte `code` (at least 0x80) in the windows_1258 table; 0xffff where unmapped.
pub uninterp spec fn windows_1258_forward(code: u8) -> u16;

/// The byte for code point `code` in the windows_1258 table; 0 where unmapped.
pub uninterp spec fn windows_1258_backward(code: u32) -> u8;

/// `windows_1258::forward` looks byte `code` up in its table (it subtracts 0x80 first, so
/// smaller bytes are excluded); only the name of its result is claimed.
pub assume_specification[encoding_index_singlebyte::windows_1258::forward](code: u8) -> (r: u16)
    requires
        code >= 0x80,
    ensures
        r == windows_1258_forward(code),
;

/// `windows_1258::backward` looks code point `code` up in its table; only the name of its result is claimed.
pub assume_specification[encoding_index_singlebyte::windows_1258::backward](code: u32) -> (r: u8)
    ensures
        r == windows_1258_backward(code),
;

/// The code point of byte `code` (at least 0x80) in the x_mac_cyrillic table; 0xffff where unmapped.
pub uninterp spec fn x_mac_cyrillic_forward(code: u8) -> u16;

/// The byte for code point `code` in the x_mac_cyrillic table; 0 where unmapped.
pub uninterp spec fn x_mac_cyrillic_backward(code: u32) -> u8;

/// `x_mac_cyrillic::forward` looks byte `code` up in its table (it subtracts 0x80 first, so
/// smaller bytes are excluded); only the name of its result is claimed.
pub assume_specification[encoding_index_singlebyte::x_mac_cyrillic::forward](code: u8) -> (r: u16)
    requires
        code >= 0x80,
    ensures
        r == x_mac_cyrillic_forward(code),
;

/// `x_mac_cyrillic::backward` looks code point `code` up in its table; only the name of its result is claimed.
pub assume_specification[encoding_index_singlebyte::x_mac_cyrillic::backward](code: u32) -> (r: u8)
    ensures
        r == x_mac_cyrillic_backward(code),
;

/// Names the code point for pointer `code` in the EUC-KR (windows-949) index; 0xffff where unmapped.
pub uninterp spec fn euc_kr_forward(code: u16) -> u32;

/// `euc_kr::forward` looks `code` up in its table; only the name of its result is claimed.
pub assume_specification[encoding_index_korean::euc_kr::forward](code: u16) -> (r: u32)
    ensures
        r == euc_kr_forward(code),
;

/// Names the pointer for code point `code` in the EUC-KR (windows-949) index; 0xffff where unmapped.
pub uninterp spec fn euc_kr_backward(code: u32) -> u16;

/// `euc_kr::backward` looks `code` up in its table; only the name of its result is claimed.
pub assume_specification[encoding_index_korean::euc_kr::backward](code: u32) -> (r: u16)
    ensures
        r == euc_kr_backward(code),
;

/// Names the code point for pointer `code` in the JIS X 0208 index; 0xffff where unmapped.
pub uninterp spec fn jis0208_forward(code: u16) -> u32;

/// `jis0208::forward` looks `code` up in its table; only the name of its result is claimed.
pub assume_specification[encoding_index_japanese::jis0208::forward](code: u16) -> (r: u32)
    ensures
        r == jis0208_forward(code),
;

/// Names the pointer for code point `code` in the JIS X 0208 index; 0xffff where unmapped.
pub uninterp spec fn jis0208_backward(code: u32) -> u16;

/// `jis0208::backward` looks `code` up in its table; only the name of its result is claimed.
pub assume_specification[encoding_index_japanese::jis0208::backward](code: u32) -> (r: u16)
    ensures
        r == jis0208_backward(code),
;

/// Names the Shift_JIS pointer for code point `code` in the JIS X 0208 index (the NEC and IBM extensions remapped); 0xffff where unmapped.
pub uninterp spec fn jis0208_backward_remapped(code: u32) -> u16;

/// `jis0208::backward_remapped` looks `code` up in its table; only the name of its result is claimed.
pub assume_specification[encoding_index_japanese::jis0208::backward_remapped](code: u32) -> (r: u16)
    ensures
        r == jis0208_backward_remapped(code),
;

/// Names the code point for pointer `code` in the JIS X 0212 index; 0xffff where unmapped.
pub uninterp spec fn jis0212_forward(code: u16) -> u32;

/// `jis0212::forward` looks `code` up in its table; only the name of its result is claimed.
pub assume_specification[encoding_index_japanese::jis0212::forward](code: u16) -> (r: u32)
    ensures
        r == jis0212_forward(code),
;

/// Names the code point for pointer `code` in the GB 18030 two-byte index; 0xffff where unmapped.
pub uninterp spec fn gb18030_forward(code: u16) -> u32;

/// `gb18030::forward` looks `code` up in its table; only the name of its result is claimed.
pub assume_specification[encoding_index_simpchinese::gb18030::forward](code: u16) -> (r: u32)
    ensures
        r == gb18030_forward(code),
;

/// Names the pointer for code point `code` in the GB 18030 two-byte index; 0xffff where unmapped.
pub uninterp spec fn gb18030_backward(code: u32) -> u16;

/// `gb18030::backward` looks `code` up in its table; only the name of its result is claimed.
pub assume_specification[encoding_index_simpchinese::gb18030::backward](code: u32) -> (r: u16)
    ensures
        r == gb18030_backward(code),
;

/// Names the code point for the four-byte pointer `code` in the GB 18030 ranges; 0xffffffff where outside them.
pub uninterp spec fn gb18030_ranges_forward(code: u32) -> u32;

/// `gb18030_ranges::forward` looks `code` up in its table; claimed are the name of its result and
/// that the pointers in the gaps of the ranges (above 39419 and below 189000, or above 1237575)
/// give 0xffffffff.
pub assume_specification[encoding_index_simpchinese::gb18030_ranges::forward](code: u32) -> (r: u32)
    ensures
        r == gb18030_ranges_forward(code),
        (code > 39419 && code < 189000) || code > 1237575 ==> r == 0xffffffff,
;

/// Names the four-byte pointer for code point `code` in the GB 18030 ranges; 0xffffffff below U+0080.
pub uninterp spec fn gb18030_ranges_backward(code: u32) -> u32;

/// `gb18030_ranges::backward` looks `code` up in its table (larger arguments are excluded, where its
/// arithmetic would overflow); claimed are the name of its result and that it is 0xffffffff exactly
/// below U+0080.
pub assume_specification[encoding_index_simpchinese::gb18030_ranges::backward](code: u32) -> (r: u32)
    requires
        code <= 0x10ffff,
    ensures
        r == gb18030_ranges_backward(code),
        (r == 0xffffffff) == (code < 0x80),
;

/// Names the code point for pointer `code` in the Big5 index; 0xffff where unmapped.
pub uninterp spec fn big5_forward(code: u16) -> u32;

/// `big5::forward` looks `code` up in its table; only the name of its result is claimed.
pub assume_specification[encoding_index_tradchinese::big5::forward](code: u16) -> (r: u32)
    ensures
        r == big5_forward(code),
;

/// Names the pointer for code point `code` in the Big5 index; 0xffff where unmapped.
pub uninterp spec fn big5_backward(code: u32) -> u16;

/// `big5::backward` looks `code` up in its table; only the name of its result is claimed.
pub assume_specification[encoding_index_tradchinese::big5::backward](code: u32) -> (r: u16)
    ensures
        r == big5_backward(code),
;

} // verus!
