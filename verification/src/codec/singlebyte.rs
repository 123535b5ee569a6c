//! Common codec implementation for single-byte encodings.

pub mod iso_8859_1;

use vstd::prelude::*;
use crate::index::{ibm866_backward, ibm866_forward, iso_8859_2_backward, iso_8859_2_forward, iso_8859_3_backward, iso_8859_3_forward, iso_8859_4_backward, iso_8859_4_forward, iso_8859_5_backward, iso_8859_5_forward, iso_8859_6_backward, iso_8859_6_forward, iso_8859_7_backward, iso_8859_7_forward, iso_8859_8_backward, iso_8859_8_forward, iso_8859_10_backward, iso_8859_10_forward, iso_8859_13_backward, iso_8859_13_forward, iso_8859_14_backward, iso_8859_14_forward, iso_8859_15_backward, iso_8859_15_forward, iso_8859_16_backward, iso_8859_16_forward, koi8_r_backward, koi8_r_forward, koi8_u_backward, koi8_u_forward, macintosh_backward, macintosh_forward, windows_874_backward, windows_874_forward, windows_1250_backward, windows_1250_forward, windows_1251_backward, windows_1251_forward, windows_1252_backward, windows_1252_forward, windows_1253_backward, windows_1253_forward, windows_1254_backward, windows_1254_forward, windows_1255_backward, windows_1255_forward, windows_1256_backward, windows_1256_forward, windows_1257_backward, windows_1257_forward, windows_1258_backward, windows_1258_forward, x_mac_cyrillic_backward, x_mac_cyrillic_forward};
use crate::types::{
    feed_decoder, feed_encoder, finish_decoder, ByteWriter, CodecError, DecodeStep, Encoding,
    RawDecoder, RawEncoder, StringWriter, INVALID_SEQUENCE,
};
use crate::util::{char_from_u32, StatefulDecoderHelper};

verus! {

/// The index table behind a single-byte encoding: which character each byte
/// from 0x80 on stands for.
#[derive(Clone, Copy, PartialEq, Eq, Structural)]
pub enum SingleByteIndex {
    /// The ibm866 table.
    Ibm866,
    /// The iso_8859_2 table.
    Iso8859_2,
    /// The iso_8859_3 table.
    Iso8859_3,
    /// The iso_8859_4 table.
    Iso8859_4,
    /// The iso_8859_5 table.
    Iso8859_5,
    /// The iso_8859_6 table.
    Iso8859_6,
    /// The iso_8859_7 table.
    Iso8859_7,
    /// The iso_8859_8 table.
    Iso8859_8,
    /// The iso_8859_10 table.
    Iso8859_10,
    /// The iso_8859_13 table.
    Iso8859_13,
    /// The iso_8859_14 table.
    Iso8859_14,
    /// The iso_8859_15 table.
    Iso8859_15,
    /// The iso_8859_16 table.
    Iso8859_16,
    /// The koi8_r table.
    Koi8R,
    /// The koi8_u table.
    Koi8U,
    /// The macintosh table.
    Macintosh,
    /// The windows_874 table.
    Windows874,
    /// The windows_1250 table.
    Windows1250,
    /// The windows_1251 table.
    Windows1251,
    /// The windows_1252 table.
    Windows1252,
    /// The windows_1253 table.
    Windows1253,
    /// The windows_1254 table.
    Windows1254,
    /// The windows_1255 table.
    Windows1255,
    /// The windows_1256 table.
    Windows1256,
    /// The windows_1257 table.
    Windows1257,
    /// The windows_1258 table.
    Windows1258,
    /// The x_mac_cyrillic table.
    XMacCyrillic,
    /// ISO 8859-1, where each byte stands for the code point of the same value.
    Iso8859_1,
    /// The WHATWG x-user-defined table, mapping bytes 80..FF to U+F780..U+F7FF.
    XUserDefined,
}

/// The code point (0xffff where unmapped) of byte `b`, which is at least 0x80.
pub open spec fn spec_index_forward(index: SingleByteIndex, b: u8) -> u16 {
    match index {
        SingleByteIndex::Ibm866 => ibm866_forward(b),
        SingleByteIndex::Iso8859_2 => iso_8859_2_forward(b),
        SingleByteIndex::Iso8859_3 => iso_8859_3_forward(b),
        SingleByteIndex::Iso8859_4 => iso_8859_4_forward(b),
        SingleByteIndex::Iso8859_5 => iso_8859_5_forward(b),
        SingleByteIndex::Iso8859_6 => iso_8859_6_forward(b),
        SingleByteIndex::Iso8859_7 => iso_8859_7_forward(b),
        SingleByteIndex::Iso8859_8 => iso_8859_8_forward(b),
        SingleByteIndex::Iso8859_10 => iso_8859_10_forward(b),
        SingleByteIndex::Iso8859_13 => iso_8859_13_forward(b),
        SingleByteIndex::Iso8859_14 => iso_8859_14_forward(b),
        SingleByteIndex::Iso8859_15 => iso_8859_15_forward(b),
        SingleByteIndex::Iso8859_16 => iso_8859_16_forward(b),
        SingleByteIndex::Koi8R => koi8_r_forward(b),
        SingleByteIndex::Koi8U => koi8_u_forward(b),
        SingleByteIndex::Macintosh => macintosh_forward(b),
        SingleByteIndex::Windows874 => windows_874_forward(b),
        SingleByteIndex::Windows1250 => windows_1250_forward(b),
        SingleByteIndex::Windows1251 => windows_1251_forward(b),
        SingleByteIndex::Windows1252 => windows_1252_forward(b),
        SingleByteIndex::Windows1253 => windows_1253_forward(b),
        SingleByteIndex::Windows1254 => windows_1254_forward(b),
        SingleByteIndex::Windows1255 => windows_1255_forward(b),
        SingleByteIndex::Windows1256 => windows_1256_forward(b),
        SingleByteIndex::Windows1257 => windows_1257_forward(b),
        SingleByteIndex::Windows1258 => windows_1258_forward(b),
        SingleByteIndex::XMacCyrillic => x_mac_cyrillic_forward(b),
        SingleByteIndex::Iso8859_1 => b as u16,
        SingleByteIndex::XUserDefined => (0xf780 + (b - 0x80)) as u16,
    }
}

/// The byte (0 where unmapped) for the code point `c` of the basic multilingual plane.
pub open spec fn spec_index_backward(index: SingleByteIndex, c: u16) -> u8 {
    match index {
        SingleByteIndex::Ibm866 => ibm866_backward(c as u32),
        SingleByteIndex::Iso8859_2 => iso_8859_2_backward(c as u32),
        SingleByteIndex::Iso8859_3 => iso_8859_3_backward(c as u32),
        SingleByteIndex::Iso8859_4 => iso_8859_4_backward(c as u32),
        SingleByteIndex::Iso8859_5 => iso_8859_5_backward(c as u32),
        SingleByteIndex::Iso8859_6 => iso_8859_6_backward(c as u32),
        SingleByteIndex::Iso8859_7 => iso_8859_7_backward(c as u32),
        SingleByteIndex::Iso8859_8 => iso_8859_8_backward(c as u32),
        SingleByteIndex::Iso8859_10 => iso_8859_10_backward(c as u32),
        SingleByteIndex::Iso8859_13 => iso_8859_13_backward(c as u32),
        SingleByteIndex::Iso8859_14 => iso_8859_14_backward(c as u32),
        SingleByteIndex::Iso8859_15 => iso_8859_15_backward(c as u32),
        SingleByteIndex::Iso8859_16 => iso_8859_16_backward(c as u32),
        SingleByteIndex::Koi8R => koi8_r_backward(c as u32),
        SingleByteIndex::Koi8U => koi8_u_backward(c as u32),
        SingleByteIndex::Macintosh => macintosh_backward(c as u32),
        SingleByteIndex::Windows874 => windows_874_backward(c as u32),
        SingleByteIndex::Windows1250 => windows_1250_backward(c as u32),
        SingleByteIndex::Windows1251 => windows_1251_backward(c as u32),
        SingleByteIndex::Windows1252 => windows_1252_backward(c as u32),
        SingleByteIndex::Windows1253 => windows_1253_backward(c as u32),
        SingleByteIndex::Windows1254 => windows_1254_backward(c as u32),
        SingleByteIndex::Windows1255 => windows_1255_backward(c as u32),
        SingleByteIndex::Windows1256 => windows_1256_backward(c as u32),
        SingleByteIndex::Windows1257 => windows_1257_backward(c as u32),
        SingleByteIndex::Windows1258 => windows_1258_backward(c as u32),
        SingleByteIndex::XMacCyrillic => x_mac_cyrillic_backward(c as u32),
        SingleByteIndex::Iso8859_1 => if 0x80 <= c <= 0xff {
            c as u8
        } else {
            0
        },
        SingleByteIndex::XUserDefined => if 0xf780 <= c <= 0xf7ff {
            (c - 0xf780 + 0x80) as u8
        } else {
            0
        },
    }
}

/// Looks byte `b` (at least 0x80) up in the table.
pub fn index_forward(index: SingleByteIndex, b: u8) -> (r: u16)
    requires
        b >= 0x80,
    ensures
        r == spec_index_forward(index, b),
{
    match index {
        SingleByteIndex::Ibm866 => encoding_index_singlebyte::ibm866::forward(b),
        SingleByteIndex::Iso8859_2 => encoding_index_singlebyte::iso_8859_2::forward(b),
        SingleByteIndex::Iso8859_3 => encoding_index_singlebyte::iso_8859_3::forward(b),
        SingleByteIndex::Iso8859_4 => encoding_index_singlebyte::iso_8859_4::forward(b),
        SingleByteIndex::Iso8859_5 => encoding_index_singlebyte::iso_8859_5::forward(b),
        SingleByteIndex::Iso8859_6 => encoding_index_singlebyte::iso_8859_6::forward(b),
        SingleByteIndex::Iso8859_7 => encoding_index_singlebyte::iso_8859_7::forward(b),
        SingleByteIndex::Iso8859_8 => encoding_index_singlebyte::iso_8859_8::forward(b),
        SingleByteIndex::Iso8859_10 => encoding_index_singlebyte::iso_8859_10::forward(b),
        SingleByteIndex::Iso8859_13 => encoding_index_singlebyte::iso_8859_13::forward(b),
        SingleByteIndex::Iso8859_14 => encoding_index_singlebyte::iso_8859_14::forward(b),
        SingleByteIndex::Iso8859_15 => encoding_index_singlebyte::iso_8859_15::forward(b),
        SingleByteIndex::Iso8859_16 => encoding_index_singlebyte::iso_8859_16::forward(b),
        SingleByteIndex::Koi8R => encoding_index_singlebyte::koi8_r::forward(b),
        SingleByteIndex::Koi8U => encoding_index_singlebyte::koi8_u::forward(b),
        SingleByteIndex::Macintosh => encoding_index_singlebyte::macintosh::forward(b),
        SingleByteIndex::Windows874 => encoding_index_singlebyte::windows_874::forward(b),
        SingleByteIndex::Windows1250 => encoding_index_singlebyte::windows_1250::forward(b),
        SingleByteIndex::Windows1251 => encoding_index_singlebyte::windows_1251::forward(b),
        SingleByteIndex::Windows1252 => encoding_index_singlebyte::windows_1252::forward(b),
        SingleByteIndex::Windows1253 => encoding_index_singlebyte::windows_1253::forward(b),
        SingleByteIndex::Windows1254 => encoding_index_singlebyte::windows_1254::forward(b),
        SingleByteIndex::Windows1255 => encoding_index_singlebyte::windows_1255::forward(b),
        SingleByteIndex::Windows1256 => encoding_index_singlebyte::windows_1256::forward(b),
        SingleByteIndex::Windows1257 => encoding_index_singlebyte::windows_1257::forward(b),
        SingleByteIndex::Windows1258 => encoding_index_singlebyte::windows_1258::forward(b),
        SingleByteIndex::XMacCyrillic => encoding_index_singlebyte::x_mac_cyrillic::forward(b),
        SingleByteIndex::Iso8859_1 => iso_8859_1::forward(b),
        SingleByteIndex::XUserDefined => crate::index::whatwg_x_user_defined::forward(b - 0x80),
    }
}

/// Looks the code point `c` up in the table, giving its byte or 0.
pub fn index_backward(index: SingleByteIndex, c: u16) -> (r: u8)
    ensures
        r == spec_index_backward(index, c),
{
    match index {
        SingleByteIndex::Ibm866 => encoding_index_singlebyte::ibm866::backward(c as u32),
        SingleByteIndex::Iso8859_2 => encoding_index_singlebyte::iso_8859_2::backward(c as u32),
        SingleByteIndex::Iso8859_3 => encoding_index_singlebyte::iso_8859_3::backward(c as u32),
        SingleByteIndex::Iso8859_4 => encoding_index_singlebyte::iso_8859_4::backward(c as u32),
        SingleByteIndex::Iso8859_5 => encoding_index_singlebyte::iso_8859_5::backward(c as u32),
        SingleByteIndex::Iso8859_6 => encoding_index_singlebyte::iso_8859_6::backward(c as u32),
        SingleByteIndex::Iso8859_7 => encoding_index_singlebyte::iso_8859_7::backward(c as u32),
        SingleByteIndex::Iso8859_8 => encoding_index_singlebyte::iso_8859_8::backward(c as u32),
        SingleByteIndex::Iso8859_10 => encoding_index_singlebyte::iso_8859_10::backward(c as u32),
        SingleByteIndex::Iso8859_13 => encoding_index_singlebyte::iso_8859_13::backward(c as u32),
        SingleByteIndex::Iso8859_14 => encoding_index_singlebyte::iso_8859_14::backward(c as u32),
        SingleByteIndex::Iso8859_15 => encoding_index_singlebyte::iso_8859_15::backward(c as u32),
        SingleByteIndex::Iso8859_16 => encoding_index_singlebyte::iso_8859_16::backward(c as u32),
        SingleByteIndex::Koi8R => encoding_index_singlebyte::koi8_r::backward(c as u32),
        SingleByteIndex::Koi8U => encoding_index_singlebyte::koi8_u::backward(c as u32),
        SingleByteIndex::Macintosh => encoding_index_singlebyte::macintosh::backward(c as u32),
        SingleByteIndex::Windows874 => encoding_index_singlebyte::windows_874::backward(c as u32),
        SingleByteIndex::Windows1250 => encoding_index_singlebyte::windows_1250::backward(c as u32),
        SingleByteIndex::Windows1251 => encoding_index_singlebyte::windows_1251::backward(c as u32),
        SingleByteIndex::Windows1252 => encoding_index_singlebyte::windows_1252::backward(c as u32),
        SingleByteIndex::Windows1253 => encoding_index_singlebyte::windows_1253::backward(c as u32),
        SingleByteIndex::Windows1254 => encoding_index_singlebyte::windows_1254::backward(c as u32),
        SingleByteIndex::Windows1255 => encoding_index_singlebyte::windows_1255::backward(c as u32),
        SingleByteIndex::Windows1256 => encoding_index_singlebyte::windows_1256::backward(c as u32),
        SingleByteIndex::Windows1257 => encoding_index_singlebyte::windows_1257::backward(c as u32),
        SingleByteIndex::Windows1258 => encoding_index_singlebyte::windows_1258::backward(c as u32),
        SingleByteIndex::XMacCyrillic => encoding_index_singlebyte::x_mac_cyrillic::backward(c as u32),
        SingleByteIndex::Iso8859_1 => iso_8859_1::backward(c),
        SingleByteIndex::XUserDefined => {
            let i = crate::index::whatwg_x_user_defined::backward(c);
            if i == 0xff {
                0
            } else {
                i + 0x80
            }
        },
    }
}

/// A common framework for single-byte encodings based on ASCII: each encoding
/// is a table for the bytes from 0x80 on, under a name.
#[derive(Clone, Copy, PartialEq, Eq, Structural)]
pub enum SingleByteEncoding {
    /// ibm866.
    Ibm866,
    /// iso-8859-1.
    Iso8859_1,
    /// iso-8859-2.
    Iso8859_2,
    /// iso-8859-3.
    Iso8859_3,
    /// iso-8859-4.
    Iso8859_4,
    /// iso-8859-5.
    Iso8859_5,
    /// iso-8859-6.
    Iso8859_6,
    /// iso-8859-7.
    Iso8859_7,
    /// iso-8859-8.
    Iso8859_8,
    /// iso-8859-10.
    Iso8859_10,
    /// iso-8859-13.
    Iso8859_13,
    /// iso-8859-14.
    Iso8859_14,
    /// iso-8859-15.
    Iso8859_15,
    /// iso-8859-16.
    Iso8859_16,
    /// koi8-r.
    Koi8R,
    /// koi8-u.
    Koi8U,
    /// mac-roman.
    MacRoman,
    /// windows-874.
    Windows874,
    /// windows-1250.
    Windows1250,
    /// windows-1251.
    Windows1251,
    /// windows-1252.
    Windows1252,
    /// windows-1253.
    Windows1253,
    /// windows-1254.
    Windows1254,
    /// windows-1255.
    Windows1255,
    /// windows-1256.
    Windows1256,
    /// windows-1257.
    Windows1257,
    /// windows-1258.
    Windows1258,
    /// mac-cyrillic.
    MacCyrillic,
    /// iso-8859-8-i.
    Iso8859_8I,
    /// pua-mapped-binary.
    XUserDefined,
}

impl SingleByteEncoding {
    /// The table of this encoding.
    pub open spec fn spec_index(self) -> SingleByteIndex {
        match self {
            SingleByteEncoding::Ibm866 => SingleByteIndex::Ibm866,
            SingleByteEncoding::Iso8859_1 => SingleByteIndex::Iso8859_1,
            SingleByteEncoding::Iso8859_2 => SingleByteIndex::Iso8859_2,
            SingleByteEncoding::Iso8859_3 => SingleByteIndex::Iso8859_3,
            SingleByteEncoding::Iso8859_4 => SingleByteIndex::Iso8859_4,
            SingleByteEncoding::Iso8859_5 => SingleByteIndex::Iso8859_5,
            SingleByteEncoding::Iso8859_6 => SingleByteIndex::Iso8859_6,
            SingleByteEncoding::Iso8859_7 => SingleByteIndex::Iso8859_7,
            SingleByteEncoding::Iso8859_8 => SingleByteIndex::Iso8859_8,
            SingleByteEncoding::Iso8859_10 => SingleByteIndex::Iso8859_10,
            SingleByteEncoding::Iso8859_13 => SingleByteIndex::Iso8859_13,
            SingleByteEncoding::Iso8859_14 => SingleByteIndex::Iso8859_14,
            SingleByteEncoding::Iso8859_15 => SingleByteIndex::Iso8859_15,
            SingleByteEncoding::Iso8859_16 => SingleByteIndex::Iso8859_16,
            SingleByteEncoding::Koi8R => SingleByteIndex::Koi8R,
            SingleByteEncoding::Koi8U => SingleByteIndex::Koi8U,
            SingleByteEncoding::MacRoman => SingleByteIndex::Macintosh,
            SingleByteEncoding::Windows874 => SingleByteIndex::Windows874,
            SingleByteEncoding::Windows1250 => SingleByteIndex::Windows1250,
            SingleByteEncoding::Windows1251 => SingleByteIndex::Windows1251,
            SingleByteEncoding::Windows1252 => SingleByteIndex::Windows1252,
            SingleByteEncoding::Windows1253 => SingleByteIndex::Windows1253,
            SingleByteEncoding::Windows1254 => SingleByteIndex::Windows1254,
            SingleByteEncoding::Windows1255 => SingleByteIndex::Windows1255,
            SingleByteEncoding::Windows1256 => SingleByteIndex::Windows1256,
            SingleByteEncoding::Windows1257 => SingleByteIndex::Windows1257,
            SingleByteEncoding::Windows1258 => SingleByteIndex::Windows1258,
            SingleByteEncoding::MacCyrillic => SingleByteIndex::XMacCyrillic,
            SingleByteEncoding::Iso8859_8I => SingleByteIndex::Iso8859_8,
            SingleByteEncoding::XUserDefined => SingleByteIndex::XUserDefined,
        }
    }

    /// The table of this encoding.
    pub fn index(&self) -> (r: SingleByteIndex)
        ensures
            r == self.spec_index(),
    {
        match self {
            SingleByteEncoding::Ibm866 => SingleByteIndex::Ibm866,
            SingleByteEncoding::Iso8859_1 => SingleByteIndex::Iso8859_1,
            SingleByteEncoding::Iso8859_2 => SingleByteIndex::Iso8859_2,
            SingleByteEncoding::Iso8859_3 => SingleByteIndex::Iso8859_3,
            SingleByteEncoding::Iso8859_4 => SingleByteIndex::Iso8859_4,
            SingleByteEncoding::Iso8859_5 => SingleByteIndex::Iso8859_5,
            SingleByteEncoding::Iso8859_6 => SingleByteIndex::Iso8859_6,
            SingleByteEncoding::Iso8859_7 => SingleByteIndex::Iso8859_7,
            SingleByteEncoding::Iso8859_8 => SingleByteIndex::Iso8859_8,
            SingleByteEncoding::Iso8859_10 => SingleByteIndex::Iso8859_10,
            SingleByteEncoding::Iso8859_13 => SingleByteIndex::Iso8859_13,
            SingleByteEncoding::Iso8859_14 => SingleByteIndex::Iso8859_14,
            SingleByteEncoding::Iso8859_15 => SingleByteIndex::Iso8859_15,
            SingleByteEncoding::Iso8859_16 => SingleByteIndex::Iso8859_16,
            SingleByteEncoding::Koi8R => SingleByteIndex::Koi8R,
            SingleByteEncoding::Koi8U => SingleByteIndex::Koi8U,
            SingleByteEncoding::MacRoman => SingleByteIndex::Macintosh,
            SingleByteEncoding::Windows874 => SingleByteIndex::Windows874,
            SingleByteEncoding::Windows1250 => SingleByteIndex::Windows1250,
            SingleByteEncoding::Windows1251 => SingleByteIndex::Windows1251,
            SingleByteEncoding::Windows1252 => SingleByteIndex::Windows1252,
            SingleByteEncoding::Windows1253 => SingleByteIndex::Windows1253,
            SingleByteEncoding::Windows1254 => SingleByteIndex::Windows1254,
            SingleByteEncoding::Windows1255 => SingleByteIndex::Windows1255,
            SingleByteEncoding::Windows1256 => SingleByteIndex::Windows1256,
            SingleByteEncoding::Windows1257 => SingleByteIndex::Windows1257,
            SingleByteEncoding::Windows1258 => SingleByteIndex::Windows1258,
            SingleByteEncoding::MacCyrillic => SingleByteIndex::XMacCyrillic,
            SingleByteEncoding::Iso8859_8I => SingleByteIndex::Iso8859_8,
            SingleByteEncoding::XUserDefined => SingleByteIndex::XUserDefined,
        }
    }
}

impl Encoding for SingleByteEncoding {
    type RawEnc = SingleByteEncoder;

    type RawDec = SingleByteDecoder;

    open spec fn spec_name(&self) -> &'static str {
        match *self {
            SingleByteEncoding::Ibm866 => "ibm866",
            SingleByteEncoding::Iso8859_1 => "iso-8859-1",
            SingleByteEncoding::Iso8859_2 => "iso-8859-2",
            SingleByteEncoding::Iso8859_3 => "iso-8859-3",
            SingleByteEncoding::Iso8859_4 => "iso-8859-4",
            SingleByteEncoding::Iso8859_5 => "iso-8859-5",
            SingleByteEncoding::Iso8859_6 => "iso-8859-6",
            SingleByteEncoding::Iso8859_7 => "iso-8859-7",
            SingleByteEncoding::Iso8859_8 => "iso-8859-8",
            SingleByteEncoding::Iso8859_10 => "iso-8859-10",
            SingleByteEncoding::Iso8859_13 => "iso-8859-13",
            SingleByteEncoding::Iso8859_14 => "iso-8859-14",
            SingleByteEncoding::Iso8859_15 => "iso-8859-15",
            SingleByteEncoding::Iso8859_16 => "iso-8859-16",
            SingleByteEncoding::Koi8R => "koi8-r",
            SingleByteEncoding::Koi8U => "koi8-u",
            SingleByteEncoding::MacRoman => "mac-roman",
            SingleByteEncoding::Windows874 => "windows-874",
            SingleByteEncoding::Windows1250 => "windows-1250",
            SingleByteEncoding::Windows1251 => "windows-1251",
            SingleByteEncoding::Windows1252 => "windows-1252",
            SingleByteEncoding::Windows1253 => "windows-1253",
            SingleByteEncoding::Windows1254 => "windows-1254",
            SingleByteEncoding::Windows1255 => "windows-1255",
            SingleByteEncoding::Windows1256 => "windows-1256",
            SingleByteEncoding::Windows1257 => "windows-1257",
            SingleByteEncoding::Windows1258 => "windows-1258",
            SingleByteEncoding::MacCyrillic => "mac-cyrillic",
            SingleByteEncoding::Iso8859_8I => "iso-8859-8-i",
            SingleByteEncoding::XUserDefined => "pua-mapped-binary",
        }
    }

    open spec fn spec_whatwg_name(&self) -> Option<&'static str> {
        match *self {
            SingleByteEncoding::Ibm866 => Some("ibm866"),
            SingleByteEncoding::Iso8859_1 => None,
            SingleByteEncoding::Iso8859_2 => Some("iso-8859-2"),
            SingleByteEncoding::Iso8859_3 => Some("iso-8859-3"),
            SingleByteEncoding::Iso8859_4 => Some("iso-8859-4"),
            SingleByteEncoding::Iso8859_5 => Some("iso-8859-5"),
            SingleByteEncoding::Iso8859_6 => Some("iso-8859-6"),
            SingleByteEncoding::Iso8859_7 => Some("iso-8859-7"),
            SingleByteEncoding::Iso8859_8 => Some("iso-8859-8"),
            SingleByteEncoding::Iso8859_10 => Some("iso-8859-10"),
            SingleByteEncoding::Iso8859_13 => Some("iso-8859-13"),
            SingleByteEncoding::Iso8859_14 => Some("iso-8859-14"),
            SingleByteEncoding::Iso8859_15 => Some("iso-8859-15"),
            SingleByteEncoding::Iso8859_16 => Some("iso-8859-16"),
            SingleByteEncoding::Koi8R => Some("koi8-r"),
            SingleByteEncoding::Koi8U => Some("koi8-u"),
            SingleByteEncoding::MacRoman => Some("macintosh"),
            SingleByteEncoding::Windows874 => Some("windows-874"),
            SingleByteEncoding::Windows1250 => Some("windows-1250"),
            SingleByteEncoding::Windows1251 => Some("windows-1251"),
            SingleByteEncoding::Windows1252 => Some("windows-1252"),
            SingleByteEncoding::Windows1253 => Some("windows-1253"),
            SingleByteEncoding::Windows1254 => Some("windows-1254"),
            SingleByteEncoding::Windows1255 => Some("windows-1255"),
            SingleByteEncoding::Windows1256 => Some("windows-1256"),
            SingleByteEncoding::Windows1257 => Some("windows-1257"),
            SingleByteEncoding::Windows1258 => Some("windows-1258"),
            SingleByteEncoding::MacCyrillic => Some("x-mac-cyrillic"),
            SingleByteEncoding::Iso8859_8I => Some("iso-8859-8-i"),
            SingleByteEncoding::XUserDefined => Some("x-user-defined"),
        }
    }

    open spec fn spec_raw_encoder(&self) -> SingleByteEncoder {
        SingleByteEncoder { index: self.spec_index() }
    }

    open spec fn spec_raw_decoder(&self) -> SingleByteDecoder {
        SingleByteDecoder { index: self.spec_index() }
    }

    fn name(&self) -> (r: &'static str) {
        match self {
            SingleByteEncoding::Ibm866 => "ibm866",
            SingleByteEncoding::Iso8859_1 => "iso-8859-1",
            SingleByteEncoding::Iso8859_2 => "iso-8859-2",
            SingleByteEncoding::Iso8859_3 => "iso-8859-3",
            SingleByteEncoding::Iso8859_4 => "iso-8859-4",
            SingleByteEncoding::Iso8859_5 => "iso-8859-5",
            SingleByteEncoding::Iso8859_6 => "iso-8859-6",
            SingleByteEncoding::Iso8859_7 => "iso-8859-7",
            SingleByteEncoding::Iso8859_8 => "iso-8859-8",
            SingleByteEncoding::Iso8859_10 => "iso-8859-10",
            SingleByteEncoding::Iso8859_13 => "iso-8859-13",
            SingleByteEncoding::Iso8859_14 => "iso-8859-14",
            SingleByteEncoding::Iso8859_15 => "iso-8859-15",
            SingleByteEncoding::Iso8859_16 => "iso-8859-16",
            SingleByteEncoding::Koi8R => "koi8-r",
            SingleByteEncoding::Koi8U => "koi8-u",
            SingleByteEncoding::MacRoman => "mac-roman",
            SingleByteEncoding::Windows874 => "windows-874",
            SingleByteEncoding::Windows1250 => "windows-1250",
            SingleByteEncoding::Windows1251 => "windows-1251",
            SingleByteEncoding::Windows1252 => "windows-1252",
            SingleByteEncoding::Windows1253 => "windows-1253",
            SingleByteEncoding::Windows1254 => "windows-1254",
            SingleByteEncoding::Windows1255 => "windows-1255",
            SingleByteEncoding::Windows1256 => "windows-1256",
            SingleByteEncoding::Windows1257 => "windows-1257",
            SingleByteEncoding::Windows1258 => "windows-1258",
            SingleByteEncoding::MacCyrillic => "mac-cyrillic",
            SingleByteEncoding::Iso8859_8I => "iso-8859-8-i",
            SingleByteEncoding::XUserDefined => "pua-mapped-binary",
        }
    }

    fn whatwg_name(&self) -> (r: Option<&'static str>) {
        match self {
            SingleByteEncoding::Ibm866 => Some("ibm866"),
            SingleByteEncoding::Iso8859_1 => None,
            SingleByteEncoding::Iso8859_2 => Some("iso-8859-2"),
            SingleByteEncoding::Iso8859_3 => Some("iso-8859-3"),
            SingleByteEncoding::Iso8859_4 => Some("iso-8859-4"),
            SingleByteEncoding::Iso8859_5 => Some("iso-8859-5"),
            SingleByteEncoding::Iso8859_6 => Some("iso-8859-6"),
            SingleByteEncoding::Iso8859_7 => Some("iso-8859-7"),
            SingleByteEncoding::Iso8859_8 => Some("iso-8859-8"),
            SingleByteEncoding::Iso8859_10 => Some("iso-8859-10"),
            SingleByteEncoding::Iso8859_13 => Some("iso-8859-13"),
            SingleByteEncoding::Iso8859_14 => Some("iso-8859-14"),
            SingleByteEncoding::Iso8859_15 => Some("iso-8859-15"),
            SingleByteEncoding::Iso8859_16 => Some("iso-8859-16"),
            SingleByteEncoding::Koi8R => Some("koi8-r"),
            SingleByteEncoding::Koi8U => Some("koi8-u"),
            SingleByteEncoding::MacRoman => Some("macintosh"),
            SingleByteEncoding::Windows874 => Some("windows-874"),
            SingleByteEncoding::Windows1250 => Some("windows-1250"),
            SingleByteEncoding::Windows1251 => Some("windows-1251"),
            SingleByteEncoding::Windows1252 => Some("windows-1252"),
            SingleByteEncoding::Windows1253 => Some("windows-1253"),
            SingleByteEncoding::Windows1254 => Some("windows-1254"),
            SingleByteEncoding::Windows1255 => Some("windows-1255"),
            SingleByteEncoding::Windows1256 => Some("windows-1256"),
            SingleByteEncoding::Windows1257 => Some("windows-1257"),
            SingleByteEncoding::Windows1258 => Some("windows-1258"),
            SingleByteEncoding::MacCyrillic => Some("x-mac-cyrillic"),
            SingleByteEncoding::Iso8859_8I => Some("iso-8859-8-i"),
            SingleByteEncoding::XUserDefined => Some("x-user-defined"),
        }
    }

    fn raw_encoder(&self) -> (r: SingleByteEncoder) {
        SingleByteEncoder::new(self.index())
    }

    fn raw_decoder(&self) -> (r: SingleByteDecoder) {
        let d = SingleByteDecoder::new(self.index());
        assert(d.wf() && d.spec_stable());
        d
    }
}

/// An encoder for single-byte encodings based on ASCII.
#[derive(Clone, Copy)]
pub struct SingleByteEncoder {
    /// The table in use.
    pub index: SingleByteIndex,
}

impl SingleByteEncoder {
    /// Creates a new encoder for the table `index`.
    pub fn new(index: SingleByteIndex) -> (r: SingleByteEncoder)
        ensures
            r.index == index,
    {
        SingleByteEncoder { index }
    }

    /// Feeds a string to the encoder; see `RawEncoder`.
    pub fn raw_feed<W: ByteWriter>(&mut self, input: &str, output: &mut W) -> (r: (
        usize,
        Option<CodecError>,
    ))
        requires
            vstd::utf8::encode_utf8(input@).len() <= isize::MAX,
        ensures
            crate::types::encode_feed_post(
                *old(self),
                input@,
                *final(self),
                old(output).written(),
                final(output).written(),
                r,
            ),
    {
        feed_encoder(self, input, output)
    }

    /// Finishes the encoder; a single-byte encoder never has pending state.
    pub fn raw_finish<W: ByteWriter>(&mut self, output: &mut W) -> (r: Option<CodecError>)
        ensures
            r is None,
            *final(self) == *old(self),
            final(output).written() == old(output).written(),
    {
        None
    }
}

impl RawEncoder for SingleByteEncoder {
    open spec fn spec_encode_char(&self, c: char) -> Option<(Self, Seq<u8>)> {
        if (c as u32) < 0x80 {
            Some((*self, seq![(c as u32) as u8]))
        } else if (c as u32) <= 0xffff && spec_index_backward(self.index, c as u16) != 0 {
            Some((*self, seq![spec_index_backward(self.index, c as u16)]))
        } else {
            None
        }
    }

    open spec fn spec_fresh(&self) -> Self {
        *self
    }

    open spec fn spec_ascii_compatible(&self) -> bool {
        true
    }

    open spec fn spec_total(&self) -> bool {
        false
    }

    open spec fn spec_encodes_ascii(&self) -> bool {
        true
    }

    proof fn lemma_encodes_ascii(&self, c: char) {
    }

    proof fn lemma_ascii_compatible_preserved(&self, c: char) {
    }

    proof fn lemma_ascii_char(&self, c: char) {
    }

    fn from_self(&self) -> (r: Self) {
        SingleByteEncoder::new(self.index)
    }

    fn is_ascii_compatible(&self) -> (r: bool) {
        true
    }

    fn encode_char<W: ByteWriter>(&mut self, c: char, output: &mut W) -> (ok: bool) {
        if (c as u32) < 0x80 {
            output.write_byte((c as u32) as u8);
            return true;
        }
        if (c as u32) <= 0xffff {
            let b = index_backward(self.index, c as u16);
            if b != 0 {
                output.write_byte(b);
                return true;
            }
        }
        false
    }
}

/// A decoder for single-byte encodings based on ASCII.
#[derive(Clone, Copy)]
pub struct SingleByteDecoder {
    /// The table in use.
    pub index: SingleByteIndex,
}

impl SingleByteDecoder {
    /// Creates a new decoder for the table `index`.
    pub fn new(index: SingleByteIndex) -> (r: SingleByteDecoder)
        ensures
            r.index == index,
    {
        SingleByteDecoder { index }
    }

    /// Feeds bytes to the decoder; see `RawDecoder`.
    pub fn raw_feed<W: StringWriter>(&mut self, input: &[u8], output: &mut W) -> (r: (
        usize,
        Option<CodecError>,
    ))
        requires
            input@.len() <= isize::MAX,
        ensures
            crate::types::decode_feed_post(
                *old(self),
                input@,
                *final(self),
                old(output).written(),
                final(output).written(),
                r,
            ),
    {
        feed_decoder(self, input, output)
    }

    /// Finishes the decoder; a single-byte decoder never has pending bytes.
    pub fn raw_finish<W: StringWriter>(&mut self, output: &mut W) -> (r: Option<CodecError>)
        ensures
            r is None,
            *final(self) == *old(self),
            final(output).written() == old(output).written(),
    {
        finish_decoder(self, output)
    }
}

/// The character that byte `b` (at least 0x80) stands for, if the table maps it.
pub open spec fn spec_decoded(index: SingleByteIndex, b: u8) -> Option<char> {
    let v = spec_index_forward(index, b);
    if v != 0xffff && vstd::utf8::is_scalar(v as u32) {
        Some((v as u32) as char)
    } else {
        None
    }
}

impl RawDecoder for SingleByteDecoder {
    open spec fn wf(&self) -> bool {
        true
    }

    open spec fn spec_stable(&self) -> bool {
        true
    }

    open spec fn spec_pending(&self) -> nat {
        0
    }

    open spec fn spec_step(&self, b: u8) -> DecodeStep<Self> {
        if b < 0x80 {
            (*self, seq![b as char], None)
        } else {
            match spec_decoded(self.index, b) {
                Some(c) => (*self, seq![c], None),
                None => (*self, Seq::empty(), Some((0, INVALID_SEQUENCE))),
            }
        }
    }

    open spec fn spec_finish_error(&self) -> Option<&'static str> {
        None
    }

    open spec fn spec_fresh(&self) -> Self {
        *self
    }

    open spec fn spec_ascii_compatible(&self) -> bool {
        true
    }

    proof fn lemma_step(&self, b: u8) {
    }

    proof fn lemma_fresh(&self) {
    }

    proof fn lemma_ascii_byte(&self, b: u8) {
    }

    fn from_self(&self) -> (r: Self) {
        SingleByteDecoder::new(self.index)
    }

    fn is_ascii_compatible(&self) -> (r: bool) {
        true
    }

    fn is_stable(&self) -> (r: bool) {
        true
    }

    fn decode_byte<W: StringWriter>(
        &mut self,
        ctx: &mut StatefulDecoderHelper,
        b: u8,
        output: &mut W,
    ) {
        if b < 0x80 {
            ctx.emit(output, b as char);
            return;
        }
        let v = index_forward(self.index, b);
        if v != 0xffff {
            match char_from_u32(v as u32) {
                Some(c) => {
                    proof {
                        vstd::utf8::char_u32_cast(c, v as u32);
                    }
                    ctx.emit(output, c);
                    return;
                },
                None => {},
            }
        }
        ctx.backup_and_err(0, INVALID_SEQUENCE);
    }

    fn finish(&mut self) -> (r: Option<&'static str>) {
        None
    }
}

/// Whether the decoder of `e` reads byte `b` as the table value `v`: the character `v` where it is
/// one, and an error otherwise.
pub open spec fn decodes_byte_as(e: SingleByteEncoding, b: u8, v: u16) -> bool {
    let d = e.spec_raw_decoder();
    d.spec_step(b) == if v != 0xffff && vstd::utf8::is_scalar(v as u32) {
        (d, seq![(v as u32) as char], Option::<(nat, &'static str)>::None)
    } else {
        (d, Seq::<char>::empty(), Some((0nat, INVALID_SEQUENCE)))
    }
}

/// Whether the encoder of `e` writes `c`, a character from U+0080 to U+FFFF, as the table byte
/// `byte`, and finds it unrepresentable where the table has none (0).
pub open spec fn encodes_char_as(e: SingleByteEncoding, c: char, byte: u8) -> bool {
    let enc = e.spec_raw_encoder();
    0x80 <= (c as u32) <= 0xffff ==> enc.spec_encode_char(c) == if byte != 0 {
        Some((enc, seq![byte]))
    } else {
        None
    }
}

/// Each single-byte encoding decodes and encodes through the index table of its own name, in both
/// directions: the encoding named windows-1251 reads the bytes from 0x80 on through the windows-1251
/// table and writes characters through the same table, and so on for each of them (iso-8859-8-i
/// shares the iso-8859-8 table, mac-roman is macintosh, and mac-cyrillic is x-mac-cyrillic).
pub proof fn lemma_single_byte_tables(b: u8, c: char)
    requires
        b >= 0x80,
    ensures
        decodes_byte_as(SingleByteEncoding::Ibm866, b, ibm866_forward(b)),
        encodes_char_as(SingleByteEncoding::Ibm866, c, ibm866_backward(c as u32)),
        decodes_byte_as(SingleByteEncoding::Iso8859_2, b, iso_8859_2_forward(b)),
        encodes_char_as(SingleByteEncoding::Iso8859_2, c, iso_8859_2_backward(c as u32)),
        decodes_byte_as(SingleByteEncoding::Iso8859_3, b, iso_8859_3_forward(b)),
        encodes_char_as(SingleByteEncoding::Iso8859_3, c, iso_8859_3_backward(c as u32)),
        decodes_byte_as(SingleByteEncoding::Iso8859_4, b, iso_8859_4_forward(b)),
        encodes_char_as(SingleByteEncoding::Iso8859_4, c, iso_8859_4_backward(c as u32)),
        decodes_byte_as(SingleByteEncoding::Iso8859_5, b, iso_8859_5_forward(b)),
        encodes_char_as(SingleByteEncoding::Iso8859_5, c, iso_8859_5_backward(c as u32)),
        decodes_byte_as(SingleByteEncoding::Iso8859_6, b, iso_8859_6_forward(b)),
        encodes_char_as(SingleByteEncoding::Iso8859_6, c, iso_8859_6_backward(c as u32)),
        decodes_byte_as(SingleByteEncoding::Iso8859_7, b, iso_8859_7_forward(b)),
        encodes_char_as(SingleByteEncoding::Iso8859_7, c, iso_8859_7_backward(c as u32)),
        decodes_byte_as(SingleByteEncoding::Iso8859_8, b, iso_8859_8_forward(b)),
        encodes_char_as(SingleByteEncoding::Iso8859_8, c, iso_8859_8_backward(c as u32)),
        decodes_byte_as(SingleByteEncoding::Iso8859_10, b, iso_8859_10_forward(b)),
        encodes_char_as(SingleByteEncoding::Iso8859_10, c, iso_8859_10_backward(c as u32)),
        decodes_byte_as(SingleByteEncoding::Iso8859_13, b, iso_8859_13_forward(b)),
        encodes_char_as(SingleByteEncoding::Iso8859_13, c, iso_8859_13_backward(c as u32)),
        decodes_byte_as(SingleByteEncoding::Iso8859_14, b, iso_8859_14_forward(b)),
        encodes_char_as(SingleByteEncoding::Iso8859_14, c, iso_8859_14_backward(c as u32)),
        decodes_byte_as(SingleByteEncoding::Iso8859_15, b, iso_8859_15_forward(b)),
        encodes_char_as(SingleByteEncoding::Iso8859_15, c, iso_8859_15_backward(c as u32)),
        decodes_byte_as(SingleByteEncoding::Iso8859_16, b, iso_8859_16_forward(b)),
        encodes_char_as(SingleByteEncoding::Iso8859_16, c, iso_8859_16_backward(c as u32)),
        decodes_byte_as(SingleByteEncoding::Koi8R, b, koi8_r_forward(b)),
        encodes_char_as(SingleByteEncoding::Koi8R, c, koi8_r_backward(c as u32)),
        decodes_byte_as(SingleByteEncoding::Koi8U, b, koi8_u_forward(b)),
        encodes_char_as(SingleByteEncoding::Koi8U, c, koi8_u_backward(c as u32)),
        decodes_byte_as(SingleByteEncoding::MacRoman, b, macintosh_forward(b)),
        encodes_char_as(SingleByteEncoding::MacRoman, c, macintosh_backward(c as u32)),
        decodes_byte_as(SingleByteEncoding::Windows874, b, windows_874_forward(b)),
        encodes_char_as(SingleByteEncoding::Windows874, c, windows_874_backward(c as u32)),
        decodes_byte_as(SingleByteEncoding::Windows1250, b, windows_1250_forward(b)),
        encodes_char_as(SingleByteEncoding::Windows1250, c, windows_1250_backward(c as u32)),
        decodes_byte_as(SingleByteEncoding::Windows1251, b, windows_1251_forward(b)),
        encodes_char_as(SingleByteEncoding::Windows1251, c, windows_1251_backward(c as u32)),
        decodes_byte_as(SingleByteEncoding::Windows1252, b, windows_1252_forward(b)),
        encodes_char_as(SingleByteEncoding::Windows1252, c, windows_1252_backward(c as u32)),
        decodes_byte_as(SingleByteEncoding::Windows1253, b, windows_1253_forward(b)),
        encodes_char_as(SingleByteEncoding::Windows1253, c, windows_1253_backward(c as u32)),
        decodes_byte_as(SingleByteEncoding::Windows1254, b, windows_1254_forward(b)),
        encodes_char_as(SingleByteEncoding::Windows1254, c, windows_1254_backward(c as u32)),
        decodes_byte_as(SingleByteEncoding::Windows1255, b, windows_1255_forward(b)),
        encodes_char_as(SingleByteEncoding::Windows1255, c, windows_1255_backward(c as u32)),
        decodes_byte_as(SingleByteEncoding::Windows1256, b, windows_1256_forward(b)),
        encodes_char_as(SingleByteEncoding::Windows1256, c, windows_1256_backward(c as u32)),
        decodes_byte_as(SingleByteEncoding::Windows1257, b, windows_1257_forward(b)),
        encodes_char_as(SingleByteEncoding::Windows1257, c, windows_1257_backward(c as u32)),
        decodes_byte_as(SingleByteEncoding::Windows1258, b, windows_1258_forward(b)),
        encodes_char_as(SingleByteEncoding::Windows1258, c, windows_1258_backward(c as u32)),
        decodes_byte_as(SingleByteEncoding::MacCyrillic, b, x_mac_cyrillic_forward(b)),
        encodes_char_as(SingleByteEncoding::MacCyrillic, c, x_mac_cyrillic_backward(c as u32)),
        decodes_byte_as(SingleByteEncoding::Iso8859_8I, b, iso_8859_8_forward(b)),
        encodes_char_as(SingleByteEncoding::Iso8859_8I, c, iso_8859_8_backward(c as u32)),
{
}

/// ISO 8859-1 and x-user-defined decode every byte and encode back to it: a byte from 0x80 on is read
/// as a character that the encoder writes as that same byte; and a character that the encoder writes
/// is read back as that character.
pub proof fn lemma_algorithmic_single_byte_roundtrip(b: u8, c: char)
    requires
        b >= 0x80,
    ensures
        SingleByteEncoding::Iso8859_1.spec_raw_encoder().spec_encode_char(c) matches Some((_, bs))
            ==> SingleByteEncoding::Iso8859_1.spec_raw_decoder().spec_step(bs[0]).1 == seq![c],
        SingleByteEncoding::XUserDefined.spec_raw_encoder().spec_encode_char(c) matches Some((_, bs))
            ==> SingleByteEncoding::XUserDefined.spec_raw_decoder().spec_step(bs[0]).1 == seq![c],
        ({
            let e = SingleByteEncoding::Iso8859_1;
            let step = e.spec_raw_decoder().spec_step(b);
            &&& step.2 is None && step.1.len() == 1
            &&& (step.1[0] as u32) == b as u32
            &&& e.spec_raw_encoder().spec_encode_char(step.1[0]) == Some((e.spec_raw_encoder(), seq![b]))
        }),
        ({
            let e = SingleByteEncoding::XUserDefined;
            let step = e.spec_raw_decoder().spec_step(b);
            &&& step.2 is None && step.1.len() == 1
            &&& (step.1[0] as u32) == 0xf780 + (b - 0x80)
            &&& e.spec_raw_encoder().spec_encode_char(step.1[0]) == Some((e.spec_raw_encoder(), seq![b]))
        }),
{
    assert(vstd::utf8::is_scalar(b as u32));
    assert(vstd::utf8::is_scalar((0xf780 + (b - 0x80)) as u32));
    vstd::utf8::char_is_scalar(c);
}

} // verus!
