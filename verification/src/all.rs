//! A list of all supported encodings. Useful for encodings fixed in the compile time.

pub mod whatwg;

use vstd::prelude::*;
use crate::codec::ascii::ASCIIEncoding;
use crate::codec::error::ErrorEncoding;
use crate::codec::japanese::{EUCJPEncoding, ISO2022JPEncoding, Windows31JEncoding};
use crate::codec::korean::Windows949Encoding;
use crate::codec::simpchinese::{GB18030Encoding, GBK18030Encoding, HZEncoding};
use crate::codec::singlebyte::SingleByteEncoding;
use crate::codec::tradchinese::BigFive2003Encoding;
use crate::codec::utf_16::{UTF16BEEncoding, UTF16LEEncoding};
use crate::codec::utf_8::UTF8Encoding;

verus! {

/// The encoding that fails on every input.
pub const ERROR: ErrorEncoding = ErrorEncoding;

/// 7-bit ASCII.
pub const ASCII: ASCIIEncoding = ASCIIEncoding;

/// The single-byte encoding `ibm866`.
pub const IBM866: SingleByteEncoding = SingleByteEncoding::Ibm866;

/// The single-byte encoding `iso-8859-1`.
pub const ISO_8859_1: SingleByteEncoding = SingleByteEncoding::Iso8859_1;

/// The single-byte encoding `iso-8859-2`.
pub const ISO_8859_2: SingleByteEncoding = SingleByteEncoding::Iso8859_2;

/// The single-byte encoding `iso-8859-3`.
pub const ISO_8859_3: SingleByteEncoding = SingleByteEncoding::Iso8859_3;

/// The single-byte encoding `iso-8859-4`.
pub const ISO_8859_4: SingleByteEncoding = SingleByteEncoding::Iso8859_4;

/// The single-byte encoding `iso-8859-5`.
pub const ISO_8859_5: SingleByteEncoding = SingleByteEncoding::Iso8859_5;

/// The single-byte encoding `iso-8859-6`.
pub const ISO_8859_6: SingleByteEncoding = SingleByteEncoding::Iso8859_6;

/// The single-byte encoding `iso-8859-7`.
pub const ISO_8859_7: SingleByteEncoding = SingleByteEncoding::Iso8859_7;

/// The single-byte encoding `iso-8859-8`.
pub const ISO_8859_8: SingleByteEncoding = SingleByteEncoding::Iso8859_8;

/// The single-byte encoding `iso-8859-10`.
pub const ISO_8859_10: SingleByteEncoding = SingleByteEncoding::Iso8859_10;

/// The single-byte encoding `iso-8859-13`.
pub const ISO_8859_13: SingleByteEncoding = SingleByteEncoding::Iso8859_13;

/// The single-byte encoding `iso-8859-14`.
pub const ISO_8859_14: SingleByteEncoding = SingleByteEncoding::Iso8859_14;

/// The single-byte encoding `iso-8859-15`.
pub const ISO_8859_15: SingleByteEncoding = SingleByteEncoding::Iso8859_15;

/// The single-byte encoding `iso-8859-16`.
pub const ISO_8859_16: SingleByteEncoding = SingleByteEncoding::Iso8859_16;

/// The single-byte encoding `koi8-r`.
pub const KOI8_R: SingleByteEncoding = SingleByteEncoding::Koi8R;

/// The single-byte encoding `koi8-u`.
pub const KOI8_U: SingleByteEncoding = SingleByteEncoding::Koi8U;

/// The single-byte encoding `mac-roman`.
pub const MAC_ROMAN: SingleByteEncoding = SingleByteEncoding::MacRoman;

/// The single-byte encoding `windows-874`.
pub const WINDOWS_874: SingleByteEncoding = SingleByteEncoding::Windows874;

/// The single-byte encoding `windows-1250`.
pub const WINDOWS_1250: SingleByteEncoding = SingleByteEncoding::Windows1250;

/// The single-byte encoding `windows-1251`.
pub const WINDOWS_1251: SingleByteEncoding = SingleByteEncoding::Windows1251;

/// The single-byte encoding `windows-1252`.
pub const WINDOWS_1252: SingleByteEncoding = SingleByteEncoding::Windows1252;

/// The single-byte encoding `windows-1253`.
pub const WINDOWS_1253: SingleByteEncoding = SingleByteEncoding::Windows1253;

/// The single-byte encoding `windows-1254`.
pub const WINDOWS_1254: SingleByteEncoding = SingleByteEncoding::Windows1254;

/// The single-byte encoding `windows-1255`.
pub const WINDOWS_1255: SingleByteEncoding = SingleByteEncoding::Windows1255;

/// The single-byte encoding `windows-1256`.
pub const WINDOWS_1256: SingleByteEncoding = SingleByteEncoding::Windows1256;

/// The single-byte encoding `windows-1257`.
pub const WINDOWS_1257: SingleByteEncoding = SingleByteEncoding::Windows1257;

/// The single-byte encoding `windows-1258`.
pub const WINDOWS_1258: SingleByteEncoding = SingleByteEncoding::Windows1258;

/// The single-byte encoding `mac-cyrillic`.
pub const MAC_CYRILLIC: SingleByteEncoding = SingleByteEncoding::MacCyrillic;

/// UTF-8.
pub const UTF_8: UTF8Encoding = UTF8Encoding;

/// UTF-16 in little endian.
pub const UTF_16LE: UTF16LEEncoding = UTF16LEEncoding;

/// UTF-16 in big endian.
pub const UTF_16BE: UTF16BEEncoding = UTF16BEEncoding;

/// Windows code page 949.
pub const WINDOWS_949: Windows949Encoding = Windows949Encoding;

/// EUC-JP.
pub const EUC_JP: EUCJPEncoding = EUCJPEncoding;

/// Windows code page 932.
pub const WINDOWS_31J: Windows31JEncoding = Windows31JEncoding;

/// ISO-2022-JP.
pub const ISO_2022_JP: ISO2022JPEncoding = ISO2022JPEncoding;

/// GB 18030.
pub const GB18030: GB18030Encoding = GB18030Encoding;

/// GBK.
pub const GBK18030: GBK18030Encoding = GBK18030Encoding;

/// HZ.
pub const HZ: HZEncoding = HZEncoding;

/// Big5-2003.
pub const BIG5_2003: BigFive2003Encoding = BigFive2003Encoding;

} // verus!
