//! Encodings under the names the WHATWG Encoding Standard gives them.

use vstd::prelude::*;
use crate::codec::singlebyte::SingleByteEncoding;
use crate::codec::whatwg::EncoderOnlyUTF8Encoding;

verus! {

/// The x-user-defined encoding, mapping bytes 80-FF to the Private Use Area.
pub const X_USER_DEFINED: SingleByteEncoding = SingleByteEncoding::XUserDefined;

/// ISO 8859-8 under the name for its logical order.
pub const ISO_8859_8_I: SingleByteEncoding = SingleByteEncoding::Iso8859_8I;

/// The replacement encoding.
pub const REPLACEMENT: EncoderOnlyUTF8Encoding = EncoderOnlyUTF8Encoding;

} // verus!
