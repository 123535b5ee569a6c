//! Character encoding support, based on the WHATWG Encoding Standard,
//! with an interface for error detection and recovery.

pub mod util;
pub mod index;
pub mod types;
pub mod codec;
pub mod encoding_ref;
pub mod all;
pub mod label;

pub use types::{
    ByteWriter, CodecError, DecoderTrap, EncoderTrap, Encoding, RawDecoder, RawEncoder,
    StringWriter,
};
pub use encoding_ref::EncodingRef;

use vstd::prelude::*;
use crate::types::decode_with_trap;

verus! {

/// The encoding that a byte order mark at the start of `input` announces, with the
/// length of the mark; `fallback` with no mark.
pub open spec fn bom_sniff(input: Seq<u8>, fallback: EncodingRef) -> (EncodingRef, int) {
    if input.len() >= 3 && input[0] == 0xef && input[1] == 0xbb && input[2] == 0xbf {
        (EncodingRef::UTF8(all::UTF_8), 3)
    } else if input.len() >= 2 && input[0] == 0xfe && input[1] == 0xff {
        (EncodingRef::UTF16BE(all::UTF_16BE), 2)
    } else if input.len() >= 2 && input[0] == 0xff && input[1] == 0xfe {
        (EncodingRef::UTF16LE(all::UTF_16LE), 2)
    } else {
        (fallback, 0)
    }
}

/// Determine the encoding by looking for a Byte Order Mark (BOM)
/// and decoded a single string in memory.
/// Return the result and the used encoding.
pub fn decode(input: &[u8], trap: DecoderTrap, fallback_encoding: EncodingRef) -> (r: (
    Result<String, &'static str>,
    EncodingRef,
))
    requires
        input@.len() <= isize::MAX,
    ensures
        ({
            let (enc, skip) = bom_sniff(input@, fallback_encoding);
            let res = decode_with_trap(enc.spec_raw_decoder(), input@.skip(skip), 0, trap);
            &&& r.1 == enc
            &&& match res.1 {
                None => r.0 matches Ok(s) && s@ == res.0,
                Some(cause) => r.0 == Err::<String, &'static str>(cause),
            }
        }),
{
    let n = input.len();
    let (enc, skip): (EncodingRef, usize) = if n >= 3 && input[0] == 0xef && input[1] == 0xbb
        && input[2] == 0xbf {
        (EncodingRef::UTF8(all::UTF_8), 3)
    } else if n >= 2 && input[0] == 0xfe && input[1] == 0xff {
        (EncodingRef::UTF16BE(all::UTF_16BE), 2)
    } else if n >= 2 && input[0] == 0xff && input[1] == 0xfe {
        (EncodingRef::UTF16LE(all::UTF_16LE), 2)
    } else {
        (fallback_encoding, 0)
    };
    let rest = vstd::slice::slice_subrange(input, skip, n);
    assert(rest@ =~= input@.skip(skip as int));
    (enc.decode(rest, trap), enc)
}

} // verus!
