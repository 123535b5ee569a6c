//! Encodings that exist only for the WHATWG Encoding Standard.

use vstd::prelude::*;
use crate::codec::error::ErrorDecoder;
use crate::codec::utf_8::UTF8Encoder;
use crate::types::{Encoding, RawDecoder};

verus! {

/// The "replacement" encoding of the WHATWG Encoding Standard: it encodes as UTF-8,
/// and its decoder reports every byte as an error. Labels of encodings that are
/// unsafe to decode (ISO-2022-KR, ISO-2022-CN and the like) resolve to it.
#[derive(Clone, Copy)]
pub struct EncoderOnlyUTF8Encoding;

impl Encoding for EncoderOnlyUTF8Encoding {
    type RawEnc = UTF8Encoder;

    type RawDec = ErrorDecoder;

    open spec fn spec_name(&self) -> &'static str {
        "encoder-only-utf-8"
    }

    open spec fn spec_whatwg_name(&self) -> Option<&'static str> {
        Some("replacement")
    }

    open spec fn spec_raw_encoder(&self) -> UTF8Encoder {
        UTF8Encoder
    }

    open spec fn spec_raw_decoder(&self) -> ErrorDecoder {
        ErrorDecoder
    }

    fn name(&self) -> (r: &'static str) {
        "encoder-only-utf-8"
    }

    fn whatwg_name(&self) -> (r: Option<&'static str>) {
        Some("replacement")
    }

    fn raw_encoder(&self) -> (r: UTF8Encoder) {
        UTF8Encoder::new()
    }

    fn raw_decoder(&self) -> (r: ErrorDecoder) {
        let d = ErrorDecoder::new();
        assert(d.wf() && d.spec_stable());
        d
    }
}

} // verus!
