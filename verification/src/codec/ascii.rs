//! 7-bit ASCII encoding.

use vstd::prelude::*;
use crate::types::{
    feed_decoder, feed_encoder, finish_decoder, ByteWriter, CodecError, DecodeStep, Encoding,
    RawDecoder, RawEncoder, StringWriter, INVALID_SEQUENCE,
};
use crate::util::StatefulDecoderHelper;

verus! {

/// ASCII, also known as ISO/IEC 646:US.
///
/// It is both a basis and a lowest common denominator of many other encodings
/// including UTF-8, which Rust internally assumes.
#[derive(Clone, Copy)]
pub struct ASCIIEncoding;

impl Encoding for ASCIIEncoding {
    type RawEnc = ASCIIEncoder;

    type RawDec = ASCIIDecoder;

    open spec fn spec_name(&self) -> &'static str {
        "ascii"
    }

    open spec fn spec_whatwg_name(&self) -> Option<&'static str> {
        None
    }

    open spec fn spec_raw_encoder(&self) -> ASCIIEncoder {
        ASCIIEncoder
    }

    open spec fn spec_raw_decoder(&self) -> ASCIIDecoder {
        ASCIIDecoder
    }

    fn name(&self) -> (r: &'static str) {
        "ascii"
    }

    fn whatwg_name(&self) -> (r: Option<&'static str>) {
        None
    }

    fn raw_encoder(&self) -> (r: ASCIIEncoder) {
        ASCIIEncoder::new()
    }

    fn raw_decoder(&self) -> (r: ASCIIDecoder) {
        let d = ASCIIDecoder::new();
        assert(d.wf() && d.spec_stable());
        d
    }
}

/// An encoder for ASCII.
#[derive(Clone, Copy)]
pub struct ASCIIEncoder;

impl ASCIIEncoder {
    /// Creates a new encoder.
    pub fn new() -> (r: ASCIIEncoder)
        ensures
            r == ASCIIEncoder,
    {
        ASCIIEncoder
    }

    /// Feeds a string to the encoder; see `RawEncoder`.
    pub fn raw_feed<W: ByteWriter>(&mut self, input: &str, output: &mut W) -> (r: (
        usize,
        Option<CodecError>,
    ))
        requires
            vstd::utf8::encode_utf8(input@).len() <= isize::MAX,
        ensures
            crate::types::encode_feed_post(
                *old(self),
                input@,
                *final(self),
                old(output).written(),
                final(output).written(),
                r,
            ),
    {
        feed_encoder(self, input, output)
    }

    /// Finishes the encoder; ASCII never has pending state.
    pub fn raw_finish<W: ByteWriter>(&mut self, output: &mut W) -> (r: Option<CodecError>)
        ensures
            r is None,
            final(output).written() == old(output).written(),
    {
        None
    }
}

impl RawEncoder for ASCIIEncoder {
    open spec fn spec_encode_char(&self, c: char) -> Option<(Self, Seq<u8>)> {
        if (c as u32) < 0x80 {
            Some((*self, seq![(c as u32) as u8]))
        } else {
            None
        }
    }

    open spec fn spec_fresh(&self) -> Self {
        ASCIIEncoder
    }

    open spec fn spec_ascii_compatible(&self) -> bool {
        true
    }

    open spec fn spec_total(&self) -> bool {
        false
    }

    open spec fn spec_encodes_ascii(&self) -> bool {
        true
    }

    proof fn lemma_encodes_ascii(&self, c: char) {
    }

    proof fn lemma_ascii_compatible_preserved(&self, c: char) {
    }

    proof fn lemma_ascii_char(&self, c: char) {
    }

    fn from_self(&self) -> (r: Self) {
        ASCIIEncoder::new()
    }

    fn is_ascii_compatible(&self) -> (r: bool) {
        true
    }

    fn encode_char<W: ByteWriter>(&mut self, c: char, output: &mut W) -> (ok: bool) {
        if (c as u32) < 0x80 {
            output.write_byte((c as u32) as u8);
            true
        } else {
            false
        }
    }
}

/// A decoder for ASCII.
#[derive(Clone, Copy)]
pub struct ASCIIDecoder;

impl ASCIIDecoder {
    /// Creates a new decoder.
    pub fn new() -> (r: ASCIIDecoder)
        ensures
            r == ASCIIDecoder,
    {
        ASCIIDecoder
    }

    /// Feeds bytes to the decoder; see `RawDecoder`.
    pub fn raw_feed<W: StringWriter>(&mut self, input: &[u8], output: &mut W) -> (r: (
        usize,
        Option<CodecError>,
    ))
        requires
            input@.len() <= isize::MAX,
        ensures
            crate::types::decode_feed_post(
                *old(self),
                input@,
                *final(self),
                old(output).written(),
                final(output).written(),
                r,
            ),
    {
        feed_decoder(self, input, output)
    }

    /// Finishes the decoder; ASCII never has pending bytes.
    pub fn raw_finish<W: StringWriter>(&mut self, output: &mut W) -> (r: Option<CodecError>)
        ensures
            r is None,
            final(output).written() == old(output).written(),
    {
        finish_decoder(self, output)
    }
}

impl RawDecoder for ASCIIDecoder {
    open spec fn wf(&self) -> bool {
        true
    }

    open spec fn spec_stable(&self) -> bool {
        true
    }

    open spec fn spec_pending(&self) -> nat {
        0
    }

    open spec fn spec_step(&self, b: u8) -> DecodeStep<Self> {
        if b < 0x80 {
            (*self, seq![b as char], None)
        } else {
            (*self, Seq::empty(), Some((0, INVALID_SEQUENCE)))
        }
    }

    open spec fn spec_finish_error(&self) -> Option<&'static str> {
        None
    }

    open spec fn spec_fresh(&self) -> Self {
        ASCIIDecoder
    }

    open spec fn spec_ascii_compatible(&self) -> bool {
        true
    }

    proof fn lemma_step(&self, b: u8) {
    }

    proof fn lemma_fresh(&self) {
    }

    proof fn lemma_ascii_byte(&self, b: u8) {
    }

    fn from_self(&self) -> (r: Self) {
        ASCIIDecoder::new()
    }

    fn is_ascii_compatible(&self) -> (r: bool) {
        true
    }

    fn is_stable(&self) -> (r: bool) {
        true
    }

    fn decode_byte<W: StringWriter>(
        &mut self,
        ctx: &mut StatefulDecoderHelper,
        b: u8,
        output: &mut W,
    ) {
        if b < 0x80 {
            ctx.emit(output, b as char);
        } else {
            ctx.backup_and_err(0, INVALID_SEQUENCE);
        }
    }

    fn finish(&mut self) -> (r: Option<&'static str>) {
        None
    }
}

} // verus!
