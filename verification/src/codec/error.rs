//! A placeholder encoding that returns encoder/decoder error for every case.

use vstd::prelude::*;
use crate::types::{
    feed_decoder, feed_encoder, finish_decoder, ByteWriter, CodecError, DecodeStep, Encoding,
    RawDecoder, RawEncoder, StringWriter, INVALID_SEQUENCE,
};
use crate::util::StatefulDecoderHelper;

verus! {

/// An encoding that returns encoder/decoder error for every case.
#[derive(Clone, Copy)]
pub struct ErrorEncoding;

impl Encoding for ErrorEncoding {
    type RawEnc = ErrorEncoder;

    type RawDec = ErrorDecoder;

    open spec fn spec_name(&self) -> &'static str {
        "error"
    }

    open spec fn spec_whatwg_name(&self) -> Option<&'static str> {
        None
    }

    open spec fn spec_raw_encoder(&self) -> ErrorEncoder {
        ErrorEncoder
    }

    open spec fn spec_raw_decoder(&self) -> ErrorDecoder {
        ErrorDecoder
    }

    fn name(&self) -> (r: &'static str) {
        "error"
    }

    fn whatwg_name(&self) -> (r: Option<&'static str>) {
        None
    }

    fn raw_encoder(&self) -> (r: ErrorEncoder) {
        ErrorEncoder::new()
    }

    fn raw_decoder(&self) -> (r: ErrorDecoder) {
        let d = ErrorDecoder::new();
        assert(d.wf() && d.spec_stable());
        d
    }
}

/// An encoder that always returns error.
#[derive(Clone, Copy)]
pub struct ErrorEncoder;

impl ErrorEncoder {
    /// Creates a new encoder.
    pub fn new() -> (r: ErrorEncoder)
        ensures
            r == ErrorEncoder,
    {
        ErrorEncoder
    }

    /// Feeds a string to the encoder; see `RawEncoder`.
    pub fn raw_feed<W: ByteWriter>(&mut self, input: &str, output: &mut W) -> (r: (
        usize,
        Option<CodecError>,
    ))
        requires
            vstd::utf8::encode_utf8(input@).len() <= isize::MAX,
        ensures
            crate::types::encode_feed_post(
                *old(self),
                input@,
                *final(self),
                old(output).written(),
                final(output).written(),
                r,
            ),
    {
        feed_encoder(self, input, output)
    }

    /// Finishes the encoder; it never has pending state.
    pub fn raw_finish<W: ByteWriter>(&mut self, output: &mut W) -> (r: Option<CodecError>)
        ensures
            r is None,
            final(output).written() == old(output).written(),
    {
        None
    }
}

impl RawEncoder for ErrorEncoder {
    open spec fn spec_encode_char(&self, c: char) -> Option<(Self, Seq<u8>)> {
        None
    }

    open spec fn spec_fresh(&self) -> Self {
        ErrorEncoder
    }

    open spec fn spec_ascii_compatible(&self) -> bool {
        false
    }

    open spec fn spec_total(&self) -> bool {
        false
    }

    open spec fn spec_encodes_ascii(&self) -> bool {
        false
    }

    proof fn lemma_encodes_ascii(&self, c: char) {
    }

    proof fn lemma_ascii_compatible_preserved(&self, c: char) {
    }

    proof fn lemma_ascii_char(&self, c: char) {
    }

    fn from_self(&self) -> (r: Self) {
        ErrorEncoder::new()
    }

    fn is_ascii_compatible(&self) -> (r: bool) {
        false
    }

    fn encode_char<W: ByteWriter>(&mut self, c: char, output: &mut W) -> (ok: bool) {
        false
    }
}

/// A decoder that always returns error.
#[derive(Clone, Copy)]
pub struct ErrorDecoder;

impl ErrorDecoder {
    /// Creates a new decoder.
    pub fn new() -> (r: ErrorDecoder)
        ensures
            r == ErrorDecoder,
    {
        ErrorDecoder
    }

    /// Feeds bytes to the decoder; see `RawDecoder`.
    pub fn raw_feed<W: StringWriter>(&mut self, input: &[u8], output: &mut W) -> (r: (
        usize,
        Option<CodecError>,
    ))
        requires
            input@.len() <= isize::MAX,
        ensures
            crate::types::decode_feed_post(
                *old(self),
                input@,
                *final(self),
                old(output).written(),
                final(output).written(),
                r,
            ),
    {
        feed_decoder(self, input, output)
    }

    /// Finishes the decoder; it never has pending bytes.
    pub fn raw_finish<W: StringWriter>(&mut self, output: &mut W) -> (r: Option<CodecError>)
        ensures
            r is None,
            final(output).written() == old(output).written(),
    {
        finish_decoder(self, output)
    }
}

impl RawDecoder for ErrorDecoder {
    open spec fn wf(&self) -> bool {
        true
    }

    open spec fn spec_stable(&self) -> bool {
        true
    }

    open spec fn spec_pending(&self) -> nat {
        0
    }

    open spec fn spec_step(&self, b: u8) -> DecodeStep<Self> {
        (*self, Seq::empty(), Some((0, INVALID_SEQUENCE)))
    }

    open spec fn spec_finish_error(&self) -> Option<&'static str> {
        None
    }

    open spec fn spec_fresh(&self) -> Self {
        ErrorDecoder
    }

    open spec fn spec_ascii_compatible(&self) -> bool {
        false
    }

    proof fn lemma_step(&self, b: u8) {
    }

    proof fn lemma_fresh(&self) {
    }

    proof fn lemma_ascii_byte(&self, b: u8) {
    }

    fn from_self(&self) -> (r: Self) {
        ErrorDecoder::new()
    }

    fn is_ascii_compatible(&self) -> (r: bool) {
        false
    }

    fn is_stable(&self) -> (r: bool) {
        true
    }

    fn decode_byte<W: StringWriter>(
        &mut self,
        ctx: &mut StatefulDecoderHelper,
        b: u8,
        output: &mut W,
    ) {
        ctx.err(INVALID_SEQUENCE);
    }

    fn finish(&mut self) -> (r: Option<&'static str>) {
        None
    }
}

} // verus!
