//! Legacy traditional Chinese encodings.

use vstd::prelude::*;
use crate::index::{big5_backward, big5_forward};
use crate::types::{
    decode_run, feed_decoder, feed_encoder, finish_decoder, ByteWriter, CodecError, DecodeStep, Encoding,
    RawDecoder, RawEncoder, StringWriter, INCOMPLETE_SEQUENCE, INVALID_SEQUENCE,
};
use crate::util::{char_from_u32, StatefulDecoderHelper};

verus! {

/// Big5-2003 with common extensions. (with asymmetric HKSCS-2008 support)
///
/// This is a traditional Chinese encoding spanning the region `[81-FE] [40-7E A1-FE]`.
/// Originally a proprietary encoding by the consortium of five companies (hence the name),
/// the Republic of China government standardized Big5-2003 in an appendix of CNS 11643
/// so that CNS 11643 plane 1 and plane 2 have
/// an almost identical set of characters as Big5 (but with a different mapping).
/// The Hong Kong government has an official extension to Big5
/// named Hong Kong Supplementary Character Set (HKSCS).
///
/// This particular implementation of Big5 includes the widespread ETEN and HKSCS extensions
/// for decoding, but excludes less common extensions such as Big5+, Big-5E and Unicode-at-on.
#[derive(Clone, Copy)]
pub struct BigFive2003Encoding;

impl Encoding for BigFive2003Encoding {
    type RawEnc = BigFive2003Encoder;

    type RawDec = BigFive2003HKSCS2008Decoder;

    open spec fn spec_name(&self) -> &'static str {
        "big5-2003"
    }

    open spec fn spec_whatwg_name(&self) -> Option<&'static str> {
        Some("big5")
    }

    open spec fn spec_raw_encoder(&self) -> BigFive2003Encoder {
        BigFive2003Encoder
    }

    open spec fn spec_raw_decoder(&self) -> BigFive2003HKSCS2008Decoder {
        BigFive2003HKSCS2008Decoder { lead: None }
    }

    fn name(&self) -> (r: &'static str) {
        "big5-2003"
    }

    fn whatwg_name(&self) -> (r: Option<&'static str>) {
        Some("big5")
    }

    fn raw_encoder(&self) -> (r: BigFive2003Encoder) {
        BigFive2003Encoder::new()
    }

    fn raw_decoder(&self) -> (r: BigFive2003HKSCS2008Decoder) {
        let d = BigFive2003HKSCS2008Decoder::new();
        assert(d.wf() && d.spec_stable());
        d
    }
}

/// An encoder for Big5-2003.
#[derive(Clone, Copy)]
pub struct BigFive2003Encoder;

/// The two bytes for the Big5 pointer `ptr`: 157 trail bytes (40-7E, A1-FE) for each lead
/// byte from 81 on.
pub open spec fn big5_pointer_bytes(ptr: u16) -> Seq<u8> {
    let trail = ptr % 157;
    let trailoffset: u16 = if trail < 0x3f {
        0x40
    } else {
        0x62
    };
    seq![(ptr / 157 + 0x81) as u8, (trail + trailoffset) as u8]
}

/// The Big5 bytes of `c`, if it can be encoded: the HKSCS area below lead byte A1
/// is not used for encoding.
pub open spec fn big5_bytes(c: char) -> Option<Seq<u8>> {
    let v = c as u32;
    if v < 0x80 {
        Some(seq![v as u8])
    } else {
        let ptr = big5_backward(v);
        if ptr == 0xffff || ptr < (0xa1 - 0x81) * 157 {
            None
        } else {
            Some(big5_pointer_bytes(ptr))
        }
    }
}

impl BigFive2003Encoder {
    /// Creates a new encoder.
    pub fn new() -> (r: BigFive2003Encoder)
        ensures
            r == BigFive2003Encoder,
    {
        BigFive2003Encoder
    }

    /// Feeds a string to the encoder; see `RawEncoder`.
    pub fn raw_feed<W: ByteWriter>(&mut self, input: &str, output: &mut W) -> (r: (
        usize,
        Option<CodecError>,
    ))
        requires
            vstd::utf8::encode_utf8(input@).len() <= isize::MAX,
        ensures
            crate::types::encode_feed_post(
                *old(self),
                input@,
                *final(self),
                old(output).written(),
                final(output).written(),
                r,
            ),
    {
        feed_encoder(self, input, output)
    }

    /// Finishes the encoder; this encoder never has pending state.
    pub fn raw_finish<W: ByteWriter>(&mut self, output: &mut W) -> (r: Option<CodecError>)
        ensures
            r is None,
            *final(self) == *old(self),
            final(output).written() == old(output).written(),
    {
        None
    }
}

impl RawEncoder for BigFive2003Encoder {
    open spec fn spec_encode_char(&self, c: char) -> Option<(Self, Seq<u8>)> {
        match big5_bytes(c) {
            Some(bytes) => Some((*self, bytes)),
            None => None,
        }
    }

    open spec fn spec_fresh(&self) -> Self {
        BigFive2003Encoder
    }

    open spec fn spec_ascii_compatible(&self) -> bool {
        true
    }

    open spec fn spec_total(&self) -> bool {
        false
    }

    open spec fn spec_encodes_ascii(&self) -> bool {
        true
    }

    proof fn lemma_encodes_ascii(&self, c: char) {
    }

    proof fn lemma_ascii_compatible_preserved(&self, c: char) {
    }

    proof fn lemma_ascii_char(&self, c: char) {
    }

    fn from_self(&self) -> (r: Self) {
        BigFive2003Encoder::new()
    }

    fn is_ascii_compatible(&self) -> (r: bool) {
        true
    }

    fn encode_char<W: ByteWriter>(&mut self, c: char, output: &mut W) -> (ok: bool) {
        let v = c as u32;
        if v < 0x80 {
            output.write_byte(v as u8);
        } else {
            let ptr = encoding_index_tradchinese::big5::backward(v);
            if ptr == 0xffff || ptr < (0xa1 - 0x81) * 157 {
                return false;
            }
            let trail = ptr % 157;
            let trailoffset: u16 = if trail < 0x3f {
                0x40
            } else {
                0x62
            };
            output.write_byte((ptr / 157 + 0x81) as u8);
            output.write_byte((trail + trailoffset) as u8);
        }
        assert(final(output).written() =~= old(output).written() + big5_bytes(c)->0);
        true
    }
}

/// The Big5 pointer of a lead (81-FE) and trail byte (40-7E, A1-FE), or 0xffff.
pub open spec fn big5_pointer(lead: u8, trail: u8) -> u16 {
    if 0x81 <= lead <= 0xfe && ((0x40 <= trail <= 0x7e) || (0xa1 <= trail <= 0xfe)) {
        let trailoffset: u8 = if trail < 0x7f {
            0x40
        } else {
            0x62
        };
        ((lead - 0x81) * 157 + trail - trailoffset) as u16
    } else {
        0xffff
    }
}

/// The value of the Big5 index for a lead and trail byte: a code point, 0 to 3 for the
/// four pairs that stand for two characters, or 0xffff.
pub open spec fn big5_code_point(lead: u8, trail: u8) -> u32 {
    let ptr = big5_pointer(lead, trail);
    if ptr == 0xffff {
        0xffff
    } else {
        big5_forward(ptr)
    }
}

/// Maps a lead and a trail byte through the Big5 index.
pub fn map_two_bytes(lead: u8, trail: u8) -> (r: u32)
    ensures
        r == big5_code_point(lead, trail),
{
    if 0x81 <= lead && lead <= 0xfe && ((0x40 <= trail && trail <= 0x7e) || (0xa1 <= trail
        && trail <= 0xfe)) {
        let trailoffset: u8 = if trail < 0x7f {
            0x40
        } else {
            0x62
        };
        let index = ((lead - 0x81) as u16) * 157 + (trail as u16) - (trailoffset as u16);
        encoding_index_tradchinese::big5::forward(index)
    } else {
        0xffff
    }
}

/// The characters that an index value stands for, if any.
pub open spec fn big5_chars(v: u32) -> Option<Seq<char>> {
    if v == 0 {
        Some(seq!['\u{ca}', '\u{304}'])
    } else if v == 1 {
        Some(seq!['\u{ca}', '\u{30c}'])
    } else if v == 2 {
        Some(seq!['\u{ea}', '\u{304}'])
    } else if v == 3 {
        Some(seq!['\u{ea}', '\u{30c}'])
    } else if v != 0xffff && vstd::utf8::is_scalar(v) {
        Some(seq![v as char])
    } else {
        None
    }
}

/// A decoder for Big5-2003 with HKSCS-2008 extension.
#[derive(Clone, Copy)]
pub struct BigFive2003HKSCS2008Decoder {
    /// The lead byte read, if any.
    pub lead: Option<u8>,
}

impl BigFive2003HKSCS2008Decoder {
    /// Creates a new decoder.
    pub fn new() -> (r: BigFive2003HKSCS2008Decoder)
        ensures
            r.lead is None,
    {
        BigFive2003HKSCS2008Decoder { lead: None }
    }

    /// Feeds bytes to the decoder; see `RawDecoder`.
    pub fn raw_feed<W: StringWriter>(&mut self, input: &[u8], output: &mut W) -> (r: (
        usize,
        Option<CodecError>,
    ))
        requires
            input@.len() <= isize::MAX,
        ensures
            crate::types::decode_feed_post(
                *old(self),
                input@,
                *final(self),
                old(output).written(),
                final(output).written(),
                r,
            ),
    {
        feed_decoder(self, input, output)
    }

    /// Finishes the decoder: an error if a lead byte is left without its trail byte.
    pub fn raw_finish<W: StringWriter>(&mut self, output: &mut W) -> (r: Option<CodecError>)
        ensures
            final(self).lead is None,
            final(output).written() == old(output).written(),
            match old(self).lead {
                None => r is None,
                Some(_) => r matches Some(e) && e.upto == 0 && e.cause == INCOMPLETE_SEQUENCE,
            },
    {
        finish_decoder(self, output)
    }
}

impl RawDecoder for BigFive2003HKSCS2008Decoder {
    open spec fn wf(&self) -> bool {
        true
    }

    open spec fn spec_stable(&self) -> bool {
        self.lead is None
    }

    open spec fn spec_pending(&self) -> nat {
        if self.lead is None {
            0
        } else {
            1
        }
    }

    /// A trail byte below 80 that does not complete a character is not a part of the
    /// problem; one from 80 on is.
    open spec fn spec_step(&self, b: u8) -> DecodeStep<Self> {
        let init = BigFive2003HKSCS2008Decoder { lead: None };
        match self.lead {
            None => if b < 0x80 {
                (init, seq![b as char], None)
            } else if 0x81 <= b <= 0xfe {
                (BigFive2003HKSCS2008Decoder { lead: Some(b) }, Seq::empty(), None)
            } else {
                (init, Seq::empty(), Some((0, INVALID_SEQUENCE)))
            },
            Some(lead) => match big5_chars(big5_code_point(lead, b)) {
                Some(chars) => (init, chars, None),
                None => (
                    init,
                    Seq::empty(),
                    Some(
                        (
                            if b < 0x80 {
                                1
                            } else {
                                0
                            },
                            INVALID_SEQUENCE,
                        ),
                    ),
                ),
            },
        }
    }

    open spec fn spec_finish_error(&self) -> Option<&'static str> {
        if self.lead is None {
            None
        } else {
            Some(INCOMPLETE_SEQUENCE)
        }
    }

    open spec fn spec_fresh(&self) -> Self {
        BigFive2003HKSCS2008Decoder { lead: None }
    }

    open spec fn spec_ascii_compatible(&self) -> bool {
        true
    }

    proof fn lemma_step(&self, b: u8) {
    }

    proof fn lemma_fresh(&self) {
    }

    proof fn lemma_ascii_byte(&self, b: u8) {
    }

    fn from_self(&self) -> (r: Self) {
        BigFive2003HKSCS2008Decoder::new()
    }

    fn is_ascii_compatible(&self) -> (r: bool) {
        true
    }

    fn is_stable(&self) -> (r: bool) {
        self.lead.is_none()
    }

    fn decode_byte<W: StringWriter>(
        &mut self,
        ctx: &mut StatefulDecoderHelper,
        b: u8,
        output: &mut W,
    ) {
        match self.lead {
            None => {
                if b < 0x80 {
                    ctx.emit(output, b as char);
                } else if 0x81 <= b && b <= 0xfe {
                    self.lead = Some(b);
                } else {
                    ctx.backup_and_err(0, INVALID_SEQUENCE);
                }
            },
            Some(lead) => {
                self.lead = None;
                let v = map_two_bytes(lead, b);
                if v == 0 {
                    ctx.emit(output, '\u{ca}');
                    ctx.emit(output, '\u{304}');
                } else if v == 1 {
                    ctx.emit(output, '\u{ca}');
                    ctx.emit(output, '\u{30c}');
                } else if v == 2 {
                    ctx.emit(output, '\u{ea}');
                    ctx.emit(output, '\u{304}');
                } else if v == 3 {
                    ctx.emit(output, '\u{ea}');
                    ctx.emit(output, '\u{30c}');
                } else {
                    let backup: usize = if b < 0x80 {
                        1
                    } else {
                        0
                    };
                    if v != 0xffff {
                        match char_from_u32(v) {
                            Some(c) => {
                                proof {
                                    vstd::utf8::char_u32_cast(c, v);
                                }
                                ctx.emit(output, c);
                                return;
                            },
                            None => {},
                        }
                    }
                    ctx.backup_and_err(backup, INVALID_SEQUENCE);
                }
            },
        }
    }

    fn finish(&mut self) -> (r: Option<&'static str>) {
        let r = if self.lead.is_none() {
            None
        } else {
            Some(INCOMPLETE_SEQUENCE)
        };
        self.lead = None;
        r
    }
}

/// Decoding reverses encoding: for every Big5 pointer (lead bytes 81-FE, trail bytes 40-7E
/// and A1-FE), the two bytes written for it are read back by a fresh decoder as that pointer,
/// which emits the characters that the index gives it and nothing else.
pub proof fn lemma_big5_decodes_encoded_pointer(ptr: u16)
    requires
        ptr < 126 * 157,
    ensures
        ({
            let bs = big5_pointer_bytes(ptr);
            let d = BigFive2003HKSCS2008Decoder { lead: None };
            &&& bs.len() == 2
            &&& 0x81 <= bs[0] <= 0xfe
            &&& (0x40 <= bs[1] <= 0x7e || 0xa1 <= bs[1] <= 0xfe)
            &&& big5_pointer(bs[0], bs[1]) == ptr
            &&& big5_code_point(bs[0], bs[1]) == big5_forward(ptr)
            &&& big5_chars(big5_forward(ptr)) matches Some(cs) ==> decode_run(d, bs) == (
                d,
                cs,
                2nat,
                Option::<(int, &'static str)>::None,
            )
            &&& big5_chars(big5_forward(ptr)) is None ==> decode_run(d, bs).3 is Some
        }),
{
    let bs = big5_pointer_bytes(ptr);
    assert(bs.drop_last() =~= seq![bs[0]]);
    assert(seq![bs[0]].drop_last() =~= Seq::<u8>::empty());
    reveal_with_fuel(decode_run, 3);
    if let Some(cs) = big5_chars(big5_forward(ptr)) {
        assert(Seq::<char>::empty() + Seq::<char>::empty() + cs =~= cs);
    }
}

/// Every character above U+007F that the encoder writes is written as the two bytes of its
/// pointer in the index, which a decoder reads back as that pointer.
pub proof fn lemma_big5_encodes_pointer(c: char)
    requires
        (c as u32) >= 0x80,
        big5_backward(c as u32) < 126 * 157,
    ensures
        big5_bytes(c) matches Some(bs) ==> bs == big5_pointer_bytes(big5_backward(c as u32))
            && big5_pointer(bs[0], bs[1]) == big5_backward(c as u32),
{
    lemma_big5_decodes_encoded_pointer(big5_backward(c as u32));
}

} // verus!
