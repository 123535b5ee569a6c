//! Legacy simplified Chinese encodings based on GB 2312 and GB 18030.

use vstd::prelude::*;
use crate::index::{gb18030_backward, gb18030_forward, gb18030_ranges_backward, gb18030_ranges_forward};
use crate::types::{
    decode_run, feed_decoder, lemma_decode_run_concat, feed_encoder, finish_decoder, ByteWriter, CodecError, DecodeStep, Encoding,
    RawDecoder, RawEncoder, StringWriter, INCOMPLETE_SEQUENCE, INVALID_SEQUENCE,
};
use crate::util::{
    emit_mapped, emit_mapped_except, mapped_char, mapped_char_except, StatefulDecoderHelper,
};

verus! {

/// The GBK pointer of a lead (81-FE) and trail byte (40-7E, 80-FE), or 0xffff.
pub open spec fn gbk_pointer(lead: u8, trail: u8) -> u16 {
    if 0x81 <= lead <= 0xfe && ((0x40 <= trail <= 0x7e) || (0x80 <= trail <= 0xfe)) {
        let trailoffset: u8 = if trail < 0x7f {
            0x40
        } else {
            0x41
        };
        ((lead - 0x81) * 190 + trail - trailoffset) as u16
    } else {
        0xffff
    }
}

/// The code point of a lead and trail byte in the two-byte GB 18030 index, or 0xffff.
pub open spec fn gbk_code_point(lead: u8, trail: u8) -> u32 {
    let ptr = gbk_pointer(lead, trail);
    if ptr == 0xffff {
        0xffff
    } else {
        gb18030_forward(ptr)
    }
}

/// Maps a lead and a trail byte through the two-byte GB 18030 index, 0xffff where there is none.
pub fn map_two_bytes(lead: u8, trail: u8) -> (r: u32)
    ensures
        r == gbk_code_point(lead, trail),
{
    if 0x81 <= lead && lead <= 0xfe && ((0x40 <= trail && trail <= 0x7e) || (0x80 <= trail
        && trail <= 0xfe)) {
        let trailoffset: u8 = if trail < 0x7f {
            0x40
        } else {
            0x41
        };
        let index = ((lead - 0x81) as u16) * 190 + (trail as u16) - (trailoffset as u16);
        encoding_index_simpchinese::gb18030::forward(index)
    } else {
        0xffff
    }
}

/// The two bytes of a GBK pointer.
pub open spec fn gbk_bytes(ptr: u16) -> Seq<u8> {
    let trail = ptr % 190;
    let trailoffset: u16 = if trail < 0x3f {
        0x40
    } else {
        0x41
    };
    seq![(ptr / 190 + 0x81) as u8, (trail + trailoffset) as u8]
}

/// Writes the two bytes of a GBK pointer.
fn write_gbk<W: ByteWriter>(ptr: u16, output: &mut W)
    ensures
        final(output).written() == old(output).written() + gbk_bytes(ptr),
{
    let trail = ptr % 190;
    let trailoffset: u16 = if trail < 0x3f {
        0x40
    } else {
        0x41
    };
    output.write_byte((ptr / 190 + 0x81) as u8);
    output.write_byte((trail + trailoffset) as u8);
    assert(final(output).written() =~= old(output).written() + gbk_bytes(ptr));
}

/// The four bytes of a GB 18030 four-byte pointer.
pub open spec fn gb18030_four_bytes(ptr: u32) -> Seq<u8> {
    let byte4 = ptr % 10;
    let p = ptr / 10;
    let byte3 = p % 126;
    let p2 = p / 126;
    seq![(p2 / 10 + 0x81) as u8, (p2 % 10 + 0x30) as u8, (byte3 + 0x81) as u8, (byte4 + 0x30) as u8]
}

/// The four-byte pointer of four bytes, which the caller has checked to be in range.
pub open spec fn gb18030_four_pointer(b1: u8, b2: u8, b3: u8, b4: u8) -> u32 {
    ((b1 - 0x81) * 12600 + (b2 - 0x30) * 1260 + (b3 - 0x81) * 10 + (b4 - 0x30)) as u32
}

/// Maps four bytes (81-FE, 30-39, 81-FE, 30-39) through the GB 18030 ranges,
/// 0xffffffff where there is no character.
pub fn map_four_bytes(b1: u8, b2: u8, b3: u8, b4: u8) -> (r: u32)
    requires
        0x81 <= b1 <= 0xfe,
        0x30 <= b2 <= 0x39,
        0x81 <= b3 <= 0xfe,
        0x30 <= b4 <= 0x39,
    ensures
        r == gb18030_ranges_forward(gb18030_four_pointer(b1, b2, b3, b4)),
{
    let index = ((b1 - 0x81) as u32) * 12600 + ((b2 - 0x30) as u32) * 1260 + ((b3 - 0x81) as u32)
        * 10 + ((b4 - 0x30) as u32);
    encoding_index_simpchinese::gb18030_ranges::forward(index)
}

/// GB 18030-2005.
///
/// This is a simplified Chinese encoding which extends GBK 1.0 to a pan-Unicode encoding.
/// It assigns four-byte sequences to every Unicode codepoint missing from the GBK area,
/// lexicographically ordered with occasional "gaps" for codepoints in the GBK area.
/// Due to this compatibility decision,
/// there is no simple relationship between these four-byte sequences and Unicode codepoints,
/// though there *exists* a relatively simple mapping algorithm with a small lookup table.
///
/// The original GBK 1.0 region spans `[81-FE] [40-7E 80-FE]`, and is derived from
/// several different revisions of a family of encodings named "GBK".
#[derive(Clone, Copy)]
pub struct GB18030Encoding;

impl Encoding for GB18030Encoding {
    type RawEnc = GB18030Encoder;

    type RawDec = GB18030Decoder;

    open spec fn spec_name(&self) -> &'static str {
        "gb18030"
    }

    open spec fn spec_whatwg_name(&self) -> Option<&'static str> {
        Some("gb18030")
    }

    open spec fn spec_raw_encoder(&self) -> GB18030Encoder {
        GB18030Encoder
    }

    open spec fn spec_raw_decoder(&self) -> GB18030Decoder {
        GB18030Decoder { state: GB18030State::Initial }
    }

    fn name(&self) -> (r: &'static str) {
        "gb18030"
    }

    fn whatwg_name(&self) -> (r: Option<&'static str>) {
        Some("gb18030")
    }

    fn raw_encoder(&self) -> (r: GB18030Encoder) {
        GB18030Encoder::new()
    }

    fn raw_decoder(&self) -> (r: GB18030Decoder) {
        let d = GB18030Decoder::new();
        assert(d.wf() && d.spec_stable());
        d
    }
}

/// An encoder for GB 18030.
#[derive(Clone, Copy)]
pub struct GB18030Encoder;

/// The GB 18030 bytes of `c`: two bytes where the two-byte index has it, four bytes
/// from the ranges otherwise. Without a four-byte pointer the character is unrepresentable
/// (which the ranges never leave a character above U+007F without).
pub open spec fn gb18030_bytes(c: char) -> Option<Seq<u8>> {
    let v = c as u32;
    if v < 0x80 {
        Some(seq![v as u8])
    } else {
        let ptr = gb18030_backward(v);
        if ptr == 0xffff {
            let p4 = gb18030_ranges_backward(v);
            if p4 == 0xffffffff {
                None
            } else {
                Some(gb18030_four_bytes(p4))
            }
        } else {
            Some(gbk_bytes(ptr))
        }
    }
}

impl GB18030Encoder {
    /// Creates a new encoder.
    pub fn new() -> (r: GB18030Encoder)
        ensures
            r == GB18030Encoder,
    {
        GB18030Encoder
    }

    /// Feeds a string to the encoder; see `RawEncoder`.
    pub fn raw_feed<W: ByteWriter>(&mut self, input: &str, output: &mut W) -> (r: (
        usize,
        Option<CodecError>,
    ))
        requires
            vstd::utf8::encode_utf8(input@).len() <= isize::MAX,
        ensures
            crate::types::encode_feed_post(
                *old(self),
                input@,
                *final(self),
                old(output).written(),
                final(output).written(),
                r,
            ),
            r.1 is None,
    {
        feed_encoder(self, input, output)
    }

    /// Finishes the encoder; this encoder never has pending state.
    pub fn raw_finish<W: ByteWriter>(&mut self, output: &mut W) -> (r: Option<CodecError>)
        ensures
            r is None,
            *final(self) == *old(self),
            final(output).written() == old(output).written(),
    {
        None
    }
}

impl RawEncoder for GB18030Encoder {
    open spec fn spec_encode_char(&self, c: char) -> Option<(Self, Seq<u8>)> {
        match gb18030_bytes(c) {
            Some(bytes) => Some((*self, bytes)),
            None => None,
        }
    }

    open spec fn spec_fresh(&self) -> Self {
        GB18030Encoder
    }

    open spec fn spec_ascii_compatible(&self) -> bool {
        true
    }

    open spec fn spec_total(&self) -> bool {
        true
    }

    open spec fn spec_encodes_ascii(&self) -> bool {
        true
    }

    proof fn lemma_encodes_ascii(&self, c: char) {
    }

    proof fn lemma_ascii_compatible_preserved(&self, c: char) {
    }

    proof fn lemma_ascii_char(&self, c: char) {
    }

    fn from_self(&self) -> (r: Self) {
        GB18030Encoder::new()
    }

    fn is_ascii_compatible(&self) -> (r: bool) {
        true
    }

    fn encode_char<W: ByteWriter>(&mut self, c: char, output: &mut W) -> (ok: bool) {
        let v = c as u32;
        if v < 0x80 {
            output.write_byte(v as u8);
            assert(final(output).written() =~= old(output).written() + gb18030_bytes(c)->0);
            return true;
        }
        let ptr = encoding_index_simpchinese::gb18030::backward(v);
        if ptr == 0xffff {
            proof {
                vstd::utf8::char_is_scalar(c);
            }
            let p4 = encoding_index_simpchinese::gb18030_ranges::backward(v);
            if p4 == 0xffffffff {
                return false;
            }
            let byte4 = p4 % 10;
            let p = p4 / 10;
            let byte3 = p % 126;
            let p2 = p / 126;
            output.write_byte((p2 / 10 + 0x81) as u8);
            output.write_byte((p2 % 10 + 0x30) as u8);
            output.write_byte((byte3 + 0x81) as u8);
            output.write_byte((byte4 + 0x30) as u8);
            assert(final(output).written() =~= old(output).written() + gb18030_bytes(c)->0);
        } else {
            write_gbk(ptr, output);
        }
        true
    }
}

/// Where the GB 18030 decoder stands.
#[derive(Clone, Copy, PartialEq, Eq, Structural)]
pub enum GB18030State {
    /// Between characters.
    Initial,
    /// After a first byte (81-FE).
    First(u8),
    /// After a first byte and a second byte (30-39) of a four-byte sequence.
    Second(u8, u8),
    /// After the first three bytes of a four-byte sequence.
    Third(u8, u8, u8),
}

/// A decoder for GB 18030.
#[derive(Clone, Copy)]
pub struct GB18030Decoder {
    /// Where the decoder stands.
    pub state: GB18030State,
}

impl GB18030Decoder {
    /// Creates a new decoder.
    pub fn new() -> (r: GB18030Decoder)
        ensures
            r.state == GB18030State::Initial,
    {
        GB18030Decoder { state: GB18030State::Initial }
    }

    /// Feeds bytes to the decoder; see `RawDecoder`.
    pub fn raw_feed<W: StringWriter>(&mut self, input: &[u8], output: &mut W) -> (r: (
        usize,
        Option<CodecError>,
    ))
        requires
            old(self).wf(),
            input@.len() <= isize::MAX,
        ensures
            final(self).wf(),
            crate::types::decode_feed_post(
                *old(self),
                input@,
                *final(self),
                old(output).written(),
                final(output).written(),
                r,
            ),
    {
        feed_decoder(self, input, output)
    }

    /// Finishes the decoder: an error if the input ended inside a character.
    pub fn raw_finish<W: StringWriter>(&mut self, output: &mut W) -> (r: Option<CodecError>)
        requires
            old(self).wf(),
        ensures
            final(self).state == GB18030State::Initial,
            final(output).written() == old(output).written(),
            match old(self).state {
                GB18030State::Initial => r is None,
                _ => r matches Some(e) && e.upto == 0 && e.cause == INCOMPLETE_SEQUENCE,
            },
    {
        finish_decoder(self, output)
    }
}

/// The bytes held in a state lie in the ranges that led there.
pub open spec fn gb18030_state_wf(s: GB18030State) -> bool {
    match s {
        GB18030State::Initial => true,
        GB18030State::First(b1) => 0x81 <= b1 <= 0xfe,
        GB18030State::Second(b1, b2) => 0x81 <= b1 <= 0xfe && 0x30 <= b2 <= 0x39,
        GB18030State::Third(b1, b2, b3) => 0x81 <= b1 <= 0xfe && 0x30 <= b2 <= 0x39 && 0x81 <= b3
            <= 0xfe,
    }
}

impl RawDecoder for GB18030Decoder {
    open spec fn wf(&self) -> bool {
        gb18030_state_wf(self.state)
    }

    open spec fn spec_stable(&self) -> bool {
        self.state == GB18030State::Initial
    }

    open spec fn spec_pending(&self) -> nat {
        match self.state {
            GB18030State::Initial => 0,
            GB18030State::First(_) => 1,
            GB18030State::Second(_, _) => 2,
            GB18030State::Third(_, _, _) => 3,
        }
    }

    open spec fn spec_step(&self, b: u8) -> DecodeStep<Self> {
        let init = GB18030Decoder { state: GB18030State::Initial };
        match self.state {
            GB18030State::Initial => if b < 0x80 {
                (init, seq![b as char], None)
            } else if b == 0x80 {
                (init, seq!['\u{20ac}'], None)
            } else if b <= 0xfe {
                (GB18030Decoder { state: GB18030State::First(b) }, Seq::empty(), None)
            } else {
                (init, Seq::empty(), Some((0, INVALID_SEQUENCE)))
            },
            GB18030State::First(b1) => if 0x30 <= b <= 0x39 {
                (GB18030Decoder { state: GB18030State::Second(b1, b) }, Seq::empty(), None)
            } else {
                match mapped_char(gbk_code_point(b1, b)) {
                    Some(c) => (init, seq![c], None),
                    None => (init, Seq::empty(), Some((1, INVALID_SEQUENCE))),
                }
            },
            GB18030State::Second(b1, b2) => if 0x81 <= b <= 0xfe {
                (GB18030Decoder { state: GB18030State::Third(b1, b2, b) }, Seq::empty(), None)
            } else {
                (init, Seq::empty(), Some((2, INVALID_SEQUENCE)))
            },
            GB18030State::Third(b1, b2, b3) => if 0x30 <= b <= 0x39 {
                match mapped_char_except(
                    gb18030_ranges_forward(gb18030_four_pointer(b1, b2, b3, b)),
                    0xffffffff,
                ) {
                    Some(c) => (init, seq![c], None),
                    None => (init, Seq::empty(), Some((3, INVALID_SEQUENCE))),
                }
            } else {
                (init, Seq::empty(), Some((3, INVALID_SEQUENCE)))
            },
        }
    }

    open spec fn spec_finish_error(&self) -> Option<&'static str> {
        if self.state == GB18030State::Initial {
            None
        } else {
            Some(INCOMPLETE_SEQUENCE)
        }
    }

    open spec fn spec_fresh(&self) -> Self {
        GB18030Decoder { state: GB18030State::Initial }
    }

    open spec fn spec_ascii_compatible(&self) -> bool {
        true
    }

    proof fn lemma_step(&self, b: u8) {
    }

    proof fn lemma_fresh(&self) {
    }

    proof fn lemma_ascii_byte(&self, b: u8) {
    }

    fn from_self(&self) -> (r: Self) {
        GB18030Decoder::new()
    }

    fn is_ascii_compatible(&self) -> (r: bool) {
        true
    }

    fn is_stable(&self) -> (r: bool) {
        match self.state {
            GB18030State::Initial => true,
            _ => false,
        }
    }

    fn decode_byte<W: StringWriter>(
        &mut self,
        ctx: &mut StatefulDecoderHelper,
        b: u8,
        output: &mut W,
    ) {
        match self.state {
            GB18030State::Initial => {
                if b < 0x80 {
                    ctx.emit(output, b as char);
                } else if b == 0x80 {
                    ctx.emit(output, '\u{20ac}');
                } else if b <= 0xfe {
                    self.state = GB18030State::First(b);
                } else {
                    ctx.backup_and_err(0, INVALID_SEQUENCE);
                }
            },
            GB18030State::First(b1) => {
                if 0x30 <= b && b <= 0x39 {
                    self.state = GB18030State::Second(b1, b);
                } else {
                    self.state = GB18030State::Initial;
                    emit_mapped(ctx, map_two_bytes(b1, b), 1, output);
                }
            },
            GB18030State::Second(b1, b2) => {
                if 0x81 <= b && b <= 0xfe {
                    self.state = GB18030State::Third(b1, b2, b);
                } else {
                    self.state = GB18030State::Initial;
                    ctx.backup_and_err(2, INVALID_SEQUENCE);
                }
            },
            GB18030State::Third(b1, b2, b3) => {
                self.state = GB18030State::Initial;
                if 0x30 <= b && b <= 0x39 {
                    emit_mapped_except(ctx, map_four_bytes(b1, b2, b3, b), 0xffffffff, 3, output);
                } else {
                    ctx.backup_and_err(3, INVALID_SEQUENCE);
                }
            },
        }
    }

    fn finish(&mut self) -> (r: Option<&'static str>) {
        let r = match self.state {
            GB18030State::Initial => None,
            _ => Some(INCOMPLETE_SEQUENCE),
        };
        self.state = GB18030State::Initial;
        r
    }
}

/// GBK, as the one- and two-byte subset of GB 18030.
///
/// The revisions of the GBK family maintain the strict superset and subset relation,
/// so this encoding is a catch-all implementation for all those related encodings.
#[derive(Clone, Copy)]
pub struct GBK18030Encoding;

impl Encoding for GBK18030Encoding {
    type RawEnc = GBK18030Encoder;

    type RawDec = GBK18030Decoder;

    open spec fn spec_name(&self) -> &'static str {
        "gbk18030"
    }

    open spec fn spec_whatwg_name(&self) -> Option<&'static str> {
        Some("gbk")
    }

    open spec fn spec_raw_encoder(&self) -> GBK18030Encoder {
        GBK18030Encoder
    }

    open spec fn spec_raw_decoder(&self) -> GBK18030Decoder {
        GBK18030Decoder { first: None }
    }

    fn name(&self) -> (r: &'static str) {
        "gbk18030"
    }

    fn whatwg_name(&self) -> (r: Option<&'static str>) {
        Some("gbk")
    }

    fn raw_encoder(&self) -> (r: GBK18030Encoder) {
        GBK18030Encoder::new()
    }

    fn raw_decoder(&self) -> (r: GBK18030Decoder) {
        let d = GBK18030Decoder::new();
        assert(d.wf() && d.spec_stable());
        d
    }
}

/// An encoder for an one- and two-byte subset of GB 18030.
#[derive(Clone, Copy)]
pub struct GBK18030Encoder;

impl GBK18030Encoder {
    /// Creates a new encoder.
    pub fn new() -> (r: GBK18030Encoder)
        ensures
            r == GBK18030Encoder,
    {
        GBK18030Encoder
    }

    /// Feeds a string to the encoder; see `RawEncoder`.
    pub fn raw_feed<W: ByteWriter>(&mut self, input: &str, output: &mut W) -> (r: (
        usize,
        Option<CodecError>,
    ))
        requires
            vstd::utf8::encode_utf8(input@).len() <= isize::MAX,
        ensures
            crate::types::encode_feed_post(
                *old(self),
                input@,
                *final(self),
                old(output).written(),
                final(output).written(),
                r,
            ),
    {
        feed_encoder(self, input, output)
    }

    /// Finishes the encoder; this encoder never has pending state.
    pub fn raw_finish<W: ByteWriter>(&mut self, output: &mut W) -> (r: Option<CodecError>)
        ensures
            r is None,
            *final(self) == *old(self),
            final(output).written() == old(output).written(),
    {
        None
    }
}

impl RawEncoder for GBK18030Encoder {
    open spec fn spec_encode_char(&self, c: char) -> Option<(Self, Seq<u8>)> {
        let v = c as u32;
        if v < 0x80 {
            Some((*self, seq![v as u8]))
        } else if gb18030_backward(v) == 0xffff {
            None
        } else {
            Some((*self, gbk_bytes(gb18030_backward(v))))
        }
    }

    open spec fn spec_fresh(&self) -> Self {
        GBK18030Encoder
    }

    open spec fn spec_ascii_compatible(&self) -> bool {
        true
    }

    open spec fn spec_total(&self) -> bool {
        false
    }

    open spec fn spec_encodes_ascii(&self) -> bool {
        true
    }

    proof fn lemma_encodes_ascii(&self, c: char) {
    }

    proof fn lemma_ascii_compatible_preserved(&self, c: char) {
    }

    proof fn lemma_ascii_char(&self, c: char) {
    }

    fn from_self(&self) -> (r: Self) {
        GBK18030Encoder::new()
    }

    fn is_ascii_compatible(&self) -> (r: bool) {
        true
    }

    fn encode_char<W: ByteWriter>(&mut self, c: char, output: &mut W) -> (ok: bool) {
        let v = c as u32;
        if v < 0x80 {
            output.write_byte(v as u8);
            return true;
        }
        let ptr = encoding_index_simpchinese::gb18030::backward(v);
        if ptr == 0xffff {
            return false;
        }
        write_gbk(ptr, output);
        true
    }
}

/// A decoder for an one- and two-byte subset of GB 18030.
#[derive(Clone, Copy)]
pub struct GBK18030Decoder {
    /// The first byte read, if any.
    pub first: Option<u8>,
}

impl GBK18030Decoder {
    /// Creates a new decoder.
    pub fn new() -> (r: GBK18030Decoder)
        ensures
            r.first is None,
    {
        GBK18030Decoder { first: None }
    }

    /// Feeds bytes to the decoder; see `RawDecoder`.
    pub fn raw_feed<W: StringWriter>(&mut self, input: &[u8], output: &mut W) -> (r: (
        usize,
        Option<CodecError>,
    ))
        requires
            input@.len() <= isize::MAX,
        ensures
            crate::types::decode_feed_post(
                *old(self),
                input@,
                *final(self),
                old(output).written(),
                final(output).written(),
                r,
            ),
    {
        feed_decoder(self, input, output)
    }

    /// Finishes the decoder: an error if a first byte is left without its second byte.
    pub fn raw_finish<W: StringWriter>(&mut self, output: &mut W) -> (r: Option<CodecError>)
        ensures
            final(self).first is None,
            final(output).written() == old(output).written(),
            match old(self).first {
                None => r is None,
                Some(_) => r matches Some(e) && e.upto == 0 && e.cause == INCOMPLETE_SEQUENCE,
            },
    {
        finish_decoder(self, output)
    }
}

impl RawDecoder for GBK18030Decoder {
    open spec fn wf(&self) -> bool {
        true
    }

    open spec fn spec_stable(&self) -> bool {
        self.first is None
    }

    open spec fn spec_pending(&self) -> nat {
        if self.first is None {
            0
        } else {
            1
        }
    }

    open spec fn spec_step(&self, b: u8) -> DecodeStep<Self> {
        let init = GBK18030Decoder { first: None };
        match self.first {
            None => if b < 0x80 {
                (init, seq![b as char], None)
            } else if b == 0x80 {
                (init, seq!['\u{20ac}'], None)
            } else if b <= 0xfe {
                (GBK18030Decoder { first: Some(b) }, Seq::empty(), None)
            } else {
                (init, Seq::empty(), Some((0, INVALID_SEQUENCE)))
            },
            Some(b1) => match mapped_char(gbk_code_point(b1, b)) {
                Some(c) => (init, seq![c], None),
                None => (init, Seq::empty(), Some((1, INVALID_SEQUENCE))),
            },
        }
    }

    open spec fn spec_finish_error(&self) -> Option<&'static str> {
        if self.first is None {
            None
        } else {
            Some(INCOMPLETE_SEQUENCE)
        }
    }

    open spec fn spec_fresh(&self) -> Self {
        GBK18030Decoder { first: None }
    }

    open spec fn spec_ascii_compatible(&self) -> bool {
        true
    }

    proof fn lemma_step(&self, b: u8) {
    }

    proof fn lemma_fresh(&self) {
    }

    proof fn lemma_ascii_byte(&self, b: u8) {
    }

    fn from_self(&self) -> (r: Self) {
        GBK18030Decoder::new()
    }

    fn is_ascii_compatible(&self) -> (r: bool) {
        true
    }

    fn is_stable(&self) -> (r: bool) {
        self.first.is_none()
    }

    fn decode_byte<W: StringWriter>(
        &mut self,
        ctx: &mut StatefulDecoderHelper,
        b: u8,
        output: &mut W,
    ) {
        match self.first {
            None => {
                if b < 0x80 {
                    ctx.emit(output, b as char);
                } else if b == 0x80 {
                    ctx.emit(output, '\u{20ac}');
                } else if b <= 0xfe {
                    self.first = Some(b);
                } else {
                    ctx.backup_and_err(0, INVALID_SEQUENCE);
                }
            },
            Some(b1) => {
                self.first = None;
                emit_mapped(ctx, map_two_bytes(b1, b), 1, output);
            },
        }
    }

    fn finish(&mut self) -> (r: Option<&'static str>) {
        let r = if self.first.is_none() {
            None
        } else {
            Some(INCOMPLETE_SEQUENCE)
        };
        self.first = None;
        r
    }
}

/// HZ. (RFC 1843)
///
/// This is a simplified Chinese encoding based on GB 2312.
/// It bears a resemblance to ISO 2022 encodings in such that the printable escape sequences `~{`
/// and `~}` are used to delimit a sequence of 7-bit-safe GB 2312 sequences. For the comparison,
/// they are equivalent to ISO-2022-CN escape sequences `ESC $ ) A` and `ESC ( B`.
/// Additional escape sequences `~~` (for a literal `~`) and `~\n` (ignored) are also supported.
#[derive(Clone, Copy)]
pub struct HZEncoding;

impl Encoding for HZEncoding {
    type RawEnc = HZEncoder;

    type RawDec = HZDecoder;

    open spec fn spec_name(&self) -> &'static str {
        "hz"
    }

    open spec fn spec_whatwg_name(&self) -> Option<&'static str> {
        Some("hz-gb-2312")
    }

    open spec fn spec_raw_encoder(&self) -> HZEncoder {
        HZEncoder { escaped: false }
    }

    open spec fn spec_raw_decoder(&self) -> HZDecoder {
        HZDecoder { state: HZState::A0 }
    }

    fn name(&self) -> (r: &'static str) {
        "hz"
    }

    fn whatwg_name(&self) -> (r: Option<&'static str>) {
        Some("hz-gb-2312")
    }

    fn raw_encoder(&self) -> (r: HZEncoder) {
        HZEncoder::new()
    }

    fn raw_decoder(&self) -> (r: HZDecoder) {
        let d = HZDecoder::new();
        assert(d.wf() && d.spec_stable());
        d
    }
}

/// An encoder for HZ.
#[derive(Clone, Copy)]
pub struct HZEncoder {
    /// Whether the GB 2312 mode (`~{`) is on.
    pub escaped: bool,
}

/// The bytes switching the GB 2312 mode to `target`, empty when it is already so.
pub open spec fn hz_switch(escaped: bool, target: bool) -> Seq<u8> {
    if escaped == target {
        Seq::empty()
    } else if target {
        seq![0x7eu8, 0x7b]
    } else {
        seq![0x7eu8, 0x7d]
    }
}

/// Whether `c` is encoded in the GB 2312 mode, and the bytes within that mode, if it can
/// be encoded: the GBK extensions outside GB 2312 cannot.
pub open spec fn hz_target(c: char) -> Option<(bool, Seq<u8>)> {
    let v = c as u32;
    if v < 0x80 {
        if v == 0x7e {
            Some((false, seq![0x7eu8, 0x7e]))
        } else {
            Some((false, seq![v as u8]))
        }
    } else {
        let ptr = gb18030_backward(v);
        if ptr == 0xffff {
            None
        } else {
            let lead = ptr / 190;
            let trail = ptr % 190;
            if lead < 0x21 - 1 || trail < 0x21 + 0x3f {
                None
            } else {
                Some((true, seq![(lead + 1) as u8, (trail - 0x3f) as u8]))
            }
        }
    }
}

impl HZEncoder {
    /// Creates a new encoder, outside the GB 2312 mode.
    pub fn new() -> (r: HZEncoder)
        ensures
            !r.escaped,
    {
        HZEncoder { escaped: false }
    }

    /// Feeds a string to the encoder; see `RawEncoder`. On an unrepresentable
    /// character the mode in use is kept.
    pub fn raw_feed<W: ByteWriter>(&mut self, input: &str, output: &mut W) -> (r: (
        usize,
        Option<CodecError>,
    ))
        requires
            vstd::utf8::encode_utf8(input@).len() <= isize::MAX,
        ensures
            crate::types::encode_feed_post(
                *old(self),
                input@,
                *final(self),
                old(output).written(),
                final(output).written(),
                r,
            ),
    {
        feed_encoder(self, input, output)
    }

    /// Finishes the encoder. It writes nothing: the mode in use stays.
    pub fn raw_finish<W: ByteWriter>(&mut self, output: &mut W) -> (r: Option<CodecError>)
        ensures
            r is None,
            *final(self) == *old(self),
            final(output).written() == old(output).written(),
    {
        None
    }
}

impl RawEncoder for HZEncoder {
    open spec fn spec_encode_char(&self, c: char) -> Option<(Self, Seq<u8>)> {
        match hz_target(c) {
            Some((target, bytes)) => Some(
                (HZEncoder { escaped: target }, hz_switch(self.escaped, target) + bytes),
            ),
            None => None,
        }
    }

    open spec fn spec_fresh(&self) -> Self {
        HZEncoder { escaped: false }
    }

    open spec fn spec_ascii_compatible(&self) -> bool {
        false
    }

    open spec fn spec_total(&self) -> bool {
        false
    }

    open spec fn spec_encodes_ascii(&self) -> bool {
        true
    }

    proof fn lemma_encodes_ascii(&self, c: char) {
    }

    proof fn lemma_ascii_compatible_preserved(&self, c: char) {
    }

    proof fn lemma_ascii_char(&self, c: char) {
    }

    fn from_self(&self) -> (r: Self) {
        HZEncoder::new()
    }

    fn is_ascii_compatible(&self) -> (r: bool) {
        false
    }

    fn encode_char<W: ByteWriter>(&mut self, c: char, output: &mut W) -> (ok: bool) {
        let v = c as u32;
        if v < 0x80 {
            if self.escaped {
                output.write_byte(0x7e);
                output.write_byte(0x7d);
                self.escaped = false;
            }
            output.write_byte(v as u8);
            if v == 0x7e {
                output.write_byte(0x7e);
            }
        } else {
            let ptr = encoding_index_simpchinese::gb18030::backward(v);
            if ptr == 0xffff {
                return false;
            }
            let lead = ptr / 190;
            let trail = ptr % 190;
            if lead < 0x21 - 1 || trail < 0x21 + 0x3f {
                return false;
            }
            if !self.escaped {
                output.write_byte(0x7e);
                output.write_byte(0x7b);
                self.escaped = true;
            }
            output.write_byte((lead + 1) as u8);
            output.write_byte((trail - 0x3f) as u8);
        }
        assert(final(output).written() =~= old(output).written() + old(self).spec_encode_char(c).unwrap().1);
        true
    }
}

/// Where the HZ decoder stands.
#[derive(Clone, Copy, PartialEq, Eq, Structural)]
pub enum HZState {
    /// Outside the GB 2312 mode.
    A0,
    /// Inside the GB 2312 mode.
    B0,
    /// After `~`, outside the GB 2312 mode.
    A1,
    /// After `~`, inside the GB 2312 mode.
    B1,
    /// After a lead byte, inside the GB 2312 mode.
    B2(u8),
}

/// A decoder for HZ.
#[derive(Clone, Copy)]
pub struct HZDecoder {
    /// Where the decoder stands.
    pub state: HZState,
}

impl HZDecoder {
    /// Creates a new decoder, outside the GB 2312 mode.
    pub fn new() -> (r: HZDecoder)
        ensures
            r.state == HZState::A0,
    {
        HZDecoder { state: HZState::A0 }
    }

    /// Feeds bytes to the decoder; see `RawDecoder`.
    pub fn raw_feed<W: StringWriter>(&mut self, input: &[u8], output: &mut W) -> (r: (
        usize,
        Option<CodecError>,
    ))
        requires
            input@.len() <= isize::MAX,
        ensures
            crate::types::decode_feed_post(
                *old(self),
                input@,
                *final(self),
                old(output).written(),
                final(output).written(),
                r,
            ),
    {
        feed_decoder(self, input, output)
    }

    /// Finishes the decoder: an error if the input ended after `~` or a lead byte.
    /// The decoder leaves the GB 2312 mode.
    pub fn raw_finish<W: StringWriter>(&mut self, output: &mut W) -> (r: Option<CodecError>)
        ensures
            final(self).state == HZState::A0,
            final(output).written() == old(output).written(),
            match old(self).spec_finish_error() {
                None => r is None,
                Some(cause) => r matches Some(e) && e.upto == 0 && e.cause == cause,
            },
    {
        finish_decoder(self, output)
    }
}

/// The code point of a GB 2312 lead (20-7F) and trail byte (21-7E) in HZ, or 0xffff.
pub open spec fn hz_code_point(lead: u8, trail: u8) -> u32 {
    if 0x20 <= lead <= 0x7f && 0x21 <= trail <= 0x7e {
        gb18030_forward(((lead - 1) * 190 + (trail + 0x3f)) as u16)
    } else {
        0xffff
    }
}

/// Maps a GB 2312 lead and trail byte in HZ, 0xffff where there is no character.
pub fn map_hz_bytes(lead: u8, trail: u8) -> (r: u32)
    ensures
        r == hz_code_point(lead, trail),
{
    if 0x20 <= lead && lead <= 0x7f && 0x21 <= trail && trail <= 0x7e {
        let index = ((lead - 1) as u16) * 190 + ((trail + 0x3f) as u16);
        encoding_index_simpchinese::gb18030::forward(index)
    } else {
        0xffff
    }
}

impl RawDecoder for HZDecoder {
    open spec fn wf(&self) -> bool {
        true
    }

    open spec fn spec_stable(&self) -> bool {
        self.state == HZState::A0 || self.state == HZState::B0
    }

    open spec fn spec_pending(&self) -> nat {
        if self.state == HZState::A0 || self.state == HZState::B0 {
            0
        } else {
            1
        }
    }

    open spec fn spec_step(&self, b: u8) -> DecodeStep<Self> {
        let a0 = HZDecoder { state: HZState::A0 };
        let b0 = HZDecoder { state: HZState::B0 };
        match self.state {
            HZState::A0 => if b == 0x7e {
                (HZDecoder { state: HZState::A1 }, Seq::empty(), None)
            } else if b <= 0x7f {
                (a0, seq![b as char], None)
            } else {
                (a0, Seq::empty(), Some((0, INVALID_SEQUENCE)))
            },
            HZState::B0 => if b == 0x7e {
                (HZDecoder { state: HZState::B1 }, Seq::empty(), None)
            } else if 0x20 <= b <= 0x7f {
                (HZDecoder { state: HZState::B2(b) }, Seq::empty(), None)
            } else if b == 0x0a {
                (a0, Seq::empty(), None)
            } else {
                (a0, Seq::empty(), Some((0, INVALID_SEQUENCE)))
            },
            HZState::A1 => if b == 0x7b {
                (b0, Seq::empty(), None)
            } else if b == 0x7d {
                (a0, Seq::empty(), None)
            } else if b == 0x7e {
                (a0, seq!['~'], None)
            } else if b == 0x0a {
                (a0, Seq::empty(), None)
            } else {
                (a0, Seq::empty(), Some((1, INVALID_SEQUENCE)))
            },
            HZState::B1 => if b == 0x7b {
                (b0, Seq::empty(), None)
            } else if b == 0x7d {
                (a0, Seq::empty(), None)
            } else if b == 0x7e {
                (b0, seq!['~'], None)
            } else if b == 0x0a {
                (a0, Seq::empty(), None)
            } else {
                (a0, Seq::empty(), Some((1, INVALID_SEQUENCE)))
            },
            HZState::B2(lead) => if b == 0x0a {
                (a0, Seq::empty(), Some((0, INVALID_SEQUENCE)))
            } else {
                match mapped_char(hz_code_point(lead, b)) {
                    Some(c) => (b0, seq![c], None),
                    None => (b0, Seq::empty(), Some((0, INVALID_SEQUENCE))),
                }
            },
        }
    }

    open spec fn spec_finish_error(&self) -> Option<&'static str> {
        if self.state == HZState::A0 || self.state == HZState::B0 {
            None
        } else {
            Some(INCOMPLETE_SEQUENCE)
        }
    }

    open spec fn spec_fresh(&self) -> Self {
        HZDecoder { state: HZState::A0 }
    }

    open spec fn spec_ascii_compatible(&self) -> bool {
        false
    }

    proof fn lemma_step(&self, b: u8) {
    }

    proof fn lemma_fresh(&self) {
    }

    proof fn lemma_ascii_byte(&self, b: u8) {
    }

    fn from_self(&self) -> (r: Self) {
        HZDecoder::new()
    }

    fn is_ascii_compatible(&self) -> (r: bool) {
        false
    }

    fn is_stable(&self) -> (r: bool) {
        match self.state {
            HZState::A0 => true,
            HZState::B0 => true,
            _ => false,
        }
    }

    fn decode_byte<W: StringWriter>(
        &mut self,
        ctx: &mut StatefulDecoderHelper,
        b: u8,
        output: &mut W,
    ) {
        match self.state {
            HZState::A0 => {
                if b == 0x7e {
                    self.state = HZState::A1;
                } else if b <= 0x7f {
                    ctx.emit(output, b as char);
                } else {
                    ctx.backup_and_err(0, INVALID_SEQUENCE);
                }
            },
            HZState::B0 => {
                if b == 0x7e {
                    self.state = HZState::B1;
                } else if 0x20 <= b && b <= 0x7f {
                    self.state = HZState::B2(b);
                } else if b == 0x0a {
                    self.state = HZState::A0;
                } else {
                    self.state = HZState::A0;
                    ctx.backup_and_err(0, INVALID_SEQUENCE);
                }
            },
            HZState::A1 => {
                self.state = HZState::A0;
                if b == 0x7b {
                    self.state = HZState::B0;
                } else if b == 0x7d {
                } else if b == 0x7e {
                    ctx.emit(output, '~');
                } else if b == 0x0a {
                } else {
                    ctx.backup_and_err(1, INVALID_SEQUENCE);
                }
            },
            HZState::B1 => {
                self.state = HZState::A0;
                if b == 0x7b {
                    self.state = HZState::B0;
                } else if b == 0x7d {
                } else if b == 0x7e {
                    self.state = HZState::B0;
                    ctx.emit(output, '~');
                } else if b == 0x0a {
                } else {
                    ctx.backup_and_err(1, INVALID_SEQUENCE);
                }
            },
            HZState::B2(lead) => {
                if b == 0x0a {
                    self.state = HZState::A0;
                    ctx.backup_and_err(0, INVALID_SEQUENCE);
                } else {
                    self.state = HZState::B0;
                    emit_mapped(ctx, map_hz_bytes(lead, b), 0, output);
                }
            },
        }
    }

    fn finish(&mut self) -> (r: Option<&'static str>) {
        let r = if self.is_stable() {
            None
        } else {
            Some(INCOMPLETE_SEQUENCE)
        };
        self.state = HZState::A0;
        r
    }
}

/// Decoding reverses encoding of two-byte sequences: for every GBK pointer (lead bytes 81-FE,
/// trail bytes 40-7E and 80-FE), the two bytes that the encoder writes for it are read back by
/// fresh GB 18030 and GBK decoders as that pointer, which emit the character that the index
/// gives it and nothing else.
pub proof fn lemma_gbk_decodes_encoded_pointer(ptr: u16)
    requires
        ptr < 126 * 190,
    ensures
        ({
            let bs = gbk_bytes(ptr);
            let d = GB18030Decoder { state: GB18030State::Initial };
            let k = GBK18030Decoder { first: None };
            &&& bs.len() == 2
            &&& 0x81 <= bs[0] <= 0xfe
            &&& (0x40 <= bs[1] <= 0x7e || 0x80 <= bs[1] <= 0xfe)
            &&& gbk_pointer(bs[0], bs[1]) == ptr
            &&& gbk_code_point(bs[0], bs[1]) == gb18030_forward(ptr)
            &&& mapped_char(gb18030_forward(ptr)) matches Some(c) ==> decode_run(d, bs) == (
                d,
                seq![c],
                2nat,
                Option::<(int, &'static str)>::None,
            ) && decode_run(k, bs) == (k, seq![c], 2nat, Option::<(int, &'static str)>::None)
            &&& mapped_char(gb18030_forward(ptr)) is None ==> decode_run(d, bs).3 is Some
                && decode_run(k, bs).3 is Some
        }),
{
    let bs = gbk_bytes(ptr);
    assert(bs.drop_last() =~= seq![bs[0]]);
    assert(seq![bs[0]].drop_last() =~= Seq::<u8>::empty());
    reveal_with_fuel(decode_run, 3);
    if let Some(c) = mapped_char(gb18030_forward(ptr)) {
        assert(Seq::<char>::empty() + Seq::<char>::empty() + seq![c] =~= seq![c]);
    }
}

/// Decoding reverses encoding of four-byte sequences: for every four-byte pointer, the bytes
/// that the encoder writes for it are read back by a fresh GB 18030 decoder as that pointer,
/// which emits the character that the ranges give it and nothing else.
pub proof fn lemma_gb18030_decodes_encoded_four_byte_pointer(ptr: u32)
    requires
        ptr < 126 * 10 * 126 * 10,
    ensures
        ({
            let bs = gb18030_four_bytes(ptr);
            let d = GB18030Decoder { state: GB18030State::Initial };
            &&& bs.len() == 4
            &&& 0x81 <= bs[0] <= 0xfe && 0x30 <= bs[1] <= 0x39
            &&& 0x81 <= bs[2] <= 0xfe && 0x30 <= bs[3] <= 0x39
            &&& gb18030_four_pointer(bs[0], bs[1], bs[2], bs[3]) == ptr
            &&& mapped_char_except(gb18030_ranges_forward(ptr), 0xffffffff) matches Some(c)
                ==> decode_run(d, bs) == (d, seq![c], 4nat, Option::<(int, &'static str)>::None)
            &&& mapped_char_except(gb18030_ranges_forward(ptr), 0xffffffff) is None ==> decode_run(
                d,
                bs,
            ).3 is Some
        }),
{
    let bs = gb18030_four_bytes(ptr);
    let b4 = ptr % 10;
    let p = ptr / 10;
    let b3 = p % 126;
    let p2 = p / 126;
    assert(p2 < 1260);
    assert(ptr == ((p2 / 10 * 10 + p2 % 10) * 126 + b3) * 10 + b4);
    assert(((p2 / 10) * 12600 + (p2 % 10) * 1260 + b3 * 10 + b4) == ptr) by (nonlinear_arith)
        requires
            ptr == ((p2 / 10 * 10 + p2 % 10) * 126 + b3) * 10 + b4,
    ;
    assert(bs.drop_last() =~= seq![bs[0], bs[1], bs[2]]);
    assert(seq![bs[0], bs[1], bs[2]].drop_last() =~= seq![bs[0], bs[1]]);
    assert(seq![bs[0], bs[1]].drop_last() =~= seq![bs[0]]);
    assert(seq![bs[0]].drop_last() =~= Seq::<u8>::empty());
    reveal_with_fuel(decode_run, 5);
    if let Some(c) = mapped_char_except(gb18030_ranges_forward(ptr), 0xffffffff) {
        assert(Seq::<char>::empty() + Seq::<char>::empty() + Seq::<char>::empty() + Seq::<char>::empty()
            + seq![c] =~= seq![c]);
    }
}

/// Every character above U+0080 that the two-byte index has is written, by the GB 18030 and
/// the GBK encoders alike, as the two bytes of its pointer, which a decoder reads back as that
/// pointer.
pub proof fn lemma_gbk_encodes_pointer(c: char)
    requires
        (c as u32) >= 0x80,
        gb18030_backward(c as u32) != 0xffff,
        gb18030_backward(c as u32) < 126 * 190,
    ensures
        GB18030Encoder.spec_encode_char(c) == Some((GB18030Encoder, gbk_bytes(gb18030_backward(c as u32)))),
        GBK18030Encoder.spec_encode_char(c) == Some((GBK18030Encoder, gbk_bytes(gb18030_backward(c as u32)))),
        gbk_pointer(gbk_bytes(gb18030_backward(c as u32))[0], gbk_bytes(gb18030_backward(c as u32))[1])
            == gb18030_backward(c as u32),
{
    lemma_gbk_decodes_encoded_pointer(gb18030_backward(c as u32));
}

/// The decoder state that reads what the encoder writes in or outside the GB 2312 mode.
pub open spec fn hz_reading_state(escaped: bool) -> HZState {
    if escaped {
        HZState::B0
    } else {
        HZState::A0
    }
}

/// A decoder in the state matching a mode reads the escape sequence that the encoder writes to
/// switch modes as a switch to the state matching the new mode.
proof fn lemma_hz_reads_switch(escaped: bool, target: bool)
    ensures
        ({
            let bs = hz_switch(escaped, target);
            decode_run(HZDecoder { state: hz_reading_state(escaped) }, bs) == (
                HZDecoder { state: hz_reading_state(target) },
                Seq::<char>::empty(),
                bs.len(),
                Option::<(int, &'static str)>::None,
            )
        }),
{
    let bs = hz_switch(escaped, target);
    reveal_with_fuel(decode_run, 3);
    if bs.len() > 0 {
        assert(bs.drop_last() =~= seq![bs[0]]);
        assert(seq![bs[0]].drop_last() =~= Seq::<u8>::empty());
        assert(Seq::<char>::empty() + Seq::<char>::empty() + Seq::<char>::empty() =~= Seq::<char>::empty());
    }
}

/// A decoder in the state matching the mode of `c` reads the bytes that the encoder writes for
/// `c` in that mode as `c` (for GB 2312, as the character that the index gives its pointer).
proof fn lemma_hz_reads_char(c: char)
    requires
        hz_target(c) matches Some((t, _)) && (t ==> gb18030_backward(c as u32) / 190 < 0x7d),
    ensures
        ({
            let (t, bs) = hz_target(c)->0;
            let d = HZDecoder { state: hz_reading_state(t) };
            let run = decode_run(d, bs);
            &&& !t ==> run == (d, seq![c], bs.len(), Option::<(int, &'static str)>::None)
            &&& t ==> (mapped_char(gb18030_forward(gb18030_backward(c as u32))) matches Some(x) ==> run
                == (d, seq![x], bs.len(), Option::<(int, &'static str)>::None))
        }),
{
    let (t, bs) = hz_target(c)->0;
    reveal_with_fuel(decode_run, 3);
    vstd::utf8::char_is_scalar(c);
    if bs.len() == 2 {
        assert(bs.drop_last() =~= seq![bs[0]]);
        assert(seq![bs[0]].drop_last() =~= Seq::<u8>::empty());
        assert(Seq::<char>::empty() + Seq::<char>::empty() + seq![c] =~= seq![c]);
        if let Some(x) = mapped_char(gb18030_forward(gb18030_backward(c as u32))) {
            assert(Seq::<char>::empty() + Seq::<char>::empty() + seq![x] =~= seq![x]);
        }
    } else {
        assert(bs.drop_last() =~= Seq::<u8>::empty());
        assert(Seq::<char>::empty() + seq![c] =~= seq![c]);
    }
}

/// Decoding reverses encoding for HZ, in or outside the GB 2312 mode: the bytes written for a
/// character, mode switch included, are read by a decoder in the matching state as that
/// character (for GB 2312, as the character that the index gives its pointer), leaving the
/// decoder in the state matching the encoder's new mode. Left out are the pointers whose lead
/// byte in HZ would be 7E, which the decoder reads as the start of an escape sequence.
pub proof fn lemma_hz_decodes_encoded(escaped: bool, c: char)
    requires
        hz_target(c) matches Some((t, _)) && (t ==> gb18030_backward(c as u32) / 190 < 0x7d),
    ensures
        ({
            let next = HZEncoder { escaped }.spec_encode_char(c)->0;
            let bs = next.1;
            let run = decode_run(HZDecoder { state: hz_reading_state(escaped) }, bs);
            let end = HZDecoder { state: hz_reading_state(next.0.escaped) };
            &&& !next.0.escaped ==> run == (end, seq![c], bs.len(), Option::<(int, &'static str)>::None)
            &&& next.0.escaped ==> (mapped_char(gb18030_forward(gb18030_backward(c as u32))) matches Some(
                x,
            ) ==> run == (end, seq![x], bs.len(), Option::<(int, &'static str)>::None))
        }),
{
    let (t, bytes) = hz_target(c)->0;
    let sw = hz_switch(escaped, t);
    let d = HZDecoder { state: hz_reading_state(escaped) };
    lemma_hz_reads_switch(escaped, t);
    lemma_hz_reads_char(c);
    lemma_decode_run_concat(d, sw, bytes);
    assert(Seq::<char>::empty() + seq![c] =~= seq![c]);
    if let Some(x) = mapped_char(gb18030_forward(gb18030_backward(c as u32))) {
        assert(Seq::<char>::empty() + seq![x] =~= seq![x]);
    }
}

/// Every character that the two-byte index lacks is written by the GB 18030 encoder as the four
/// bytes of its pointer in the ranges, which a decoder reads back as that pointer.
pub proof fn lemma_gb18030_encodes_four_byte_pointer(c: char)
    requires
        (c as u32) >= 0x80,
        gb18030_backward(c as u32) == 0xffff,
        gb18030_ranges_backward(c as u32) != 0xffffffff,
        gb18030_ranges_backward(c as u32) < 126 * 10 * 126 * 10,
    ensures
        ({
            let p = gb18030_ranges_backward(c as u32);
            let bs = gb18030_four_bytes(p);
            &&& GB18030Encoder.spec_encode_char(c) == Some((GB18030Encoder, bs))
            &&& gb18030_four_pointer(bs[0], bs[1], bs[2], bs[3]) == p
        }),
{
    lemma_gb18030_decodes_encoded_four_byte_pointer(gb18030_ranges_backward(c as u32));
}

} // verus!
