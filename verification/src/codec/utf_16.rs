//! UTF-16.

use vstd::prelude::*;
use crate::types::{
    feed_decoder, feed_encoder, finish_decoder, ByteWriter, CodecError, DecodeStep, Encoding,
    RawDecoder, RawEncoder, StringWriter, INCOMPLETE_SEQUENCE, INVALID_SEQUENCE,
};
use crate::util::{char_from_u32, StatefulDecoderHelper};

verus! {

/// The code unit made of two bytes in the given byte order.
pub open spec fn unit_of(first: u8, second: u8, big_endian: bool) -> u16 {
    if big_endian {
        (first * 256 + second) as u16
    } else {
        (second * 256 + first) as u16
    }
}

/// The two bytes of the code unit `u` in the given byte order.
pub open spec fn bytes_of_unit(u: u16, big_endian: bool) -> Seq<u8> {
    if big_endian {
        seq![(u / 256) as u8, (u % 256) as u8]
    } else {
        seq![(u % 256) as u8, (u / 256) as u8]
    }
}

/// Is `u` an upper (leading) surrogate?
pub open spec fn is_upper_surrogate(u: u16) -> bool {
    0xd800 <= u <= 0xdbff
}

/// Is `u` a lower (trailing) surrogate?
pub open spec fn is_lower_surrogate(u: u16) -> bool {
    0xdc00 <= u <= 0xdfff
}

/// The code point of a surrogate pair.
pub open spec fn surrogate_pair_value(upper: u16, lower: u16) -> u32 {
    ((upper - 0xd800) * 0x400 + (lower - 0xdc00) + 0x10000) as u32
}

/// The UTF-16 encoding of `c` in the given byte order: one code unit up to U+FFFF,
/// a surrogate pair beyond.
pub open spec fn utf16_bytes(c: char, big_endian: bool) -> Seq<u8> {
    let v = c as u32;
    if v <= 0xffff {
        bytes_of_unit(v as u16, big_endian)
    } else {
        let w = (v - 0x10000) as u32;
        bytes_of_unit((0xd800 + w / 0x400) as u16, big_endian) + bytes_of_unit(
            (0xdc00 + w % 0x400) as u16,
            big_endian,
        )
    }
}

/// Writes the UTF-16 encoding of `c`.
fn write_utf16<W: ByteWriter>(c: char, big_endian: bool, output: &mut W)
    ensures
        final(output).written() == old(output).written() + utf16_bytes(c, big_endian),
{
    let v = c as u32;
    if v <= 0xffff {
        write_unit(v as u16, big_endian, output);
    } else {
        let w = v - 0x10000;
        proof {
            vstd::utf8::char_is_scalar(c);
        }
        write_unit((0xd800 + w / 0x400) as u16, big_endian, output);
        write_unit((0xdc00 + w % 0x400) as u16, big_endian, output);
        assert(final(output).written() =~= old(output).written() + utf16_bytes(c, big_endian));
    }
}

/// Writes the two bytes of a code unit.
fn write_unit<W: ByteWriter>(u: u16, big_endian: bool, output: &mut W)
    ensures
        final(output).written() == old(output).written() + bytes_of_unit(u, big_endian),
{
    let hi = (u / 256) as u8;
    let lo = (u % 256) as u8;
    if big_endian {
        output.write_byte(hi);
        output.write_byte(lo);
    } else {
        output.write_byte(lo);
        output.write_byte(hi);
    }
    assert(final(output).written() =~= old(output).written() + bytes_of_unit(u, big_endian));
}

/// Where a UTF-16 decoder stands within a code unit or a surrogate pair.
#[derive(Clone, Copy, PartialEq, Eq, Structural)]
pub enum Utf16State {
    /// Between characters.
    Initial,
    /// The first byte of a code unit has been read.
    LeadByte(u8),
    /// An upper surrogate has been read.
    Surrogate(u16),
    /// An upper surrogate and the first byte of the next code unit have been read.
    SurrogateLeadByte(u16, u8),
}

/// States of the decoder hold upper surrogates only where they hold one.
pub open spec fn utf16_state_wf(s: Utf16State) -> bool {
    match s {
        Utf16State::Surrogate(u) => is_upper_surrogate(u),
        Utf16State::SurrogateLeadByte(u, _) => is_upper_surrogate(u),
        _ => true,
    }
}

/// The number of bytes read since the last complete character.
pub open spec fn utf16_state_pending(s: Utf16State) -> nat {
    match s {
        Utf16State::Initial => 0,
        Utf16State::LeadByte(_) => 1,
        Utf16State::Surrogate(_) => 2,
        Utf16State::SurrogateLeadByte(_, _) => 3,
    }
}

/// The effect of byte `b`: the next state, the characters emitted, and the error.
/// A lone lower surrogate is a problem of its own; an upper surrogate followed by
/// anything but a lower surrogate is a problem, and the unit after it is not a part of it.
pub open spec fn utf16_step(s: Utf16State, b: u8, big_endian: bool) -> (
    Utf16State,
    Seq<char>,
    Option<(nat, &'static str)>,
) {
    match s {
        Utf16State::Initial => (Utf16State::LeadByte(b), Seq::empty(), None),
        Utf16State::LeadByte(first) => {
            let u = unit_of(first, b, big_endian);
            if is_upper_surrogate(u) {
                (Utf16State::Surrogate(u), Seq::empty(), None)
            } else if is_lower_surrogate(u) {
                (Utf16State::Initial, Seq::empty(), Some((0, INVALID_SEQUENCE)))
            } else {
                (Utf16State::Initial, seq![(u as u32) as char], None)
            }
        },
        Utf16State::Surrogate(upper) => (Utf16State::SurrogateLeadByte(upper, b), Seq::empty(), None),
        Utf16State::SurrogateLeadByte(upper, first) => {
            let u = unit_of(first, b, big_endian);
            if is_lower_surrogate(u) {
                (Utf16State::Initial, seq![surrogate_pair_value(upper, u) as char], None)
            } else {
                (Utf16State::Initial, Seq::empty(), Some((2, INVALID_SEQUENCE)))
            }
        },
    }
}

/// Computes the code unit made of two bytes.
fn concat_two_bytes(first: u8, second: u8, big_endian: bool) -> (r: u16)
    ensures
        r == unit_of(first, second, big_endian),
{
    if big_endian {
        (first as u16) * 256 + (second as u16)
    } else {
        (second as u16) * 256 + (first as u16)
    }
}

/// Processes one byte; returns the next state.
fn utf16_decode_byte<W: StringWriter>(
    s: Utf16State,
    big_endian: bool,
    ctx: &mut StatefulDecoderHelper,
    b: u8,
    output: &mut W,
) -> (r: Utf16State)
    requires
        utf16_state_wf(s),
        old(ctx).err is None,
        old(ctx).pos <= isize::MAX,
    ensures
        r == utf16_step(s, b, big_endian).0,
        final(output).written() == old(output).written() + utf16_step(s, b, big_endian).1,
        final(ctx).buf == old(ctx).buf,
        final(ctx).pos == old(ctx).pos,
        final(ctx).err == crate::types::step_error(utf16_step(s, b, big_endian).2, old(ctx).pos as int),
{
    match s {
        Utf16State::Initial => Utf16State::LeadByte(b),
        Utf16State::LeadByte(first) => {
            let u = concat_two_bytes(first, b, big_endian);
            if 0xd800 <= u && u <= 0xdbff {
                Utf16State::Surrogate(u)
            } else if 0xdc00 <= u && u <= 0xdfff {
                ctx.backup_and_err(0, INVALID_SEQUENCE);
                Utf16State::Initial
            } else {
                match char_from_u32(u as u32) {
                    Some(c) => {
                        proof {
                            vstd::utf8::char_u32_cast(c, u as u32);
                        }
                        ctx.emit(output, c);
                    },
                    None => {},
                }
                Utf16State::Initial
            }
        },
        Utf16State::Surrogate(upper) => Utf16State::SurrogateLeadByte(upper, b),
        Utf16State::SurrogateLeadByte(upper, first) => {
            let u = concat_two_bytes(first, b, big_endian);
            if 0xdc00 <= u && u <= 0xdfff {
                let v = ((upper - 0xd800) as u32) * 0x400 + ((u - 0xdc00) as u32) + 0x10000;
                match char_from_u32(v) {
                    Some(c) => {
                        proof {
                            vstd::utf8::char_u32_cast(c, v);
                        }
                        ctx.emit(output, c);
                    },
                    None => {},
                }
                Utf16State::Initial
            } else {
                ctx.backup_and_err(2, INVALID_SEQUENCE);
                Utf16State::Initial
            }
        },
    }
}

/// UTF-16 (UCS Transformation Format, 16-bit) in little endian.
///
/// This is a Unicode encoding where one codepoint may use
/// 2 (up to U+FFFF) or 4 bytes (up to U+10FFFF) depending on its value.
/// It uses a "surrogate" mechanism to encode non-BMP codepoints,
/// which are represented as a pair of lower surrogate and upper surrogate characters.
/// In this effect, surrogate characters (U+D800..DFFF) cannot appear alone
/// and cannot be included in a valid Unicode string.
#[derive(Clone, Copy)]
pub struct UTF16LEEncoding;

impl Encoding for UTF16LEEncoding {
    type RawEnc = UTF16LEEncoder;

    type RawDec = UTF16LEDecoder;

    open spec fn spec_name(&self) -> &'static str {
        "utf-16le"
    }

    open spec fn spec_whatwg_name(&self) -> Option<&'static str> {
        Some("utf-16")
    }

    open spec fn spec_raw_encoder(&self) -> UTF16LEEncoder {
        UTF16LEEncoder
    }

    open spec fn spec_raw_decoder(&self) -> UTF16LEDecoder {
        UTF16LEDecoder { state: Utf16State::Initial }
    }

    fn name(&self) -> (r: &'static str) {
        "utf-16le"
    }

    fn whatwg_name(&self) -> (r: Option<&'static str>) {
        Some("utf-16")
    }

    fn raw_encoder(&self) -> (r: UTF16LEEncoder) {
        UTF16LEEncoder::new()
    }

    fn raw_decoder(&self) -> (r: UTF16LEDecoder) {
        let d = UTF16LEDecoder::new();
        assert(d.wf() && d.spec_stable());
        d
    }
}

/// An encoder for UTF-16 in little endian.
#[derive(Clone, Copy)]
pub struct UTF16LEEncoder;

impl UTF16LEEncoder {
    /// Creates a new encoder.
    pub fn new() -> (r: UTF16LEEncoder)
        ensures
            r == UTF16LEEncoder,
    {
        UTF16LEEncoder
    }

    /// Feeds a string to the encoder; see `RawEncoder`. Every character is representable.
    pub fn raw_feed<W: ByteWriter>(&mut self, input: &str, output: &mut W) -> (r: (
        usize,
        Option<CodecError>,
    ))
        requires
            vstd::utf8::encode_utf8(input@).len() <= isize::MAX,
        ensures
            crate::types::encode_feed_post(
                *old(self),
                input@,
                *final(self),
                old(output).written(),
                final(output).written(),
                r,
            ),
            r.1 is None,
    {
        feed_encoder(self, input, output)
    }

    /// Finishes the encoder; UTF-16 never has pending state.
    pub fn raw_finish<W: ByteWriter>(&mut self, output: &mut W) -> (r: Option<CodecError>)
        ensures
            r is None,
            *final(self) == *old(self),
            final(output).written() == old(output).written(),
    {
        None
    }
}

impl RawEncoder for UTF16LEEncoder {
    open spec fn spec_encode_char(&self, c: char) -> Option<(Self, Seq<u8>)> {
        Some((*self, utf16_bytes(c, false)))
    }

    open spec fn spec_fresh(&self) -> Self {
        UTF16LEEncoder
    }

    open spec fn spec_ascii_compatible(&self) -> bool {
        false
    }

    open spec fn spec_total(&self) -> bool {
        true
    }

    open spec fn spec_encodes_ascii(&self) -> bool {
        true
    }

    proof fn lemma_encodes_ascii(&self, c: char) {
    }

    proof fn lemma_ascii_compatible_preserved(&self, c: char) {
    }

    proof fn lemma_ascii_char(&self, c: char) {
    }

    fn from_self(&self) -> (r: Self) {
        UTF16LEEncoder::new()
    }

    fn is_ascii_compatible(&self) -> (r: bool) {
        false
    }

    fn encode_char<W: ByteWriter>(&mut self, c: char, output: &mut W) -> (ok: bool) {
        write_utf16(c, false, output);
        true
    }
}

/// A decoder for UTF-16 in little endian.
#[derive(Clone, Copy)]
pub struct UTF16LEDecoder {
    /// Where the decoder stands.
    pub state: Utf16State,
}

impl UTF16LEDecoder {
    /// Creates a new decoder.
    pub fn new() -> (r: UTF16LEDecoder)
        ensures
            r.state == Utf16State::Initial,
    {
        UTF16LEDecoder { state: Utf16State::Initial }
    }

    /// Feeds bytes to the decoder; see `RawDecoder`.
    pub fn raw_feed<W: StringWriter>(&mut self, input: &[u8], output: &mut W) -> (r: (
        usize,
        Option<CodecError>,
    ))
        requires
            old(self).wf(),
            input@.len() <= isize::MAX,
        ensures
            final(self).wf(),
            crate::types::decode_feed_post(
                *old(self),
                input@,
                *final(self),
                old(output).written(),
                final(output).written(),
                r,
            ),
    {
        feed_decoder(self, input, output)
    }

    /// Finishes the decoder: an error if the input ended inside a character.
    pub fn raw_finish<W: StringWriter>(&mut self, output: &mut W) -> (r: Option<CodecError>)
        requires
            old(self).wf(),
        ensures
            final(self).state == Utf16State::Initial,
            final(output).written() == old(output).written(),
            match old(self).state {
                Utf16State::Initial => r is None,
                _ => r matches Some(e) && e.upto == 0 && e.cause == INCOMPLETE_SEQUENCE,
            },
    {
        finish_decoder(self, output)
    }
}

impl RawDecoder for UTF16LEDecoder {
    open spec fn wf(&self) -> bool {
        utf16_state_wf(self.state)
    }

    open spec fn spec_stable(&self) -> bool {
        self.state == Utf16State::Initial
    }

    open spec fn spec_pending(&self) -> nat {
        utf16_state_pending(self.state)
    }

    open spec fn spec_step(&self, b: u8) -> DecodeStep<Self> {
        let st = utf16_step(self.state, b, false);
        (UTF16LEDecoder { state: st.0 }, st.1, st.2)
    }

    open spec fn spec_finish_error(&self) -> Option<&'static str> {
        if self.state == Utf16State::Initial {
            None
        } else {
            Some(INCOMPLETE_SEQUENCE)
        }
    }

    open spec fn spec_fresh(&self) -> Self {
        UTF16LEDecoder { state: Utf16State::Initial }
    }

    open spec fn spec_ascii_compatible(&self) -> bool {
        false
    }

    proof fn lemma_step(&self, b: u8) {
    }

    proof fn lemma_fresh(&self) {
    }

    proof fn lemma_ascii_byte(&self, b: u8) {
    }

    fn from_self(&self) -> (r: Self) {
        UTF16LEDecoder::new()
    }

    fn is_ascii_compatible(&self) -> (r: bool) {
        false
    }

    fn is_stable(&self) -> (r: bool) {
        match self.state {
            Utf16State::Initial => true,
            _ => false,
        }
    }

    fn decode_byte<W: StringWriter>(
        &mut self,
        ctx: &mut StatefulDecoderHelper,
        b: u8,
        output: &mut W,
    ) {
        self.state = utf16_decode_byte(self.state, false, ctx, b, output);
    }

    fn finish(&mut self) -> (r: Option<&'static str>) {
        let r = match self.state {
            Utf16State::Initial => None,
            _ => Some(INCOMPLETE_SEQUENCE),
        };
        self.state = Utf16State::Initial;
        r
    }
}

/// UTF-16 (UCS Transformation Format, 16-bit) in big endian.
///
/// This is a Unicode encoding where one codepoint may use
/// 2 (up to U+FFFF) or 4 bytes (up to U+10FFFF) depending on its value.
/// It uses a "surrogate" mechanism to encode non-BMP codepoints,
/// which are represented as a pair of lower surrogate and upper surrogate characters.
/// In this effect, surrogate characters (U+D800..DFFF) cannot appear alone
/// and cannot be included in a valid Unicode string.
#[derive(Clone, Copy)]
pub struct UTF16BEEncoding;

impl Encoding for UTF16BEEncoding {
    type RawEnc = UTF16BEEncoder;

    type RawDec = UTF16BEDecoder;

    open spec fn spec_name(&self) -> &'static str {
        "utf-16be"
    }

    open spec fn spec_whatwg_name(&self) -> Option<&'static str> {
        Some("utf-16be")
    }

    open spec fn spec_raw_encoder(&self) -> UTF16BEEncoder {
        UTF16BEEncoder
    }

    open spec fn spec_raw_decoder(&self) -> UTF16BEDecoder {
        UTF16BEDecoder { state: Utf16State::Initial }
    }

    fn name(&self) -> (r: &'static str) {
        "utf-16be"
    }

    fn whatwg_name(&self) -> (r: Option<&'static str>) {
        Some("utf-16be")
    }

    fn raw_encoder(&self) -> (r: UTF16BEEncoder) {
        UTF16BEEncoder::new()
    }

    fn raw_decoder(&self) -> (r: UTF16BEDecoder) {
        let d = UTF16BEDecoder::new();
        assert(d.wf() && d.spec_stable());
        d
    }
}

/// An encoder for UTF-16 in big endian.
#[derive(Clone, Copy)]
pub struct UTF16BEEncoder;

impl UTF16BEEncoder {
    /// Creates a new encoder.
    pub fn new() -> (r: UTF16BEEncoder)
        ensures
            r == UTF16BEEncoder,
    {
        UTF16BEEncoder
    }

    /// Feeds a string to the encoder; see `RawEncoder`. Every character is representable.
    pub fn raw_feed<W: ByteWriter>(&mut self, input: &str, output: &mut W) -> (r: (
        usize,
        Option<CodecError>,
    ))
        requires
            vstd::utf8::encode_utf8(input@).len() <= isize::MAX,
        ensures
            crate::types::encode_feed_post(
                *old(self),
                input@,
                *final(self),
                old(output).written(),
                final(output).written(),
                r,
            ),
            r.1 is None,
    {
        feed_encoder(self, input, output)
    }

    /// Finishes the encoder; UTF-16 never has pending state.
    pub fn raw_finish<W: ByteWriter>(&mut self, output: &mut W) -> (r: Option<CodecError>)
        ensures
            r is None,
            *final(self) == *old(self),
            final(output).written() == old(output).written(),
    {
        None
    }
}

impl RawEncoder for UTF16BEEncoder {
    open spec fn spec_encode_char(&self, c: char) -> Option<(Self, Seq<u8>)> {
        Some((*self, utf16_bytes(c, true)))
    }

    open spec fn spec_fresh(&self) -> Self {
        UTF16BEEncoder
    }

    open spec fn spec_ascii_compatible(&self) -> bool {
        false
    }

    open spec fn spec_total(&self) -> bool {
        true
    }

    open spec fn spec_encodes_ascii(&self) -> bool {
        true
    }

    proof fn lemma_encodes_ascii(&self, c: char) {
    }

    proof fn lemma_ascii_compatible_preserved(&self, c: char) {
    }

    proof fn lemma_ascii_char(&self, c: char) {
    }

    fn from_self(&self) -> (r: Self) {
        UTF16BEEncoder::new()
    }

    fn is_ascii_compatible(&self) -> (r: bool) {
        false
    }

    fn encode_char<W: ByteWriter>(&mut self, c: char, output: &mut W) -> (ok: bool) {
        write_utf16(c, true, output);
        true
    }
}

/// A decoder for UTF-16 in big endian.
#[derive(Clone, Copy)]
pub struct UTF16BEDecoder {
    /// Where the decoder stands.
    pub state: Utf16State,
}

impl UTF16BEDecoder {
    /// Creates a new decoder.
    pub fn new() -> (r: UTF16BEDecoder)
        ensures
            r.state == Utf16State::Initial,
    {
        UTF16BEDecoder { state: Utf16State::Initial }
    }

    /// Feeds bytes to the decoder; see `RawDecoder`.
    pub fn raw_feed<W: StringWriter>(&mut self, input: &[u8], output: &mut W) -> (r: (
        usize,
        Option<CodecError>,
    ))
        requires
            old(self).wf(),
            input@.len() <= isize::MAX,
        ensures
            final(self).wf(),
            crate::types::decode_feed_post(
                *old(self),
                input@,
                *final(self),
                old(output).written(),
                final(output).written(),
                r,
            ),
    {
        feed_decoder(self, input, output)
    }

    /// Finishes the decoder: an error if the input ended inside a character.
    pub fn raw_finish<W: StringWriter>(&mut self, output: &mut W) -> (r: Option<CodecError>)
        requires
            old(self).wf(),
        ensures
            final(self).state == Utf16State::Initial,
            final(output).written() == old(output).written(),
            match old(self).state {
                Utf16State::Initial => r is None,
                _ => r matches Some(e) && e.upto == 0 && e.cause == INCOMPLETE_SEQUENCE,
            },
    {
        finish_decoder(self, output)
    }
}

impl RawDecoder for UTF16BEDecoder {
    open spec fn wf(&self) -> bool {
        utf16_state_wf(self.state)
    }

    open spec fn spec_stable(&self) -> bool {
        self.state == Utf16State::Initial
    }

    open spec fn spec_pending(&self) -> nat {
        utf16_state_pending(self.state)
    }

    open spec fn spec_step(&self, b: u8) -> DecodeStep<Self> {
        let st = utf16_step(self.state, b, true);
        (UTF16BEDecoder { state: st.0 }, st.1, st.2)
    }

    open spec fn spec_finish_error(&self) -> Option<&'static str> {
        if self.state == Utf16State::Initial {
            None
        } else {
            Some(INCOMPLETE_SEQUENCE)
        }
    }

    open spec fn spec_fresh(&self) -> Self {
        UTF16BEDecoder { state: Utf16State::Initial }
    }

    open spec fn spec_ascii_compatible(&self) -> bool {
        false
    }

    proof fn lemma_step(&self, b: u8) {
    }

    proof fn lemma_fresh(&self) {
    }

    proof fn lemma_ascii_byte(&self, b: u8) {
    }

    fn from_self(&self) -> (r: Self) {
        UTF16BEDecoder::new()
    }

    fn is_ascii_compatible(&self) -> (r: bool) {
        false
    }

    fn is_stable(&self) -> (r: bool) {
        match self.state {
            Utf16State::Initial => true,
            _ => false,
        }
    }

    fn decode_byte<W: StringWriter>(
        &mut self,
        ctx: &mut StatefulDecoderHelper,
        b: u8,
        output: &mut W,
    ) {
        self.state = utf16_decode_byte(self.state, true, ctx, b, output);
    }

    fn finish(&mut self) -> (r: Option<&'static str>) {
        let r = match self.state {
            Utf16State::Initial => None,
            _ => Some(INCOMPLETE_SEQUENCE),
        };
        self.state = Utf16State::Initial;
        r
    }
}

/// The two bytes of a code unit, read back in the same byte order, give the unit.
proof fn lemma_unit_roundtrip(u: u16, big_endian: bool)
    ensures
        bytes_of_unit(u, big_endian).len() == 2,
        unit_of(bytes_of_unit(u, big_endian)[0], bytes_of_unit(u, big_endian)[1], big_endian) == u,
{
    assert((u / 256) * 256 + u % 256 == u);
}

/// Decoding the UTF-16 encoding of one character from the initial state gives the
/// character back and ends in the initial state.
pub proof fn lemma_utf16_decode_char(c: char, big_endian: bool)
    ensures
        decode_utf16_run(Utf16State::Initial, utf16_bytes(c, big_endian), big_endian) == (
            Utf16State::Initial,
            seq![c],
            Option::<(nat, &'static str)>::None,
        ),
{
    vstd::utf8::char_is_scalar(c);
    if (c as u32) <= 0xffff {
        lemma_utf16_decode_bmp(c, big_endian);
    } else {
        lemma_utf16_decode_pair(c, big_endian);
    }
}

/// A character of the basic multilingual plane is one code unit.
proof fn lemma_utf16_decode_bmp(c: char, big_endian: bool)
    requires
        (c as u32) <= 0xffff,
    ensures
        decode_utf16_run(Utf16State::Initial, utf16_bytes(c, big_endian), big_endian) == (
            Utf16State::Initial,
            seq![c],
            Option::<(nat, &'static str)>::None,
        ),
{
    let v = c as u32;
    vstd::utf8::char_is_scalar(c);
    vstd::utf8::char_u32_cast(c, v);
    let bytes = utf16_bytes(c, big_endian);
    lemma_unit_roundtrip(v as u16, big_endian);
    let r0 = decode_utf16_run(Utf16State::Initial, bytes.drop_last().drop_last(), big_endian);
    assert(bytes.drop_last().drop_last() =~= Seq::<u8>::empty());
    assert(r0 == (Utf16State::Initial, Seq::<char>::empty(), Option::<(nat, &'static str)>::None));
    let r1 = decode_utf16_run(Utf16State::Initial, bytes.drop_last(), big_endian);
    assert(r1 == (Utf16State::LeadByte(bytes[0]), Seq::<char>::empty(), Option::<(nat, &'static str)>::None));
    assert(Seq::<char>::empty() + seq![c] =~= seq![c]);
}

/// A character beyond the basic multilingual plane is a surrogate pair.
#[verifier::rlimit(30)]
proof fn lemma_utf16_decode_pair(c: char, big_endian: bool)
    requires
        (c as u32) > 0xffff,
    ensures
        decode_utf16_run(Utf16State::Initial, utf16_bytes(c, big_endian), big_endian) == (
            Utf16State::Initial,
            seq![c],
            Option::<(nat, &'static str)>::None,
        ),
{
    let v = c as u32;
    vstd::utf8::char_is_scalar(c);
    vstd::utf8::char_u32_cast(c, v);
    let bytes = utf16_bytes(c, big_endian);
    let w = (v - 0x10000) as u32;
    let hi = (0xd800 + w / 0x400) as u16;
    let lo = (0xdc00 + w % 0x400) as u16;
    lemma_unit_roundtrip(hi, big_endian);
    lemma_unit_roundtrip(lo, big_endian);
    assert(surrogate_pair_value(hi, lo) == v);
    let b1 = bytes_of_unit(hi, big_endian);
    let b2 = bytes_of_unit(lo, big_endian);
    assert(bytes =~= seq![b1[0], b1[1], b2[0], b2[1]]);
    let none = Option::<(nat, &'static str)>::None;
    let e = Seq::<char>::empty();
    assert(decode_utf16_run(Utf16State::Initial, seq![b1[0]].drop_last(), big_endian) == (
        Utf16State::Initial,
        e,
        none,
    ));
    assert(seq![b1[0], b1[1]].drop_last() =~= seq![b1[0]]);
    assert(seq![b1[0], b1[1], b2[0]].drop_last() =~= seq![b1[0], b1[1]]);
    assert(bytes.drop_last() =~= seq![b1[0], b1[1], b2[0]]);
    assert(decode_utf16_run(Utf16State::Initial, seq![b1[0]], big_endian) == (
        Utf16State::LeadByte(b1[0]),
        e,
        none,
    ));
    assert(decode_utf16_run(Utf16State::Initial, seq![b1[0], b1[1]], big_endian) == (
        Utf16State::Surrogate(hi),
        e,
        none,
    ));
    assert(decode_utf16_run(Utf16State::Initial, seq![b1[0], b1[1], b2[0]], big_endian) == (
        Utf16State::SurrogateLeadByte(hi, b2[0]),
        e,
        none,
    ));
    assert(e + seq![c] =~= seq![c]);
}

/// Runs the UTF-16 state machine over `bytes`: the state reached, the characters
/// emitted, and the first error (the machine stops there).
pub open spec fn decode_utf16_run(s: Utf16State, bytes: Seq<u8>, big_endian: bool) -> (
    Utf16State,
    Seq<char>,
    Option<(nat, &'static str)>,
)
    decreases bytes.len(),
{
    if bytes.len() == 0 {
        (s, Seq::empty(), None)
    } else {
        let prev = decode_utf16_run(s, bytes.drop_last(), big_endian);
        if prev.2 is Some {
            prev
        } else {
            let st = utf16_step(prev.0, bytes.last(), big_endian);
            (st.0, prev.1 + st.1, st.2)
        }
    }
}

/// The UTF-16 encoding of a string in the given byte order.
pub open spec fn utf16_encode(s: Seq<char>, big_endian: bool) -> Seq<u8>
    decreases s.len(),
{
    if s.len() == 0 {
        Seq::empty()
    } else {
        utf16_bytes(s[0], big_endian) + utf16_encode(s.drop_first(), big_endian)
    }
}

/// The state machine over a concatenation, when the first part ends in the initial
/// state without an error.
proof fn lemma_utf16_run_concat(a: Seq<u8>, b: Seq<u8>, big_endian: bool)
    requires
        decode_utf16_run(Utf16State::Initial, a, big_endian).0 == Utf16State::Initial,
        decode_utf16_run(Utf16State::Initial, a, big_endian).2 is None,
    ensures
        ({
            let r1 = decode_utf16_run(Utf16State::Initial, a, big_endian);
            let r2 = decode_utf16_run(Utf16State::Initial, b, big_endian);
            decode_utf16_run(Utf16State::Initial, a + b, big_endian) == (r2.0, r1.1 + r2.1, r2.2)
        }),
    decreases b.len(),
{
    let r1 = decode_utf16_run(Utf16State::Initial, a, big_endian);
    if b.len() == 0 {
        assert(a + b =~= a);
        assert(r1.1 + Seq::<char>::empty() =~= r1.1);
    } else {
        assert((a + b).drop_last() =~= a + b.drop_last());
        assert((a + b).last() == b.last());
        lemma_utf16_run_concat(a, b.drop_last(), big_endian);
        let p2 = decode_utf16_run(Utf16State::Initial, b.drop_last(), big_endian);
        if p2.2 is None {
            let st = utf16_step(p2.0, b.last(), big_endian);
            assert(r1.1 + (p2.1 + st.1) =~= (r1.1 + p2.1) + st.1);
        }
    }
}

/// Decoding the UTF-16 encoding of any string gives the string back, in either byte order.
pub proof fn lemma_utf16_roundtrip(s: Seq<char>, big_endian: bool)
    ensures
        decode_utf16_run(Utf16State::Initial, utf16_encode(s, big_endian), big_endian) == (
            Utf16State::Initial,
            s,
            Option::<(nat, &'static str)>::None,
        ),
    decreases s.len(),
{
    if s.len() == 0 {
        assert(s =~= Seq::<char>::empty());
    } else {
        lemma_utf16_decode_char(s[0], big_endian);
        lemma_utf16_run_concat(
            utf16_bytes(s[0], big_endian),
            utf16_encode(s.drop_first(), big_endian),
            big_endian,
        );
        lemma_utf16_roundtrip(s.drop_first(), big_endian);
        assert(seq![s[0]] + s.drop_first() =~= s);
    }
}

/// The UTF-16LE decoder runs the UTF-16 state machine in little endian.
proof fn lemma_utf16le_run(st: Utf16State, bytes: Seq<u8>)
    ensures
        ({
            let r = crate::types::decode_run(UTF16LEDecoder { state: st }, bytes);
            let m = decode_utf16_run(st, bytes, false);
            &&& r.0 == UTF16LEDecoder { state: m.0 }
            &&& r.1 == m.1
            &&& (r.3 is None <==> m.2 is None)
        }),
    decreases bytes.len(),
{
    if bytes.len() > 0 {
        lemma_utf16le_run(st, bytes.drop_last());
    }
}

/// Encoding any string as UTF-16LE succeeds whatever the trap.
proof fn lemma_utf16le_encode_with_trap(e: UTF16LEEncoder, s: Seq<char>, trap: crate::types::EncoderTrap)
    ensures
        crate::types::encode_with_trap(e, s, trap) == (utf16_encode(s, false), Option::<&'static str>::None),
    decreases s.len(),
{
    if s.len() > 0 {
        lemma_utf16le_encode_with_trap(e, s.drop_first(), trap);
    }
}

/// What `UTF16LEEncoding` encodes, it decodes back to the same string, whatever the traps.
pub proof fn lemma_utf16le_encode_decode(
    s: Seq<char>,
    etrap: crate::types::EncoderTrap,
    dtrap: crate::types::DecoderTrap,
)
    ensures
        ({
            let enc = crate::types::encode_with_trap(UTF16LEEncoding.spec_raw_encoder(), s, etrap);
            &&& enc == (utf16_encode(s, false), Option::<&'static str>::None)
            &&& crate::types::decode_with_trap(UTF16LEEncoding.spec_raw_decoder(), enc.0, 0, dtrap)
                == (s, Option::<&'static str>::None)
        }),
{
    lemma_utf16le_encode_with_trap(UTF16LEEncoder, s, etrap);
    lemma_utf16_roundtrip(s, false);
    lemma_utf16le_run(Utf16State::Initial, utf16_encode(s, false));
    assert(utf16_encode(s, false).skip(0) =~= utf16_encode(s, false));
}

/// The UTF-16BE decoder runs the UTF-16 state machine in big endian.
proof fn lemma_utf16be_run(st: Utf16State, bytes: Seq<u8>)
    ensures
        ({
            let r = crate::types::decode_run(UTF16BEDecoder { state: st }, bytes);
            let m = decode_utf16_run(st, bytes, true);
            &&& r.0 == UTF16BEDecoder { state: m.0 }
            &&& r.1 == m.1
            &&& (r.3 is None <==> m.2 is None)
        }),
    decreases bytes.len(),
{
    if bytes.len() > 0 {
        lemma_utf16be_run(st, bytes.drop_last());
    }
}

/// Encoding any string as UTF-16BE succeeds whatever the trap.
proof fn lemma_utf16be_encode_with_trap(e: UTF16BEEncoder, s: Seq<char>, trap: crate::types::EncoderTrap)
    ensures
        crate::types::encode_with_trap(e, s, trap) == (utf16_encode(s, true), Option::<&'static str>::None),
    decreases s.len(),
{
    if s.len() > 0 {
        lemma_utf16be_encode_with_trap(e, s.drop_first(), trap);
    }
}

/// What `UTF16BEEncoding` encodes, it decodes back to the same string, whatever the traps.
pub proof fn lemma_utf16be_encode_decode(
    s: Seq<char>,
    etrap: crate::types::EncoderTrap,
    dtrap: crate::types::DecoderTrap,
)
    ensures
        ({
            let enc = crate::types::encode_with_trap(UTF16BEEncoding.spec_raw_encoder(), s, etrap);
            &&& enc == (utf16_encode(s, true), Option::<&'static str>::None)
            &&& crate::types::decode_with_trap(UTF16BEEncoding.spec_raw_decoder(), enc.0, 0, dtrap)
                == (s, Option::<&'static str>::None)
        }),
{
    lemma_utf16be_encode_with_trap(UTF16BEEncoder, s, etrap);
    lemma_utf16_roundtrip(s, true);
    lemma_utf16be_run(Utf16State::Initial, utf16_encode(s, true));
    assert(utf16_encode(s, true).skip(0) =~= utf16_encode(s, true));
}

} // verus!
