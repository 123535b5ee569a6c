//! UTF-8, the universal encoding.
//!
//! The decoder is a state machine in the manner of Bjoern Hoehrmann's
//! Flexible and Economical UTF-8 Decoder: it accepts exactly the shortest
//! encodings of Unicode scalar values, and it reports an invalid sequence as soon
//! as a byte cannot continue the sequence in progress. Such a byte is not a part
//! of the problem (the decoder backs up by one byte), while an invalid starting
//! byte is.

use vstd::prelude::*;
use vstd::utf8::*;
use crate::types::{
    feed_decoder, finish_decoder, ByteWriter, CodecError, DecodeStep, Encoding, RawDecoder,
    RawEncoder, StringWriter, INCOMPLETE_SEQUENCE, INVALID_SEQUENCE,
};
use crate::util::{char_from_u32, utf8_offset, StatefulDecoderHelper};

verus! {

broadcast use vstd::string::group_string_axioms;

/// UTF-8 (UCS Transformation Format, 8-bit).
///
/// This is a Unicode encoding compatible to ASCII (ISO/IEC 646:US)
/// and able to represent all Unicode codepoints uniquely and unambiguously.
/// It has a variable-length design,
/// where one codepoint may use 1 (up to U+007F), 2 (up to U+07FF), 3 (up to U+FFFF)
/// and 4 bytes (up to U+10FFFF) depending on its value.
#[derive(Clone, Copy)]
pub struct UTF8Encoding;

impl Encoding for UTF8Encoding {
    type RawEnc = UTF8Encoder;

    type RawDec = UTF8Decoder;

    open spec fn spec_name(&self) -> &'static str {
        "utf-8"
    }

    open spec fn spec_whatwg_name(&self) -> Option<&'static str> {
        Some("utf-8")
    }

    open spec fn spec_raw_encoder(&self) -> UTF8Encoder {
        UTF8Encoder
    }

    open spec fn spec_raw_decoder(&self) -> UTF8Decoder {
        UTF8Decoder { state: Utf8State::Initial }
    }

    fn name(&self) -> (r: &'static str) {
        "utf-8"
    }

    fn whatwg_name(&self) -> (r: Option<&'static str>) {
        Some("utf-8")
    }

    fn raw_encoder(&self) -> (r: UTF8Encoder) {
        UTF8Encoder::new()
    }

    fn raw_decoder(&self) -> (r: UTF8Decoder) {
        let d = UTF8Decoder::new();
        assert(d.wf() && d.spec_stable());
        d
    }
}

/// An encoder for UTF-8.
#[derive(Clone, Copy)]
pub struct UTF8Encoder;

impl UTF8Encoder {
    /// Creates a new encoder.
    pub fn new() -> (r: UTF8Encoder)
        ensures
            r == UTF8Encoder,
    {
        UTF8Encoder
    }

    /// Feeds a string to the encoder: its bytes are copied to the output as they are.
    pub fn raw_feed<W: ByteWriter>(&mut self, input: &str, output: &mut W) -> (r: (
        usize,
        Option<CodecError>,
    ))
        requires
            encode_utf8(input@).len() <= isize::MAX,
        ensures
            crate::types::encode_feed_post(
                *old(self),
                input@,
                *final(self),
                old(output).written(),
                final(output).written(),
                r,
            ),
            r.1 is None,
            final(output).written() == old(output).written() + encode_utf8(input@),
            r == (encode_utf8(input@).len() as usize, Option::<CodecError>::None),
    {
        proof {
            lemma_utf8_encode_run(*self, input@);
        }
        let bytes = input.as_bytes();
        output.write_bytes(bytes);
        (bytes.len(), None)
    }

    /// Finishes the encoder; UTF-8 never has pending state.
    pub fn raw_finish<W: ByteWriter>(&mut self, output: &mut W) -> (r: Option<CodecError>)
        ensures
            r is None,
            *final(self) == *old(self),
            final(output).written() == old(output).written(),
    {
        None
    }
}

/// Encoding with UTF-8 never fails, and gives the UTF-8 encoding of the input.
pub proof fn lemma_utf8_encode_run(e: UTF8Encoder, s: Seq<char>)
    ensures
        crate::types::encode_run(e, s) == (e, encode_utf8(s), Option::<int>::None),
    decreases s.len(),
{
    if s.len() > 0 {
        lemma_utf8_encode_run(e, s.drop_last());
        assert(s =~= s.drop_last() + seq![s.last()]);
        crate::util::lemma_encode_utf8_concat(s.drop_last(), seq![s.last()]);
        let one = seq![s.last()];
        assert(one.drop_first() =~= Seq::<char>::empty());
        assert(encode_utf8(one) =~= encode_scalar(s.last() as u32) + encode_utf8(one.drop_first()));
        assert(encode_utf8(one) =~= encode_scalar(s.last() as u32));
    } else {
        assert(encode_utf8(s) =~= Seq::<u8>::empty());
    }
}

impl RawEncoder for UTF8Encoder {
    open spec fn spec_encode_char(&self, c: char) -> Option<(Self, Seq<u8>)> {
        Some((*self, encode_scalar(c as u32)))
    }

    open spec fn spec_fresh(&self) -> Self {
        UTF8Encoder
    }

    open spec fn spec_ascii_compatible(&self) -> bool {
        true
    }

    open spec fn spec_total(&self) -> bool {
        true
    }

    open spec fn spec_encodes_ascii(&self) -> bool {
        true
    }

    proof fn lemma_encodes_ascii(&self, c: char) {
    }

    proof fn lemma_ascii_compatible_preserved(&self, c: char) {
    }

    proof fn lemma_ascii_char(&self, c: char) {
        let v = c as u32;
        if v < 0x80 {
            assert(leading_byte_width_1(v) == v) by (bit_vector)
                requires
                    v < 0x80,
            ;
        }
    }

    fn from_self(&self) -> (r: Self) {
        UTF8Encoder::new()
    }

    fn is_ascii_compatible(&self) -> (r: bool) {
        true
    }

    fn encode_char<W: ByteWriter>(&mut self, c: char, output: &mut W) -> (ok: bool) {
        proof {
            char_is_scalar(c);
        }
        let v = c as u32;
        if v <= 0x7f {
            output.write_byte((v & 0x7f) as u8);
        } else if v <= 0x7ff {
            output.write_byte(0xc0 | ((v >> 6) & 0x1f) as u8);
            output.write_byte(0x80 | (v & 0x3f) as u8);
        } else if v <= 0xffff {
            output.write_byte(0xe0 | ((v >> 12) & 0x0f) as u8);
            output.write_byte(0x80 | ((v >> 6) & 0x3f) as u8);
            output.write_byte(0x80 | (v & 0x3f) as u8);
        } else {
            output.write_byte(0xf0 | ((v >> 18) & 0x7) as u8);
            output.write_byte(0x80 | ((v >> 12) & 0x3f) as u8);
            output.write_byte(0x80 | ((v >> 6) & 0x3f) as u8);
            output.write_byte(0x80 | (v & 0x3f) as u8);
        }
        true
    }
}

/// Where the UTF-8 decoder stands within a sequence. `cp` holds the bits of the
/// code point read so far; each continuation byte appends six more.
#[derive(Clone, Copy, PartialEq, Eq, Structural)]
pub enum Utf8State {
    /// Between sequences.
    Initial,
    /// One continuation byte (80-BF) is missing.
    Need1(u32),
    /// Two continuation bytes (80-BF) are missing.
    Need2(u32),
    /// After E0: next is A0-BF (not overlong), then one more.
    NeedE0,
    /// After ED: next is 80-9F (not a surrogate), then one more.
    NeedED,
    /// After F0: next is 90-BF (not overlong), then two more.
    NeedF0,
    /// After F1-F3: three continuation bytes are missing.
    NeedF1F3(u32),
    /// After F4: next is 80-8F (not above U+10FFFF), then two more.
    NeedF4,
}

/// A decoder for UTF-8.
#[derive(Clone, Copy)]
pub struct UTF8Decoder {
    /// Where the decoder stands.
    pub state: Utf8State,
}

impl UTF8Decoder {
    /// Creates a new decoder.
    pub fn new() -> (r: UTF8Decoder)
        ensures
            r.state == Utf8State::Initial,
    {
        UTF8Decoder { state: Utf8State::Initial }
    }

    /// Feeds bytes to the decoder; see `RawDecoder`.
    pub fn raw_feed<W: StringWriter>(&mut self, input: &[u8], output: &mut W) -> (r: (
        usize,
        Option<CodecError>,
    ))
        requires
            old(self).wf(),
            input@.len() <= isize::MAX,
        ensures
            final(self).wf(),
            crate::types::decode_feed_post(
                *old(self),
                input@,
                *final(self),
                old(output).written(),
                final(output).written(),
                r,
            ),
    {
        feed_decoder(self, input, output)
    }

    /// Finishes the decoder: an error if the input ended inside a sequence.
    pub fn raw_finish<W: StringWriter>(&mut self, output: &mut W) -> (r: Option<CodecError>)
        requires
            old(self).wf(),
        ensures
            final(self).state == Utf8State::Initial,
            final(output).written() == old(output).written(),
            match old(self).state {
                Utf8State::Initial => r is None,
                _ => r matches Some(e) && e.upto == 0 && e.cause == INCOMPLETE_SEQUENCE,
            },
    {
        finish_decoder(self, output)
    }
}

/// Is `b` a continuation byte?
pub open spec fn is_cont(b: u8) -> bool {
    0x80 <= b <= 0xbf
}

/// The state reached from the initial state on the starting byte `b`, or `None`
/// for a byte that cannot start a sequence. ASCII bytes are handled separately.
pub open spec fn utf8_start(b: u8) -> Option<Utf8State> {
    if 0xc2 <= b <= 0xdf {
        Some(Utf8State::Need1((b - 0xc0) as u32))
    } else if b == 0xe0 {
        Some(Utf8State::NeedE0)
    } else if (0xe1 <= b <= 0xec) || b == 0xee || b == 0xef {
        Some(Utf8State::Need2((b - 0xe0) as u32))
    } else if b == 0xed {
        Some(Utf8State::NeedED)
    } else if b == 0xf0 {
        Some(Utf8State::NeedF0)
    } else if 0xf1 <= b <= 0xf3 {
        Some(Utf8State::NeedF1F3((b - 0xf0) as u32))
    } else if b == 0xf4 {
        Some(Utf8State::NeedF4)
    } else {
        None
    }
}

/// The state reached from a state inside a sequence on byte `b`: the next state
/// and the character completed, or `None` when `b` cannot continue the sequence.
pub open spec fn utf8_continue(s: Utf8State, b: u8) -> Option<(Utf8State, Option<char>)> {
    match s {
        Utf8State::Need1(cp) => if is_cont(b) {
            Some((Utf8State::Initial, Some((cp * 64 + (b - 0x80)) as u32 as char)))
        } else {
            None
        },
        Utf8State::Need2(cp) => if is_cont(b) {
            Some((Utf8State::Need1((cp * 64 + (b - 0x80)) as u32), None))
        } else {
            None
        },
        Utf8State::NeedE0 => if 0xa0 <= b <= 0xbf {
            Some((Utf8State::Need1((b - 0x80) as u32), None))
        } else {
            None
        },
        Utf8State::NeedED => if 0x80 <= b <= 0x9f {
            Some((Utf8State::Need1((0x340 + (b - 0x80)) as u32), None))
        } else {
            None
        },
        Utf8State::NeedF0 => if 0x90 <= b <= 0xbf {
            Some((Utf8State::Need2((b - 0x80) as u32), None))
        } else {
            None
        },
        Utf8State::NeedF1F3(cp) => if is_cont(b) {
            Some((Utf8State::Need2((cp * 64 + (b - 0x80)) as u32), None))
        } else {
            None
        },
        Utf8State::NeedF4 => if 0x80 <= b <= 0x8f {
            Some((Utf8State::Need2((0x100 + (b - 0x80)) as u32), None))
        } else {
            None
        },
        Utf8State::Initial => None,
    }
}

/// The bits collected in a state keep every completion a valid scalar value
/// that is encoded in the shortest form.
pub open spec fn utf8_state_wf(s: Utf8State) -> bool {
    match s {
        Utf8State::Need1(cp) => 2 <= cp <= 0x43ff && !(0x360 <= cp <= 0x37f),
        Utf8State::Need2(cp) => 1 <= cp <= 0x10f && cp != 0xd,
        Utf8State::NeedF1F3(cp) => 1 <= cp <= 3,
        _ => true,
    }
}

/// The number of bytes of the sequence in progress read so far.
pub open spec fn utf8_state_pending(s: Utf8State) -> nat {
    match s {
        Utf8State::Initial => 0,
        Utf8State::Need1(cp) => if cp <= 0x1f {
            1
        } else if cp <= 0x3ff {
            2
        } else {
            3
        },
        Utf8State::Need2(cp) => if cp <= 0xf {
            1
        } else {
            2
        },
        _ => 1,
    }
}

impl RawDecoder for UTF8Decoder {
    open spec fn wf(&self) -> bool {
        utf8_state_wf(self.state)
    }

    open spec fn spec_stable(&self) -> bool {
        self.state == Utf8State::Initial
    }

    open spec fn spec_pending(&self) -> nat {
        utf8_state_pending(self.state)
    }

    open spec fn spec_step(&self, b: u8) -> DecodeStep<Self> {
        match self.state {
            Utf8State::Initial => if b < 0x80 {
                (*self, seq![b as char], None)
            } else {
                match utf8_start(b) {
                    Some(next) => (UTF8Decoder { state: next }, Seq::empty(), None),
                    None => (*self, Seq::empty(), Some((0, INVALID_SEQUENCE))),
                }
            },
            s => match utf8_continue(s, b) {
                Some((next, Some(c))) => (UTF8Decoder { state: next }, seq![c], None),
                Some((next, None)) => (UTF8Decoder { state: next }, Seq::empty(), None),
                None => (
                    UTF8Decoder { state: Utf8State::Initial },
                    Seq::empty(),
                    Some((1, INVALID_SEQUENCE)),
                ),
            },
        }
    }

    open spec fn spec_finish_error(&self) -> Option<&'static str> {
        if self.state == Utf8State::Initial {
            None
        } else {
            Some(INCOMPLETE_SEQUENCE)
        }
    }

    open spec fn spec_fresh(&self) -> Self {
        UTF8Decoder { state: Utf8State::Initial }
    }

    open spec fn spec_ascii_compatible(&self) -> bool {
        true
    }

    proof fn lemma_step(&self, b: u8) {
    }

    proof fn lemma_fresh(&self) {
    }

    proof fn lemma_ascii_byte(&self, b: u8) {
    }

    fn from_self(&self) -> (r: Self) {
        UTF8Decoder::new()
    }

    fn is_ascii_compatible(&self) -> (r: bool) {
        true
    }

    fn is_stable(&self) -> (r: bool) {
        match self.state {
            Utf8State::Initial => true,
            _ => false,
        }
    }

    fn decode_byte<W: StringWriter>(
        &mut self,
        ctx: &mut StatefulDecoderHelper,
        b: u8,
        output: &mut W,
    ) {
        match self.state {
            Utf8State::Initial => {
                if b < 0x80 {
                    ctx.emit(output, b as char);
                } else if 0xc2 <= b && b <= 0xdf {
                    self.state = Utf8State::Need1((b - 0xc0) as u32);
                } else if b == 0xe0 {
                    self.state = Utf8State::NeedE0;
                } else if (0xe1 <= b && b <= 0xec) || b == 0xee || b == 0xef {
                    self.state = Utf8State::Need2((b - 0xe0) as u32);
                } else if b == 0xed {
                    self.state = Utf8State::NeedED;
                } else if b == 0xf0 {
                    self.state = Utf8State::NeedF0;
                } else if 0xf1 <= b && b <= 0xf3 {
                    self.state = Utf8State::NeedF1F3((b - 0xf0) as u32);
                } else if b == 0xf4 {
                    self.state = Utf8State::NeedF4;
                } else {
                    ctx.backup_and_err(0, INVALID_SEQUENCE);
                }
            },
            Utf8State::Need1(cp) => {
                if 0x80 <= b && b <= 0xbf {
                    let v = cp * 64 + (b - 0x80) as u32;
                    self.state = Utf8State::Initial;
                    match char_from_u32(v) {
                        Some(c) => {
                            proof {
                                char_u32_cast(c, v);
                            }
                            ctx.emit(output, c);
                        },
                        None => {},
                    }
                } else {
                    self.state = Utf8State::Initial;
                    ctx.backup_and_err(1, INVALID_SEQUENCE);
                }
            },
            Utf8State::Need2(cp) => {
                if 0x80 <= b && b <= 0xbf {
                    self.state = Utf8State::Need1(cp * 64 + (b - 0x80) as u32);
                } else {
                    self.state = Utf8State::Initial;
                    ctx.backup_and_err(1, INVALID_SEQUENCE);
                }
            },
            Utf8State::NeedE0 => {
                if 0xa0 <= b && b <= 0xbf {
                    self.state = Utf8State::Need1((b - 0x80) as u32);
                } else {
                    self.state = Utf8State::Initial;
                    ctx.backup_and_err(1, INVALID_SEQUENCE);
                }
            },
            Utf8State::NeedED => {
                if 0x80 <= b && b <= 0x9f {
                    self.state = Utf8State::Need1(0x340 + (b - 0x80) as u32);
                } else {
                    self.state = Utf8State::Initial;
                    ctx.backup_and_err(1, INVALID_SEQUENCE);
                }
            },
            Utf8State::NeedF0 => {
                if 0x90 <= b && b <= 0xbf {
                    self.state = Utf8State::Need2((b - 0x80) as u32);
                } else {
                    self.state = Utf8State::Initial;
                    ctx.backup_and_err(1, INVALID_SEQUENCE);
                }
            },
            Utf8State::NeedF1F3(cp) => {
                if 0x80 <= b && b <= 0xbf {
                    self.state = Utf8State::Need2(cp * 64 + (b - 0x80) as u32);
                } else {
                    self.state = Utf8State::Initial;
                    ctx.backup_and_err(1, INVALID_SEQUENCE);
                }
            },
            Utf8State::NeedF4 => {
                if 0x80 <= b && b <= 0x8f {
                    self.state = Utf8State::Need2(0x100 + (b - 0x80) as u32);
                } else {
                    self.state = Utf8State::Initial;
                    ctx.backup_and_err(1, INVALID_SEQUENCE);
                }
            },
        }
    }

    fn finish(&mut self) -> (r: Option<&'static str>) {
        let r = match self.state {
            Utf8State::Initial => None,
            _ => Some(INCOMPLETE_SEQUENCE),
        };
        self.state = Utf8State::Initial;
        r
    }
}

/// The bytes of a character with a two-byte encoding are a lead byte C2-DF and a
/// continuation byte, which the decoder combines back into the character.
proof fn lemma_width_2(v: u32)
    by (bit_vector)
    requires
        has_width_2_encoding(v),
    ensures
        0xc2 <= leading_byte_width_2(v) <= 0xdf,
        0x80 <= last_continuation_byte(v) <= 0xbf,
        ((leading_byte_width_2(v) - 0xc0) * 64 + (last_continuation_byte(v) - 0x80)) == v,
{
}

/// The bytes of a character with a three-byte encoding, as the decoder reads them.
proof fn lemma_width_3(v: u32)
    by (bit_vector)
    requires
        has_width_3_encoding(v),
    ensures
        ({
            let b1 = leading_byte_width_3(v);
            let b2 = second_last_continuation_byte(v);
            let b3 = last_continuation_byte(v);
            &&& 0xe0 <= b1 <= 0xef
            &&& 0x80 <= b2 <= 0xbf
            &&& 0x80 <= b3 <= 0xbf
            &&& b1 == 0xe0 ==> 0xa0 <= b2
            &&& b1 == 0xed ==> b2 <= 0x9f
            &&& ((b1 - 0xe0) * 64 + (b2 - 0x80)) * 64 + (b3 - 0x80) == v
        }),
{
}

/// The bytes of a character with a four-byte encoding, as the decoder reads them.
proof fn lemma_width_4(v: u32)
    by (bit_vector)
    requires
        has_width_4_encoding(v),
    ensures
        ({
            let b1 = leading_byte_width_4(v);
            let b2 = third_last_continuation_byte(v);
            let b3 = second_last_continuation_byte(v);
            let b4 = last_continuation_byte(v);
            &&& 0xf0 <= b1 <= 0xf4
            &&& 0x80 <= b2 <= 0xbf
            &&& 0x80 <= b3 <= 0xbf
            &&& 0x80 <= b4 <= 0xbf
            &&& b1 == 0xf0 ==> 0x90 <= b2
            &&& b1 == 0xf4 ==> b2 <= 0x8f
            &&& (((b1 - 0xf0) * 64 + (b2 - 0x80)) * 64 + (b3 - 0x80)) * 64 + (b4 - 0x80) == v
        }),
{
}

/// Decoding the UTF-8 encoding of one character from the initial state gives the
/// character back and ends in the initial state, with every byte processed.
pub proof fn lemma_utf8_decode_char(c: char)
    ensures
        ({
            let d = UTF8Decoder { state: Utf8State::Initial };
            let bytes = encode_scalar(c as u32);
            crate::types::decode_run(d, bytes) == (d, seq![c], bytes.len(), Option::<
                (int, &'static str),
            >::None)
        }),
{
    let d = UTF8Decoder { state: Utf8State::Initial };
    let v = c as u32;
    char_is_scalar(c);
    char_u32_cast(c, v);
    reveal_with_fuel(crate::types::decode_run, 5);
    let bytes = encode_scalar(v);
    if has_width_1_encoding(v) {
        assert(leading_byte_width_1(v) == v) by (bit_vector)
            requires
                has_width_1_encoding(v),
        ;
        assert(bytes.drop_last() =~= Seq::<u8>::empty());
        assert(Seq::<char>::empty() + seq![c] =~= seq![c]);
    } else if has_width_2_encoding(v) {
        lemma_width_2(v);
        assert(bytes.drop_last() =~= seq![bytes[0]]);
        assert(bytes.drop_last().drop_last() =~= Seq::<u8>::empty());
        assert(Seq::<char>::empty() + Seq::<char>::empty() + seq![c] =~= seq![c]);
    } else if has_width_3_encoding(v) {
        lemma_width_3(v);
        assert(bytes.drop_last() =~= seq![bytes[0], bytes[1]]);
        assert(bytes.drop_last().drop_last() =~= seq![bytes[0]]);
        assert(bytes.drop_last().drop_last().drop_last() =~= Seq::<u8>::empty());
        assert(Seq::<char>::empty() + Seq::<char>::empty() + Seq::<char>::empty() + seq![c]
            =~= seq![c]);
    } else {
        lemma_width_4(v);
        assert(bytes.drop_last() =~= seq![bytes[0], bytes[1], bytes[2]]);
        assert(bytes.drop_last().drop_last() =~= seq![bytes[0], bytes[1]]);
        assert(bytes.drop_last().drop_last().drop_last() =~= seq![bytes[0]]);
        assert(bytes.drop_last().drop_last().drop_last().drop_last() =~= Seq::<u8>::empty());
        assert(Seq::<char>::empty() + Seq::<char>::empty() + Seq::<char>::empty()
            + Seq::<char>::empty() + seq![c] =~= seq![c]);
    }
}

/// Decoding the UTF-8 encoding of any string gives the string back: no error, every
/// byte processed, and the decoder back in its initial state.
pub proof fn lemma_utf8_roundtrip(s: Seq<char>)
    ensures
        ({
            let d = UTF8Decoder { state: Utf8State::Initial };
            crate::types::decode_run(d, encode_utf8(s)) == (d, s, encode_utf8(s).len(), Option::<
                (int, &'static str),
            >::None)
        }),
    decreases s.len(),
{
    let d = UTF8Decoder { state: Utf8State::Initial };
    if s.len() == 0 {
        assert(encode_utf8(s) =~= Seq::<u8>::empty());
        assert(s =~= Seq::<char>::empty());
    } else {
        lemma_utf8_decode_char(s[0]);
        crate::types::lemma_decode_run_concat(
            d,
            encode_scalar(s[0] as u32),
            encode_utf8(s.drop_first()),
        );
        lemma_utf8_roundtrip(s.drop_first());
        assert(seq![s[0]] + s.drop_first() =~= s);
    }
}

/// Encoding any string as UTF-8 succeeds whatever the trap, and gives its UTF-8 encoding.
pub proof fn lemma_utf8_encode_with_trap(e: UTF8Encoder, s: Seq<char>, trap: crate::types::EncoderTrap)
    ensures
        crate::types::encode_with_trap(e, s, trap) == (encode_utf8(s), Option::<&'static str>::None),
    decreases s.len(),
{
    if s.len() > 0 {
        lemma_utf8_encode_with_trap(e, s.drop_first(), trap);
    } else {
        assert(encode_utf8(s) =~= Seq::<u8>::empty());
    }
}

/// What `UTF8Encoding` encodes, it decodes back to the same string, whatever the traps.
pub proof fn lemma_utf8_encode_decode(
    s: Seq<char>,
    etrap: crate::types::EncoderTrap,
    dtrap: crate::types::DecoderTrap,
)
    ensures
        ({
            let enc = crate::types::encode_with_trap(UTF8Encoding.spec_raw_encoder(), s, etrap);
            &&& enc == (encode_utf8(s), Option::<&'static str>::None)
            &&& crate::types::decode_with_trap(UTF8Encoding.spec_raw_decoder(), enc.0, 0, dtrap)
                == (s, Option::<&'static str>::None)
        }),
{
    lemma_utf8_encode_with_trap(UTF8Encoder, s, etrap);
    lemma_utf8_roundtrip(s);
    assert(encode_utf8(s).skip(0) =~= encode_utf8(s));
}

} // verus!
