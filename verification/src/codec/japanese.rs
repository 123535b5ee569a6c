//! Legacy Japanese encodings based on JIS X 0208 and JIS X 0212.

use vstd::prelude::*;
use crate::index::{jis0208_backward, jis0208_backward_remapped, jis0208_forward, jis0212_forward};
use crate::types::{
    decode_run, feed_decoder, lemma_decode_run_concat, feed_encoder, finish_decoder, ByteWriter, CodecError, DecodeStep, Encoding,
    RawDecoder, RawEncoder, StringWriter, INCOMPLETE_SEQUENCE, INVALID_SEQUENCE,
};
use crate::util::{emit_mapped, mapped_char, StatefulDecoderHelper};

verus! {

/// The JIS X 0208 pointer of a row and a cell byte, both in `base..base+94`,
/// or 0xffff when either is out of that range.
pub open spec fn jis_pointer(lead: u8, trail: u8, base: u8) -> u16 {
    if base <= lead < base + 94 && base <= trail < base + 94 {
        ((lead - base) * 94 + trail - base) as u16
    } else {
        0xffff
    }
}

/// The code point of a JIS X 0208 pointer, 0xffff for the pointer 0xffff.
pub open spec fn jis0208_code_point(ptr: u16) -> u32 {
    if ptr == 0xffff {
        0xffff
    } else {
        jis0208_forward(ptr)
    }
}

/// The code point of a JIS X 0212 pointer, 0xffff for the pointer 0xffff.
pub open spec fn jis0212_code_point(ptr: u16) -> u32 {
    if ptr == 0xffff {
        0xffff
    } else {
        jis0212_forward(ptr)
    }
}

/// Computes `jis_pointer`.
fn pointer_of(lead: u8, trail: u8, base: u8) -> (r: u16)
    requires
        base <= 0xa1,
    ensures
        r == jis_pointer(lead, trail, base),
{
    if base <= lead && (lead as u16) < (base as u16) + 94 && base <= trail && (trail as u16) < (
    base as u16) + 94 {
        ((lead - base) as u16) * 94 + ((trail - base) as u16)
    } else {
        0xffff
    }
}

/// Looks a JIS X 0208 pointer up.
fn map_0208(ptr: u16) -> (r: u32)
    ensures
        r == jis0208_code_point(ptr),
{
    if ptr == 0xffff {
        0xffff
    } else {
        encoding_index_japanese::jis0208::forward(ptr)
    }
}

/// Looks a JIS X 0212 pointer up.
fn map_0212(ptr: u16) -> (r: u32)
    ensures
        r == jis0212_code_point(ptr),
{
    if ptr == 0xffff {
        0xffff
    } else {
        encoding_index_japanese::jis0212::forward(ptr)
    }
}

/// EUC-JP.
///
/// This is a Japanese encoding created from three JIS character sets:
///
/// - JIS X 0201, which lower half is ISO/IEC 646:JP (US-ASCII with yen sign and overline)
///   and upper half contains legacy half-width Katakanas.
/// - JIS X 0208, a primary graphic character set (94x94).
/// - JIS X 0212, a supplementary graphic character set (94x94).
///
/// EUC-JP contains the lower half of JIS X 0201 in G0 (`[21-7E]`),
/// JIS X 0208 in G1 (`[A1-FE] [A1-FE]`),
/// the upper half of JIS X 0212 in G2 (`8E [A1-DF]`), and
/// JIS X 0212 in G3 (`8F [A1-FE] [A1-FE]`). The encoder does not use G3.
#[derive(Clone, Copy)]
pub struct EUCJPEncoding;

impl Encoding for EUCJPEncoding {
    type RawEnc = EUCJPEncoder;

    type RawDec = EUCJPDecoder;

    open spec fn spec_name(&self) -> &'static str {
        "euc-jp"
    }

    open spec fn spec_whatwg_name(&self) -> Option<&'static str> {
        Some("euc-jp")
    }

    open spec fn spec_raw_encoder(&self) -> EUCJPEncoder {
        EUCJPEncoder
    }

    open spec fn spec_raw_decoder(&self) -> EUCJPDecoder {
        EUCJPDecoder { state: EUCJPState::Initial }
    }

    fn name(&self) -> (r: &'static str) {
        "euc-jp"
    }

    fn whatwg_name(&self) -> (r: Option<&'static str>) {
        Some("euc-jp")
    }

    fn raw_encoder(&self) -> (r: EUCJPEncoder) {
        EUCJPEncoder::new()
    }

    fn raw_decoder(&self) -> (r: EUCJPDecoder) {
        let d = EUCJPDecoder::new();
        assert(d.wf() && d.spec_stable());
        d
    }
}

/// An encoder for EUC-JP with unused G3 character set.
#[derive(Clone, Copy)]
pub struct EUCJPEncoder;

/// The EUC-JP bytes of `c`, if it can be encoded.
pub open spec fn eucjp_bytes(c: char) -> Option<Seq<u8>> {
    let v = c as u32;
    if v <= 0x7f {
        Some(seq![v as u8])
    } else if v == 0xa5 {
        Some(seq![0x5cu8])
    } else if v == 0x203e {
        Some(seq![0x7eu8])
    } else if 0xff61 <= v <= 0xff9f {
        Some(seq![0x8eu8, (v - 0xff61 + 0xa1) as u8])
    } else {
        let ptr = jis0208_backward(v);
        if ptr == 0xffff {
            None
        } else {
            Some(seq![(ptr / 94 + 0xa1) as u8, (ptr % 94 + 0xa1) as u8])
        }
    }
}

impl EUCJPEncoder {
    /// Creates a new encoder.
    pub fn new() -> (r: EUCJPEncoder)
        ensures
            r == EUCJPEncoder,
    {
        EUCJPEncoder
    }

    /// Feeds a string to the encoder; see `RawEncoder`.
    pub fn raw_feed<W: ByteWriter>(&mut self, input: &str, output: &mut W) -> (r: (
        usize,
        Option<CodecError>,
    ))
        requires
            vstd::utf8::encode_utf8(input@).len() <= isize::MAX,
        ensures
            crate::types::encode_feed_post(
                *old(self),
                input@,
                *final(self),
                old(output).written(),
                final(output).written(),
                r,
            ),
    {
        feed_encoder(self, input, output)
    }

    /// Finishes the encoder; this encoder never has pending state.
    pub fn raw_finish<W: ByteWriter>(&mut self, output: &mut W) -> (r: Option<CodecError>)
        ensures
            r is None,
            *final(self) == *old(self),
            final(output).written() == old(output).written(),
    {
        None
    }
}

impl RawEncoder for EUCJPEncoder {
    open spec fn spec_encode_char(&self, c: char) -> Option<(Self, Seq<u8>)> {
        match eucjp_bytes(c) {
            Some(bytes) => Some((*self, bytes)),
            None => None,
        }
    }

    open spec fn spec_fresh(&self) -> Self {
        EUCJPEncoder
    }

    open spec fn spec_ascii_compatible(&self) -> bool {
        true
    }

    open spec fn spec_total(&self) -> bool {
        false
    }

    open spec fn spec_encodes_ascii(&self) -> bool {
        true
    }

    proof fn lemma_encodes_ascii(&self, c: char) {
    }

    proof fn lemma_ascii_compatible_preserved(&self, c: char) {
    }

    proof fn lemma_ascii_char(&self, c: char) {
    }

    fn from_self(&self) -> (r: Self) {
        EUCJPEncoder::new()
    }

    fn is_ascii_compatible(&self) -> (r: bool) {
        true
    }

    fn encode_char<W: ByteWriter>(&mut self, c: char, output: &mut W) -> (ok: bool) {
        let v = c as u32;
        if v <= 0x7f {
            output.write_byte(v as u8);
        } else if v == 0xa5 {
            output.write_byte(0x5c);
        } else if v == 0x203e {
            output.write_byte(0x7e);
        } else if 0xff61 <= v && v <= 0xff9f {
            output.write_byte(0x8e);
            output.write_byte((v - 0xff61 + 0xa1) as u8);
        } else {
            let ptr = encoding_index_japanese::jis0208::backward(v);
            if ptr == 0xffff {
                return false;
            }
            output.write_byte((ptr / 94 + 0xa1) as u8);
            output.write_byte((ptr % 94 + 0xa1) as u8);
        }
        assert(final(output).written() =~= old(output).written() + eucjp_bytes(c)->0);
        true
    }
}

/// Where the EUC-JP decoder stands.
#[derive(Clone, Copy, PartialEq, Eq, Structural)]
pub enum EUCJPState {
    /// Between characters.
    Initial,
    /// After 8E: a half-width katakana follows.
    Katakana,
    /// After 8F: a JIS X 0212 row byte follows.
    Lead0212,
    /// After a JIS X 0208 row byte.
    Trail0208(u8),
    /// After 8F and a JIS X 0212 row byte.
    Trail0212(u8),
}

/// Every character that the EUC-JP encoder writes with the JIS X 0208 index is written as the
/// row and cell bytes (A1-FE) of its pointer, which a fresh decoder reads back as that pointer,
/// emitting the character that the index gives it and nothing else.
pub proof fn lemma_eucjp_decodes_encoded_0208(c: char)
    requires
        (c as u32) > 0x7f,
        (c as u32) != 0xa5 && (c as u32) != 0x203e,
        !(0xff61 <= (c as u32) <= 0xff9f),
        jis0208_backward(c as u32) < 94 * 94,
    ensures
        ({
            let ptr = jis0208_backward(c as u32);
            let d = EUCJPDecoder { state: EUCJPState::Initial };
            eucjp_bytes(c) matches Some(bs) ==> {
                &&& bs.len() == 2 && is_gr94(bs[0]) && is_gr94(bs[1])
                &&& jis_pointer(bs[0], bs[1], 0xa1) == ptr
                &&& mapped_char(jis0208_forward(ptr)) matches Some(x) ==> decode_run(d, bs) == (
                    d,
                    seq![x],
                    2nat,
                    Option::<(int, &'static str)>::None,
                )
                &&& mapped_char(jis0208_forward(ptr)) is None ==> decode_run(d, bs).3 is Some
            }
        }),
{
    if let Some(bs) = eucjp_bytes(c) {
        assert(bs.drop_last() =~= seq![bs[0]]);
        assert(seq![bs[0]].drop_last() =~= Seq::<u8>::empty());
        reveal_with_fuel(decode_run, 3);
        if let Some(x) = mapped_char(jis0208_forward(jis0208_backward(c as u32))) {
            assert(Seq::<char>::empty() + Seq::<char>::empty() + seq![x] =~= seq![x]);
        }
    }
}

/// The half-width katakana U+FF61..U+FF9F are written by the EUC-JP encoder as 8E and a byte
/// A1-DF, which a fresh decoder reads back as the same character.
pub proof fn lemma_eucjp_katakana_roundtrip(c: char)
    requires
        0xff61 <= (c as u32) <= 0xff9f,
    ensures
        ({
            let d = EUCJPDecoder { state: EUCJPState::Initial };
            eucjp_bytes(c) matches Some(bs) && decode_run(d, bs) == (
                d,
                seq![c],
                2nat,
                Option::<(int, &'static str)>::None,
            )
        }),
{
    let bs = eucjp_bytes(c)->0;
    assert(bs.drop_last() =~= seq![bs[0]]);
    assert(seq![bs[0]].drop_last() =~= Seq::<u8>::empty());
    reveal_with_fuel(decode_run, 3);
    vstd::utf8::char_is_scalar(c);
    let x = (0xff61 + bs[1] - 0xa1) as u32 as char;
    assert(x == c);
    assert(Seq::<char>::empty() + Seq::<char>::empty() + seq![c] =~= seq![c]);
}

/// A decoder for EUC-JP with JIS X 0212 in G3.
#[derive(Clone, Copy)]
pub struct EUCJPDecoder {
    /// Where the decoder stands.
    pub state: EUCJPState,
}

impl EUCJPDecoder {
    /// Creates a new decoder.
    pub fn new() -> (r: EUCJPDecoder)
        ensures
            r.state == EUCJPState::Initial,
    {
        EUCJPDecoder { state: EUCJPState::Initial }
    }

    /// Feeds bytes to the decoder; see `RawDecoder`.
    pub fn raw_feed<W: StringWriter>(&mut self, input: &[u8], output: &mut W) -> (r: (
        usize,
        Option<CodecError>,
    ))
        requires
            input@.len() <= isize::MAX,
        ensures
            crate::types::decode_feed_post(
                *old(self),
                input@,
                *final(self),
                old(output).written(),
                final(output).written(),
                r,
            ),
    {
        feed_decoder(self, input, output)
    }

    /// Finishes the decoder: an error if the input ended inside a character.
    pub fn raw_finish<W: StringWriter>(&mut self, output: &mut W) -> (r: Option<CodecError>)
        ensures
            final(self).state == EUCJPState::Initial,
            final(output).written() == old(output).written(),
            match old(self).state {
                EUCJPState::Initial => r is None,
                _ => r matches Some(e) && e.upto == 0 && e.cause == INCOMPLETE_SEQUENCE,
            },
    {
        finish_decoder(self, output)
    }
}

/// Is `b` in A1..FE?
pub open spec fn is_gr94(b: u8) -> bool {
    0xa1 <= b <= 0xfe
}

impl RawDecoder for EUCJPDecoder {
    open spec fn wf(&self) -> bool {
        true
    }

    open spec fn spec_stable(&self) -> bool {
        self.state == EUCJPState::Initial
    }

    open spec fn spec_pending(&self) -> nat {
        match self.state {
            EUCJPState::Initial => 0,
            EUCJPState::Trail0212(_) => 2,
            _ => 1,
        }
    }

    open spec fn spec_step(&self, b: u8) -> DecodeStep<Self> {
        let init = EUCJPDecoder { state: EUCJPState::Initial };
        match self.state {
            EUCJPState::Initial => if b < 0x80 {
                (init, seq![b as char], None)
            } else if b == 0x8e {
                (EUCJPDecoder { state: EUCJPState::Katakana }, Seq::empty(), None)
            } else if b == 0x8f {
                (EUCJPDecoder { state: EUCJPState::Lead0212 }, Seq::empty(), None)
            } else if is_gr94(b) {
                (EUCJPDecoder { state: EUCJPState::Trail0208(b) }, Seq::empty(), None)
            } else {
                (init, Seq::empty(), Some((0, INVALID_SEQUENCE)))
            },
            EUCJPState::Katakana => if 0xa1 <= b <= 0xdf {
                (init, seq![(0xff61 + b - 0xa1) as u32 as char], None)
            } else if is_gr94(b) {
                (init, Seq::empty(), Some((0, INVALID_SEQUENCE)))
            } else {
                (init, Seq::empty(), Some((1, INVALID_SEQUENCE)))
            },
            EUCJPState::Lead0212 => if is_gr94(b) {
                (EUCJPDecoder { state: EUCJPState::Trail0212(b) }, Seq::empty(), None)
            } else {
                (init, Seq::empty(), Some((1, INVALID_SEQUENCE)))
            },
            EUCJPState::Trail0208(lead) => if is_gr94(b) {
                match mapped_char(jis0208_code_point(jis_pointer(lead, b, 0xa1))) {
                    Some(c) => (init, seq![c], None),
                    None => (init, Seq::empty(), Some((0, INVALID_SEQUENCE))),
                }
            } else {
                (init, Seq::empty(), Some((1, INVALID_SEQUENCE)))
            },
            EUCJPState::Trail0212(lead) => if is_gr94(b) {
                match mapped_char(jis0212_code_point(jis_pointer(lead, b, 0xa1))) {
                    Some(c) => (init, seq![c], None),
                    None => (init, Seq::empty(), Some((0, INVALID_SEQUENCE))),
                }
            } else {
                (init, Seq::empty(), Some((1, INVALID_SEQUENCE)))
            },
        }
    }

    open spec fn spec_finish_error(&self) -> Option<&'static str> {
        if self.state == EUCJPState::Initial {
            None
        } else {
            Some(INCOMPLETE_SEQUENCE)
        }
    }

    open spec fn spec_fresh(&self) -> Self {
        EUCJPDecoder { state: EUCJPState::Initial }
    }

    open spec fn spec_ascii_compatible(&self) -> bool {
        true
    }

    proof fn lemma_step(&self, b: u8) {
    }

    proof fn lemma_fresh(&self) {
    }

    proof fn lemma_ascii_byte(&self, b: u8) {
    }

    fn from_self(&self) -> (r: Self) {
        EUCJPDecoder::new()
    }

    fn is_ascii_compatible(&self) -> (r: bool) {
        true
    }

    fn is_stable(&self) -> (r: bool) {
        match self.state {
            EUCJPState::Initial => true,
            _ => false,
        }
    }

    fn decode_byte<W: StringWriter>(
        &mut self,
        ctx: &mut StatefulDecoderHelper,
        b: u8,
        output: &mut W,
    ) {
        match self.state {
            EUCJPState::Initial => {
                if b < 0x80 {
                    ctx.emit(output, b as char);
                } else if b == 0x8e {
                    self.state = EUCJPState::Katakana;
                } else if b == 0x8f {
                    self.state = EUCJPState::Lead0212;
                } else if 0xa1 <= b && b <= 0xfe {
                    self.state = EUCJPState::Trail0208(b);
                } else {
                    ctx.backup_and_err(0, INVALID_SEQUENCE);
                }
            },
            EUCJPState::Katakana => {
                self.state = EUCJPState::Initial;
                if 0xa1 <= b && b <= 0xdf {
                    emit_mapped(ctx, 0xff61 + (b - 0xa1) as u32, 0, output);
                } else if 0xa1 <= b && b <= 0xfe {
                    ctx.backup_and_err(0, INVALID_SEQUENCE);
                } else {
                    ctx.backup_and_err(1, INVALID_SEQUENCE);
                }
            },
            EUCJPState::Lead0212 => {
                if 0xa1 <= b && b <= 0xfe {
                    self.state = EUCJPState::Trail0212(b);
                } else {
                    self.state = EUCJPState::Initial;
                    ctx.backup_and_err(1, INVALID_SEQUENCE);
                }
            },
            EUCJPState::Trail0208(lead) => {
                self.state = EUCJPState::Initial;
                if 0xa1 <= b && b <= 0xfe {
                    emit_mapped(ctx, map_0208(pointer_of(lead, b, 0xa1)), 0, output);
                } else {
                    ctx.backup_and_err(1, INVALID_SEQUENCE);
                }
            },
            EUCJPState::Trail0212(lead) => {
                self.state = EUCJPState::Initial;
                if 0xa1 <= b && b <= 0xfe {
                    emit_mapped(ctx, map_0212(pointer_of(lead, b, 0xa1)), 0, output);
                } else {
                    ctx.backup_and_err(1, INVALID_SEQUENCE);
                }
            },
        }
    }

    fn finish(&mut self) -> (r: Option<&'static str>) {
        let r = match self.state {
            EUCJPState::Initial => None,
            _ => Some(INCOMPLETE_SEQUENCE),
        };
        self.state = EUCJPState::Initial;
        r
    }
}

/// Windows code page 932, i.e. Shift_JIS with IBM/NEC extensions.
///
/// This is a Japanese encoding for JIS X 0208
/// compatible to the original assignments of JIS X 0201 (`[21-7E A1-DF]`).
/// The 94 by 94 region of JIS X 0208 is sliced, or rather "shifted" into
/// the odd half (odd row number) and even half (even row number),
/// and merged into the 188 by 47 region mapped to `[81-9F E0-EF] [40-7E 80-FC]`.
/// The remaining area, `[80 A0 F0-FF] [40-7E 80-FC]`, has been subjected to
/// numerous extensions incompatible to each other.
/// This particular implementation uses IBM/NEC extensions
/// which assigns more characters to `[F0-FC 80-FC]` and also to the Private Use Area (PUA).
/// It requires some cares to handle
/// since the second byte of JIS X 0208 can have its MSB unset.
#[derive(Clone, Copy)]
pub struct Windows31JEncoding;

impl Encoding for Windows31JEncoding {
    type RawEnc = Windows31JEncoder;

    type RawDec = Windows31JDecoder;

    open spec fn spec_name(&self) -> &'static str {
        "windows-31j"
    }

    open spec fn spec_whatwg_name(&self) -> Option<&'static str> {
        Some("shift_jis")
    }

    open spec fn spec_raw_encoder(&self) -> Windows31JEncoder {
        Windows31JEncoder
    }

    open spec fn spec_raw_decoder(&self) -> Windows31JDecoder {
        Windows31JDecoder { lead: None }
    }

    fn name(&self) -> (r: &'static str) {
        "windows-31j"
    }

    fn whatwg_name(&self) -> (r: Option<&'static str>) {
        Some("shift_jis")
    }

    fn raw_encoder(&self) -> (r: Windows31JEncoder) {
        Windows31JEncoder::new()
    }

    fn raw_decoder(&self) -> (r: Windows31JDecoder) {
        let d = Windows31JDecoder::new();
        assert(d.wf() && d.spec_stable());
        d
    }
}

/// An encoder for Shift_JIS with IBM/NEC extensions.
#[derive(Clone, Copy)]
pub struct Windows31JEncoder;

/// The two bytes for the Shift_JIS pointer `ptr`.
pub open spec fn shift_jis_bytes(ptr: u16) -> Seq<u8> {
    let lead = ptr / 188;
    let leadoffset: u16 = if lead < 0x1f {
        0x81
    } else {
        0xc1
    };
    let trail = ptr % 188;
    let trailoffset: u16 = if trail < 0x3f {
        0x40
    } else {
        0x41
    };
    seq![(lead + leadoffset) as u8, (trail + trailoffset) as u8]
}

/// The Windows-31J bytes of `c`, if it can be encoded. Characters up to U+0080 are
/// written as the byte of the same value.
pub open spec fn windows31j_bytes(c: char) -> Option<Seq<u8>> {
    let v = c as u32;
    if v <= 0x80 {
        Some(seq![v as u8])
    } else if v == 0xa5 {
        Some(seq![0x5cu8])
    } else if v == 0x203e {
        Some(seq![0x7eu8])
    } else if 0xff61 <= v <= 0xff9f {
        Some(seq![(v - 0xff61 + 0xa1) as u8])
    } else {
        let ptr = jis0208_backward_remapped(v);
        if ptr == 0xffff {
            None
        } else {
            Some(shift_jis_bytes(ptr))
        }
    }
}

impl Windows31JEncoder {
    /// Creates a new encoder.
    pub fn new() -> (r: Windows31JEncoder)
        ensures
            r == Windows31JEncoder,
    {
        Windows31JEncoder
    }

    /// Feeds a string to the encoder; see `RawEncoder`.
    pub fn raw_feed<W: ByteWriter>(&mut self, input: &str, output: &mut W) -> (r: (
        usize,
        Option<CodecError>,
    ))
        requires
            vstd::utf8::encode_utf8(input@).len() <= isize::MAX,
        ensures
            crate::types::encode_feed_post(
                *old(self),
                input@,
                *final(self),
                old(output).written(),
                final(output).written(),
                r,
            ),
    {
        feed_encoder(self, input, output)
    }

    /// Finishes the encoder; this encoder never has pending state.
    pub fn raw_finish<W: ByteWriter>(&mut self, output: &mut W) -> (r: Option<CodecError>)
        ensures
            r is None,
            *final(self) == *old(self),
            final(output).written() == old(output).written(),
    {
        None
    }
}

impl RawEncoder for Windows31JEncoder {
    open spec fn spec_encode_char(&self, c: char) -> Option<(Self, Seq<u8>)> {
        match windows31j_bytes(c) {
            Some(bytes) => Some((*self, bytes)),
            None => None,
        }
    }

    open spec fn spec_fresh(&self) -> Self {
        Windows31JEncoder
    }

    open spec fn spec_ascii_compatible(&self) -> bool {
        true
    }

    open spec fn spec_total(&self) -> bool {
        false
    }

    open spec fn spec_encodes_ascii(&self) -> bool {
        true
    }

    proof fn lemma_encodes_ascii(&self, c: char) {
    }

    proof fn lemma_ascii_compatible_preserved(&self, c: char) {
    }

    proof fn lemma_ascii_char(&self, c: char) {
    }

    fn from_self(&self) -> (r: Self) {
        Windows31JEncoder::new()
    }

    fn is_ascii_compatible(&self) -> (r: bool) {
        true
    }

    fn encode_char<W: ByteWriter>(&mut self, c: char, output: &mut W) -> (ok: bool) {
        let v = c as u32;
        if v <= 0x80 {
            output.write_byte(v as u8);
        } else if v == 0xa5 {
            output.write_byte(0x5c);
        } else if v == 0x203e {
            output.write_byte(0x7e);
        } else if 0xff61 <= v && v <= 0xff9f {
            output.write_byte((v - 0xff61 + 0xa1) as u8);
        } else {
            let ptr = encoding_index_japanese::jis0208::backward_remapped(v);
            if ptr == 0xffff {
                return false;
            }
            let lead = ptr / 188;
            let leadoffset: u16 = if lead < 0x1f {
                0x81
            } else {
                0xc1
            };
            let trail = ptr % 188;
            let trailoffset: u16 = if trail < 0x3f {
                0x40
            } else {
                0x41
            };
            output.write_byte((lead + leadoffset) as u8);
            output.write_byte((trail + trailoffset) as u8);
        }
        assert(final(output).written() =~= old(output).written() + windows31j_bytes(c)->0);
        true
    }
}

/// The code point of a Windows-31J lead and trail byte, or 0xffff where there is none.
/// Lead bytes F0-F9 map to the Private Use Area (user-defined characters).
pub open spec fn windows31j_code_point(lead: u8, trail: u8) -> u32 {
    let leadoffset: u8 = if lead < 0xa0 {
        0x81
    } else {
        0xc1
    };
    let trailoffset: u8 = if trail < 0x7f {
        0x40
    } else {
        0x41
    };
    let trail_ok = (0x40 <= trail <= 0x7e) || (0x80 <= trail <= 0xfc);
    if 0xf0 <= lead <= 0xf9 && trail_ok {
        (0xe000 + (lead - 0xf0) * 188 + trail - trailoffset) as u32
    } else if ((0x81 <= lead <= 0x9f) || (0xe0 <= lead <= 0xfc)) && trail_ok {
        jis0208_forward(((lead - leadoffset) * 188 + trail - trailoffset) as u16)
    } else {
        0xffff
    }
}

/// Maps a lead and a trail byte to a code point, 0xffff where there is none.
pub fn map_two_0208_bytes(lead: u8, trail: u8) -> (r: u32)
    ensures
        r == windows31j_code_point(lead, trail),
{
    let leadoffset: u8 = if lead < 0xa0 {
        0x81
    } else {
        0xc1
    };
    let trailoffset: u8 = if trail < 0x7f {
        0x40
    } else {
        0x41
    };
    let trail_ok = (0x40 <= trail && trail <= 0x7e) || (0x80 <= trail && trail <= 0xfc);
    if 0xf0 <= lead && lead <= 0xf9 && trail_ok {
        0xe000 + ((lead - 0xf0) as u32) * 188 + (trail as u32) - (trailoffset as u32)
    } else if ((0x81 <= lead && lead <= 0x9f) || (0xe0 <= lead && lead <= 0xfc)) && trail_ok {
        let index = ((lead - leadoffset) as u16) * 188 + (trail as u16) - (trailoffset as u16);
        encoding_index_japanese::jis0208::forward(index)
    } else {
        0xffff
    }
}

/// The code point that Windows-31J gives the Shift_JIS pointer `ptr`: the user-defined area
/// (lead bytes F0-F9) is the Private Use Area from U+E000 on, everything else is looked up in
/// JIS X 0208.
pub open spec fn windows31j_pointer_code_point(ptr: u16) -> u32 {
    if 8836 <= ptr < 10716 {
        (0xe000 + ptr - 8836) as u32
    } else {
        jis0208_forward(ptr)
    }
}

/// Decoding reverses encoding: for every Shift_JIS pointer (lead bytes 81-9F and E0-FC, trail
/// bytes 40-7E and 80-FC), the two bytes that the encoder writes for it are read back by a
/// fresh decoder as that pointer, which emits the character it stands for and nothing else.
pub proof fn lemma_windows31j_decodes_encoded_pointer(ptr: u16)
    requires
        ptr < 60 * 188,
    ensures
        ({
            let bs = shift_jis_bytes(ptr);
            let d = Windows31JDecoder { lead: None };
            &&& bs.len() == 2
            &&& (0x81 <= bs[0] <= 0x9f || 0xe0 <= bs[0] <= 0xfc)
            &&& (0x40 <= bs[1] <= 0x7e || 0x80 <= bs[1] <= 0xfc)
            &&& windows31j_code_point(bs[0], bs[1]) == windows31j_pointer_code_point(ptr)
            &&& mapped_char(windows31j_pointer_code_point(ptr)) matches Some(c) ==> decode_run(
                d,
                bs,
            ) == (d, seq![c], 2nat, Option::<(int, &'static str)>::None)
            &&& mapped_char(windows31j_pointer_code_point(ptr)) is None ==> decode_run(d, bs).3 is Some
        }),
{
    let bs = shift_jis_bytes(ptr);
    let d = Windows31JDecoder { lead: None };
    assert(bs.drop_last() =~= seq![bs[0]]);
    assert(seq![bs[0]].drop_last() =~= Seq::<u8>::empty());
    reveal_with_fuel(decode_run, 3);
    if let Some(c) = mapped_char(windows31j_pointer_code_point(ptr)) {
        assert(Seq::<char>::empty() + Seq::<char>::empty() + seq![c] =~= seq![c]);
    }
}

/// A decoder for Shift_JIS with IBM/NEC extensions.
#[derive(Clone, Copy)]
pub struct Windows31JDecoder {
    /// The lead byte read, if any.
    pub lead: Option<u8>,
}

impl Windows31JDecoder {
    /// Creates a new decoder.
    pub fn new() -> (r: Windows31JDecoder)
        ensures
            r.lead is None,
    {
        Windows31JDecoder { lead: None }
    }

    /// Feeds bytes to the decoder; see `RawDecoder`.
    pub fn raw_feed<W: StringWriter>(&mut self, input: &[u8], output: &mut W) -> (r: (
        usize,
        Option<CodecError>,
    ))
        requires
            input@.len() <= isize::MAX,
        ensures
            crate::types::decode_feed_post(
                *old(self),
                input@,
                *final(self),
                old(output).written(),
                final(output).written(),
                r,
            ),
    {
        feed_decoder(self, input, output)
    }

    /// Finishes the decoder: an error if a lead byte is left without its trail byte.
    pub fn raw_finish<W: StringWriter>(&mut self, output: &mut W) -> (r: Option<CodecError>)
        ensures
            final(self).lead is None,
            final(output).written() == old(output).written(),
            match old(self).lead {
                None => r is None,
                Some(_) => r matches Some(e) && e.upto == 0 && e.cause == INCOMPLETE_SEQUENCE,
            },
    {
        finish_decoder(self, output)
    }
}

impl RawDecoder for Windows31JDecoder {
    open spec fn wf(&self) -> bool {
        true
    }

    open spec fn spec_stable(&self) -> bool {
        self.lead is None
    }

    open spec fn spec_pending(&self) -> nat {
        if self.lead is None {
            0
        } else {
            1
        }
    }

    open spec fn spec_step(&self, b: u8) -> DecodeStep<Self> {
        match self.lead {
            None => if b < 0x80 {
                (*self, seq![b as char], None)
            } else if 0xa1 <= b <= 0xdf {
                (*self, seq![(0xff61 + b - 0xa1) as u32 as char], None)
            } else if (0x81 <= b <= 0x9f) || (0xe0 <= b <= 0xfc) {
                (Windows31JDecoder { lead: Some(b) }, Seq::empty(), None)
            } else {
                (*self, Seq::empty(), Some((0, INVALID_SEQUENCE)))
            },
            Some(lead) => match mapped_char(windows31j_code_point(lead, b)) {
                Some(c) => (Windows31JDecoder { lead: None }, seq![c], None),
                None => (Windows31JDecoder { lead: None }, Seq::empty(), Some((1, INVALID_SEQUENCE))),
            },
        }
    }

    open spec fn spec_finish_error(&self) -> Option<&'static str> {
        if self.lead is None {
            None
        } else {
            Some(INCOMPLETE_SEQUENCE)
        }
    }

    open spec fn spec_fresh(&self) -> Self {
        Windows31JDecoder { lead: None }
    }

    open spec fn spec_ascii_compatible(&self) -> bool {
        true
    }

    proof fn lemma_step(&self, b: u8) {
    }

    proof fn lemma_fresh(&self) {
    }

    proof fn lemma_ascii_byte(&self, b: u8) {
    }

    fn from_self(&self) -> (r: Self) {
        Windows31JDecoder::new()
    }

    fn is_ascii_compatible(&self) -> (r: bool) {
        true
    }

    fn is_stable(&self) -> (r: bool) {
        self.lead.is_none()
    }

    fn decode_byte<W: StringWriter>(
        &mut self,
        ctx: &mut StatefulDecoderHelper,
        b: u8,
        output: &mut W,
    ) {
        match self.lead {
            None => {
                if b < 0x80 {
                    ctx.emit(output, b as char);
                } else if 0xa1 <= b && b <= 0xdf {
                    emit_mapped(ctx, 0xff61 + (b - 0xa1) as u32, 0, output);
                } else if (0x81 <= b && b <= 0x9f) || (0xe0 <= b && b <= 0xfc) {
                    self.lead = Some(b);
                } else {
                    ctx.backup_and_err(0, INVALID_SEQUENCE);
                }
            },
            Some(lead) => {
                self.lead = None;
                emit_mapped(ctx, map_two_0208_bytes(lead, b), 1, output);
            },
        }
    }

    fn finish(&mut self) -> (r: Option<&'static str>) {
        let r = if self.lead.is_none() {
            None
        } else {
            Some(INCOMPLETE_SEQUENCE)
        };
        self.lead = None;
        r
    }
}

/// Shift_JIS, as JIS X 0208 alone: without the IBM/NEC extensions and the user-defined
/// area of Windows code page 932.
///
/// Any byte outside `[00-7F A1-DF]` starts a two-byte sequence; the decoder waits for the
/// second byte even if the first is obviously invalid.
#[derive(Clone, Copy)]
pub struct ShiftJISEncoding;

impl Encoding for ShiftJISEncoding {
    type RawEnc = ShiftJISEncoder;

    type RawDec = ShiftJISDecoder;

    open spec fn spec_name(&self) -> &'static str {
        "shift-jis"
    }

    open spec fn spec_whatwg_name(&self) -> Option<&'static str> {
        None
    }

    open spec fn spec_raw_encoder(&self) -> ShiftJISEncoder {
        ShiftJISEncoder
    }

    open spec fn spec_raw_decoder(&self) -> ShiftJISDecoder {
        ShiftJISDecoder { lead: None }
    }

    fn name(&self) -> (r: &'static str) {
        "shift-jis"
    }

    fn whatwg_name(&self) -> (r: Option<&'static str>) {
        None
    }

    fn raw_encoder(&self) -> (r: ShiftJISEncoder) {
        ShiftJISEncoder::new()
    }

    fn raw_decoder(&self) -> (r: ShiftJISDecoder) {
        let d = ShiftJISDecoder::new();
        assert(d.wf() && d.spec_stable());
        d
    }
}

/// An encoder for Shift_JIS.
#[derive(Clone, Copy)]
pub struct ShiftJISEncoder;

/// The Shift_JIS bytes of `c`, if it can be encoded. Characters up to U+0080 are
/// written as the byte of the same value.
pub open spec fn shiftjis_bytes(c: char) -> Option<Seq<u8>> {
    let v = c as u32;
    if v <= 0x80 {
        Some(seq![v as u8])
    } else if v == 0xa5 {
        Some(seq![0x5cu8])
    } else if v == 0x203e {
        Some(seq![0x7eu8])
    } else if 0xff61 <= v <= 0xff9f {
        Some(seq![(v - 0xff61 + 0xa1) as u8])
    } else {
        let ptr = jis0208_backward(v);
        if ptr == 0xffff {
            None
        } else {
            Some(shift_jis_bytes(ptr))
        }
    }
}

impl ShiftJISEncoder {
    /// Creates a new encoder.
    pub fn new() -> (r: ShiftJISEncoder)
        ensures
            r == ShiftJISEncoder,
    {
        ShiftJISEncoder
    }

    /// Feeds a string to the encoder; see `RawEncoder`.
    pub fn raw_feed<W: ByteWriter>(&mut self, input: &str, output: &mut W) -> (r: (
        usize,
        Option<CodecError>,
    ))
        requires
            vstd::utf8::encode_utf8(input@).len() <= isize::MAX,
        ensures
            crate::types::encode_feed_post(
                *old(self),
                input@,
                *final(self),
                old(output).written(),
                final(output).written(),
                r,
            ),
    {
        feed_encoder(self, input, output)
    }

    /// Finishes the encoder; this encoder never has pending state.
    pub fn raw_finish<W: ByteWriter>(&mut self, output: &mut W) -> (r: Option<CodecError>)
        ensures
            r is None,
            *final(self) == *old(self),
            final(output).written() == old(output).written(),
    {
        None
    }
}

impl RawEncoder for ShiftJISEncoder {
    open spec fn spec_encode_char(&self, c: char) -> Option<(Self, Seq<u8>)> {
        match shiftjis_bytes(c) {
            Some(bytes) => Some((*self, bytes)),
            None => None,
        }
    }

    open spec fn spec_fresh(&self) -> Self {
        ShiftJISEncoder
    }

    open spec fn spec_ascii_compatible(&self) -> bool {
        true
    }

    open spec fn spec_total(&self) -> bool {
        false
    }

    open spec fn spec_encodes_ascii(&self) -> bool {
        true
    }

    proof fn lemma_encodes_ascii(&self, c: char) {
    }

    proof fn lemma_ascii_compatible_preserved(&self, c: char) {
    }

    proof fn lemma_ascii_char(&self, c: char) {
    }

    fn from_self(&self) -> (r: Self) {
        ShiftJISEncoder::new()
    }

    fn is_ascii_compatible(&self) -> (r: bool) {
        true
    }

    fn encode_char<W: ByteWriter>(&mut self, c: char, output: &mut W) -> (ok: bool) {
        let v = c as u32;
        if v <= 0x80 {
            output.write_byte(v as u8);
        } else if v == 0xa5 {
            output.write_byte(0x5c);
        } else if v == 0x203e {
            output.write_byte(0x7e);
        } else if 0xff61 <= v && v <= 0xff9f {
            output.write_byte((v - 0xff61 + 0xa1) as u8);
        } else {
            let ptr = encoding_index_japanese::jis0208::backward(v);
            if ptr == 0xffff {
                return false;
            }
            let lead = ptr / 188;
            let leadoffset: u16 = if lead < 0x1f {
                0x81
            } else {
                0xc1
            };
            let trail = ptr % 188;
            let trailoffset: u16 = if trail < 0x3f {
                0x40
            } else {
                0x41
            };
            output.write_byte((lead + leadoffset) as u8);
            output.write_byte((trail + trailoffset) as u8);
        }
        assert(final(output).written() =~= old(output).written() + shiftjis_bytes(c)->0);
        true
    }
}

/// The code point of a Shift_JIS lead and trail byte, or 0xffff where there is none.
pub open spec fn shiftjis_code_point(lead: u8, trail: u8) -> u32 {
    let leadoffset: u8 = if lead < 0xa0 {
        0x81
    } else {
        0xc1
    };
    let trailoffset: u8 = if trail < 0x7f {
        0x40
    } else {
        0x41
    };
    if ((0x81 <= lead <= 0x9f) || (0xe0 <= lead <= 0xfc)) && ((0x40 <= trail <= 0x7e) || (0x80
        <= trail <= 0xfc)) {
        jis0208_forward(((lead - leadoffset) * 188 + trail - trailoffset) as u16)
    } else {
        0xffff
    }
}

/// Maps a Shift_JIS lead and trail byte to a code point, 0xffff where there is none.
pub fn map_shift_jis_bytes(lead: u8, trail: u8) -> (r: u32)
    ensures
        r == shiftjis_code_point(lead, trail),
{
    let leadoffset: u8 = if lead < 0xa0 {
        0x81
    } else {
        0xc1
    };
    let trailoffset: u8 = if trail < 0x7f {
        0x40
    } else {
        0x41
    };
    if ((0x81 <= lead && lead <= 0x9f) || (0xe0 <= lead && lead <= 0xfc)) && ((0x40 <= trail
        && trail <= 0x7e) || (0x80 <= trail && trail <= 0xfc)) {
        let index = ((lead - leadoffset) as u16) * 188 + (trail as u16) - (trailoffset as u16);
        encoding_index_japanese::jis0208::forward(index)
    } else {
        0xffff
    }
}

/// A decoder for Shift_JIS.
#[derive(Clone, Copy)]
pub struct ShiftJISDecoder {
    /// The lead byte read, if any.
    pub lead: Option<u8>,
}

impl ShiftJISDecoder {
    /// Creates a new decoder.
    pub fn new() -> (r: ShiftJISDecoder)
        ensures
            r.lead is None,
    {
        ShiftJISDecoder { lead: None }
    }

    /// Feeds bytes to the decoder; see `RawDecoder`.
    pub fn raw_feed<W: StringWriter>(&mut self, input: &[u8], output: &mut W) -> (r: (
        usize,
        Option<CodecError>,
    ))
        requires
            input@.len() <= isize::MAX,
        ensures
            crate::types::decode_feed_post(
                *old(self),
                input@,
                *final(self),
                old(output).written(),
                final(output).written(),
                r,
            ),
    {
        feed_decoder(self, input, output)
    }

    /// Finishes the decoder: an error if a lead byte is left without its trail byte.
    pub fn raw_finish<W: StringWriter>(&mut self, output: &mut W) -> (r: Option<CodecError>)
        ensures
            final(self).lead is None,
            final(output).written() == old(output).written(),
            match old(self).lead {
                None => r is None,
                Some(_) => r matches Some(e) && e.upto == 0 && e.cause == INCOMPLETE_SEQUENCE,
            },
    {
        finish_decoder(self, output)
    }
}

impl RawDecoder for ShiftJISDecoder {
    open spec fn wf(&self) -> bool {
        true
    }

    open spec fn spec_stable(&self) -> bool {
        self.lead is None
    }

    open spec fn spec_pending(&self) -> nat {
        if self.lead is None {
            0
        } else {
            1
        }
    }

    open spec fn spec_step(&self, b: u8) -> DecodeStep<Self> {
        match self.lead {
            None => if b < 0x80 {
                (*self, seq![b as char], None)
            } else if 0xa1 <= b <= 0xdf {
                (*self, seq![(0xff61 + b - 0xa1) as u32 as char], None)
            } else {
                (ShiftJISDecoder { lead: Some(b) }, Seq::empty(), None)
            },
            Some(lead) => match mapped_char(shiftjis_code_point(lead, b)) {
                Some(c) => (ShiftJISDecoder { lead: None }, seq![c], None),
                None => (
                    ShiftJISDecoder { lead: None },
                    Seq::empty(),
                    Some(
                        (
                            if b < 0x80 {
                                1
                            } else {
                                0
                            },
                            INVALID_SEQUENCE,
                        ),
                    ),
                ),
            },
        }
    }

    open spec fn spec_finish_error(&self) -> Option<&'static str> {
        if self.lead is None {
            None
        } else {
            Some(INCOMPLETE_SEQUENCE)
        }
    }

    open spec fn spec_fresh(&self) -> Self {
        ShiftJISDecoder { lead: None }
    }

    open spec fn spec_ascii_compatible(&self) -> bool {
        true
    }

    proof fn lemma_step(&self, b: u8) {
    }

    proof fn lemma_fresh(&self) {
    }

    proof fn lemma_ascii_byte(&self, b: u8) {
    }

    fn from_self(&self) -> (r: Self) {
        ShiftJISDecoder::new()
    }

    fn is_ascii_compatible(&self) -> (r: bool) {
        true
    }

    fn is_stable(&self) -> (r: bool) {
        self.lead.is_none()
    }

    fn decode_byte<W: StringWriter>(
        &mut self,
        ctx: &mut StatefulDecoderHelper,
        b: u8,
        output: &mut W,
    ) {
        match self.lead {
            None => {
                if b < 0x80 {
                    ctx.emit(output, b as char);
                } else if 0xa1 <= b && b <= 0xdf {
                    emit_mapped(ctx, 0xff61 + (b - 0xa1) as u32, 0, output);
                } else {
                    self.lead = Some(b);
                }
            },
            Some(lead) => {
                self.lead = None;
                let backup: usize = if b < 0x80 {
                    1
                } else {
                    0
                };
                emit_mapped(ctx, map_shift_jis_bytes(lead, b), backup, output);
            },
        }
    }

    fn finish(&mut self) -> (r: Option<&'static str>) {
        let r = if self.lead.is_none() {
            None
        } else {
            Some(INCOMPLETE_SEQUENCE)
        };
        self.lead = None;
        r
    }
}

/// ISO-2022-JP.
///
/// This version of ISO-2022-JP does not correspond to any standardized repertoire of character sets
/// due to the widespread implementation differences. The following character sets are supported:
///
/// - JIS X 0201-1976 roman (`ESC ( J` or `ESC ( B`; the latter is originally allocated to ASCII
///   but willfully violated)
/// - JIS X 0201-1976 kana (`ESC ( I`)
/// - JIS X 0208-1983 (`ESC $ B` or `ESC $ @`; the latter is originally allocated to JIS X 0208-1978
///   but willfully violated)
/// - JIS X 0212-1990 (`ESC $ ( D`, decoding only)
#[derive(Clone, Copy)]
pub struct ISO2022JPEncoding;

impl Encoding for ISO2022JPEncoding {
    type RawEnc = ISO2022JPEncoder;

    type RawDec = ISO2022JPDecoder;

    open spec fn spec_name(&self) -> &'static str {
        "iso-2022-jp"
    }

    open spec fn spec_whatwg_name(&self) -> Option<&'static str> {
        Some("iso-2022-jp")
    }

    open spec fn spec_raw_encoder(&self) -> ISO2022JPEncoder {
        ISO2022JPEncoder { st: ISO2022JPState::ASCII }
    }

    open spec fn spec_raw_decoder(&self) -> ISO2022JPDecoder {
        ISO2022JPDecoder { state: ISO2022JPDecoderState::ASCII }
    }

    fn name(&self) -> (r: &'static str) {
        "iso-2022-jp"
    }

    fn whatwg_name(&self) -> (r: Option<&'static str>) {
        Some("iso-2022-jp")
    }

    fn raw_encoder(&self) -> (r: ISO2022JPEncoder) {
        ISO2022JPEncoder::new()
    }

    fn raw_decoder(&self) -> (r: ISO2022JPDecoder) {
        let d = ISO2022JPDecoder::new();
        assert(d.wf() && d.spec_stable());
        d
    }
}

/// The character set an ISO-2022-JP encoder has switched to.
#[derive(Clone, Copy, PartialEq, Eq, Structural)]
pub enum ISO2022JPState {
    /// U+0000..007F, U+00A5, U+203E
    ASCII,
    /// JIS X 0201: U+FF61..FF9F
    Katakana,
    /// JIS X 0208
    Lead,
}

/// An encoder for ISO-2022-JP without JIS X 0212/0213 support.
#[derive(Clone, Copy)]
pub struct ISO2022JPEncoder {
    /// The character set in use.
    pub st: ISO2022JPState,
}

/// The escape sequence switching to `target` from `current`, empty when they agree.
pub open spec fn iso2022jp_switch(current: ISO2022JPState, target: ISO2022JPState) -> Seq<u8> {
    if current == target {
        Seq::empty()
    } else {
        match target {
            ISO2022JPState::ASCII => seq![0x1bu8, 0x28, 0x42],
            ISO2022JPState::Katakana => seq![0x1bu8, 0x28, 0x49],
            ISO2022JPState::Lead => seq![0x1bu8, 0x24, 0x42],
        }
    }
}

/// The character set and the bytes within it for `c`, if it can be encoded.
pub open spec fn iso2022jp_target(c: char) -> Option<(ISO2022JPState, Seq<u8>)> {
    let v = c as u32;
    if v <= 0x7f {
        Some((ISO2022JPState::ASCII, seq![v as u8]))
    } else if v == 0xa5 {
        Some((ISO2022JPState::ASCII, seq![0x5cu8]))
    } else if v == 0x203e {
        Some((ISO2022JPState::ASCII, seq![0x7eu8]))
    } else if 0xff61 <= v <= 0xff9f {
        Some((ISO2022JPState::Katakana, seq![(v - 0xff61 + 0x21) as u8]))
    } else {
        let ptr = jis0208_backward(v);
        if ptr == 0xffff {
            None
        } else {
            Some((ISO2022JPState::Lead, seq![(ptr / 94 + 0x21) as u8, (ptr % 94 + 0x21) as u8]))
        }
    }
}

impl ISO2022JPEncoder {
    /// Creates a new encoder, in the ASCII character set.
    pub fn new() -> (r: ISO2022JPEncoder)
        ensures
            r.st == ISO2022JPState::ASCII,
    {
        ISO2022JPEncoder { st: ISO2022JPState::ASCII }
    }

    /// Feeds a string to the encoder; see `RawEncoder`. On an unrepresentable
    /// character the character set in use is kept.
    pub fn raw_feed<W: ByteWriter>(&mut self, input: &str, output: &mut W) -> (r: (
        usize,
        Option<CodecError>,
    ))
        requires
            vstd::utf8::encode_utf8(input@).len() <= isize::MAX,
        ensures
            crate::types::encode_feed_post(
                *old(self),
                input@,
                *final(self),
                old(output).written(),
                final(output).written(),
                r,
            ),
    {
        feed_encoder(self, input, output)
    }

    /// Finishes the encoder. It writes nothing: the character set in use stays.
    pub fn raw_finish<W: ByteWriter>(&mut self, output: &mut W) -> (r: Option<CodecError>)
        ensures
            r is None,
            *final(self) == *old(self),
            final(output).written() == old(output).written(),
    {
        None
    }

    /// Writes the escape sequence switching to `target`, if needed.
    fn ensure<W: ByteWriter>(&mut self, target: ISO2022JPState, output: &mut W)
        ensures
            final(self).st == target,
            final(output).written() == old(output).written() + iso2022jp_switch(old(self).st, target),
    {
        let same = match (self.st, target) {
            (ISO2022JPState::ASCII, ISO2022JPState::ASCII) => true,
            (ISO2022JPState::Katakana, ISO2022JPState::Katakana) => true,
            (ISO2022JPState::Lead, ISO2022JPState::Lead) => true,
            _ => false,
        };
        if !same {
            match target {
                ISO2022JPState::ASCII => {
                    output.write_byte(0x1b);
                    output.write_byte(0x28);
                    output.write_byte(0x42);
                },
                ISO2022JPState::Katakana => {
                    output.write_byte(0x1b);
                    output.write_byte(0x28);
                    output.write_byte(0x49);
                },
                ISO2022JPState::Lead => {
                    output.write_byte(0x1b);
                    output.write_byte(0x24);
                    output.write_byte(0x42);
                },
            }
            self.st = target;
        }
        assert(final(output).written() =~= old(output).written() + iso2022jp_switch(old(self).st, target));
    }
}

impl RawEncoder for ISO2022JPEncoder {
    open spec fn spec_encode_char(&self, c: char) -> Option<(Self, Seq<u8>)> {
        match iso2022jp_target(c) {
            Some((target, bytes)) => Some(
                (ISO2022JPEncoder { st: target }, iso2022jp_switch(self.st, target) + bytes),
            ),
            None => None,
        }
    }

    open spec fn spec_fresh(&self) -> Self {
        ISO2022JPEncoder { st: ISO2022JPState::ASCII }
    }

    open spec fn spec_ascii_compatible(&self) -> bool {
        false
    }

    open spec fn spec_total(&self) -> bool {
        false
    }

    open spec fn spec_encodes_ascii(&self) -> bool {
        true
    }

    proof fn lemma_encodes_ascii(&self, c: char) {
    }

    proof fn lemma_ascii_compatible_preserved(&self, c: char) {
    }

    proof fn lemma_ascii_char(&self, c: char) {
    }

    fn from_self(&self) -> (r: Self) {
        ISO2022JPEncoder::new()
    }

    fn is_ascii_compatible(&self) -> (r: bool) {
        false
    }

    fn encode_char<W: ByteWriter>(&mut self, c: char, output: &mut W) -> (ok: bool) {
        let v = c as u32;
        if v <= 0x7f {
            self.ensure(ISO2022JPState::ASCII, output);
            output.write_byte(v as u8);
        } else if v == 0xa5 {
            self.ensure(ISO2022JPState::ASCII, output);
            output.write_byte(0x5c);
        } else if v == 0x203e {
            self.ensure(ISO2022JPState::ASCII, output);
            output.write_byte(0x7e);
        } else if 0xff61 <= v && v <= 0xff9f {
            self.ensure(ISO2022JPState::Katakana, output);
            output.write_byte((v - 0xff61 + 0x21) as u8);
        } else {
            let ptr = encoding_index_japanese::jis0208::backward(v);
            if ptr == 0xffff {
                return false;
            }
            self.ensure(ISO2022JPState::Lead, output);
            output.write_byte((ptr / 94 + 0x21) as u8);
            output.write_byte((ptr % 94 + 0x21) as u8);
        }
        assert(final(output).written() =~= old(output).written() + old(self).spec_encode_char(c).unwrap().1);
        true
    }
}

/// Where the ISO-2022-JP decoder stands. The first four states are checkpoints:
/// the bytes read up to them are processed.
#[derive(Clone, Copy, PartialEq, Eq, Structural)]
pub enum ISO2022JPDecoderState {
    /// ASCII (or JIS X 0201 roman).
    ASCII,
    /// JIS X 0208, expecting a row byte.
    Lead0208,
    /// JIS X 0212, expecting a row byte.
    Lead0212,
    /// JIS X 0201 kana.
    Katakana,
    /// After ESC.
    EscapeStart,
    /// After ESC $.
    EscapeMiddle24,
    /// After ESC (.
    EscapeMiddle28,
    /// After ESC $ (.
    EscapeFinal,
    /// After a JIS X 0208 row byte.
    Trail0208(u8),
    /// After a JIS X 0212 row byte.
    Trail0212(u8),
}

/// A decoder for ISO-2022-JP with JIS X 0212 support.
#[derive(Clone, Copy)]
pub struct ISO2022JPDecoder {
    /// Where the decoder stands.
    pub state: ISO2022JPDecoderState,
}

impl ISO2022JPDecoder {
    /// Creates a new decoder, in the ASCII character set.
    pub fn new() -> (r: ISO2022JPDecoder)
        ensures
            r.state == ISO2022JPDecoderState::ASCII,
    {
        ISO2022JPDecoder { state: ISO2022JPDecoderState::ASCII }
    }

    /// Feeds bytes to the decoder; see `RawDecoder`.
    pub fn raw_feed<W: StringWriter>(&mut self, input: &[u8], output: &mut W) -> (r: (
        usize,
        Option<CodecError>,
    ))
        requires
            input@.len() <= isize::MAX,
        ensures
            crate::types::decode_feed_post(
                *old(self),
                input@,
                *final(self),
                old(output).written(),
                final(output).written(),
                r,
            ),
    {
        feed_decoder(self, input, output)
    }

    /// Finishes the decoder: an error if the input ended inside an escape sequence
    /// or a two-byte character. The decoder returns to ASCII.
    pub fn raw_finish<W: StringWriter>(&mut self, output: &mut W) -> (r: Option<CodecError>)
        ensures
            final(self).state == ISO2022JPDecoderState::ASCII,
            final(output).written() == old(output).written(),
            match old(self).spec_finish_error() {
                None => r is None,
                Some(cause) => r matches Some(e) && e.upto == 0 && e.cause == cause,
            },
    {
        finish_decoder(self, output)
    }
}

/// Is the state a checkpoint?
pub open spec fn iso2022jp_checkpoint(s: ISO2022JPDecoderState) -> bool {
    match s {
        ISO2022JPDecoderState::ASCII => true,
        ISO2022JPDecoderState::Lead0208 => true,
        ISO2022JPDecoderState::Lead0212 => true,
        ISO2022JPDecoderState::Katakana => true,
        _ => false,
    }
}

/// The effect of byte `b` in state `s`.
pub open spec fn iso2022jp_step(s: ISO2022JPDecoderState, b: u8) -> (
    ISO2022JPDecoderState,
    Seq<char>,
    Option<(nat, &'static str)>,
) {
    let ascii = ISO2022JPDecoderState::ASCII;
    match s {
        ISO2022JPDecoderState::ASCII => if b == 0x1b {
            (ISO2022JPDecoderState::EscapeStart, Seq::empty(), None)
        } else if b <= 0x7f {
            (ascii, seq![b as char], None)
        } else {
            (ascii, Seq::empty(), Some((0, INVALID_SEQUENCE)))
        },
        ISO2022JPDecoderState::Lead0208 => if b == 0x0a {
            (ascii, seq!['\n'], None)
        } else if b == 0x1b {
            (ISO2022JPDecoderState::EscapeStart, Seq::empty(), None)
        } else {
            (ISO2022JPDecoderState::Trail0208(b), Seq::empty(), None)
        },
        ISO2022JPDecoderState::Lead0212 => if b == 0x0a {
            (ascii, seq!['\n'], None)
        } else if b == 0x1b {
            (ISO2022JPDecoderState::EscapeStart, Seq::empty(), None)
        } else {
            (ISO2022JPDecoderState::Trail0212(b), Seq::empty(), None)
        },
        ISO2022JPDecoderState::Katakana => if b == 0x1b {
            (ISO2022JPDecoderState::EscapeStart, Seq::empty(), None)
        } else if 0x21 <= b <= 0x5f {
            (s, seq![(0xff61 + b - 0x21) as u32 as char], None)
        } else {
            (s, Seq::empty(), Some((0, INVALID_SEQUENCE)))
        },
        ISO2022JPDecoderState::EscapeStart => if b == 0x24 {
            (ISO2022JPDecoderState::EscapeMiddle24, Seq::empty(), None)
        } else if b == 0x28 {
            (ISO2022JPDecoderState::EscapeMiddle28, Seq::empty(), None)
        } else {
            (ascii, Seq::empty(), Some((1, INVALID_SEQUENCE)))
        },
        ISO2022JPDecoderState::EscapeMiddle24 => if b == 0x40 || b == 0x42 {
            (ISO2022JPDecoderState::Lead0208, Seq::empty(), None)
        } else if b == 0x28 {
            (ISO2022JPDecoderState::EscapeFinal, Seq::empty(), None)
        } else {
            (ascii, Seq::empty(), Some((2, INVALID_SEQUENCE)))
        },
        ISO2022JPDecoderState::EscapeMiddle28 => if b == 0x42 || b == 0x4a {
            (ascii, Seq::empty(), None)
        } else if b == 0x49 {
            (ISO2022JPDecoderState::Katakana, Seq::empty(), None)
        } else {
            (ascii, Seq::empty(), Some((2, INVALID_SEQUENCE)))
        },
        ISO2022JPDecoderState::EscapeFinal => if b == 0x44 {
            (ISO2022JPDecoderState::Lead0212, Seq::empty(), None)
        } else {
            (ascii, Seq::empty(), Some((3, INVALID_SEQUENCE)))
        },
        ISO2022JPDecoderState::Trail0208(lead) => match mapped_char(
            jis0208_code_point(jis_pointer(lead, b, 0x21)),
        ) {
            Some(c) => (ISO2022JPDecoderState::Lead0208, seq![c], None),
            None => (ISO2022JPDecoderState::Lead0208, Seq::empty(), Some((0, INVALID_SEQUENCE))),
        },
        ISO2022JPDecoderState::Trail0212(lead) => match mapped_char(
            jis0212_code_point(jis_pointer(lead, b, 0x21)),
        ) {
            Some(c) => (ISO2022JPDecoderState::Lead0212, seq![c], None),
            None => (ISO2022JPDecoderState::Lead0212, Seq::empty(), Some((0, INVALID_SEQUENCE))),
        },
    }
}

impl RawDecoder for ISO2022JPDecoder {
    open spec fn wf(&self) -> bool {
        true
    }

    open spec fn spec_stable(&self) -> bool {
        iso2022jp_checkpoint(self.state)
    }

    open spec fn spec_pending(&self) -> nat {
        match self.state {
            ISO2022JPDecoderState::EscapeStart => 1,
            ISO2022JPDecoderState::EscapeMiddle24 => 2,
            ISO2022JPDecoderState::EscapeMiddle28 => 2,
            ISO2022JPDecoderState::EscapeFinal => 3,
            ISO2022JPDecoderState::Trail0208(_) => 1,
            ISO2022JPDecoderState::Trail0212(_) => 1,
            _ => 0,
        }
    }

    open spec fn spec_step(&self, b: u8) -> DecodeStep<Self> {
        let st = iso2022jp_step(self.state, b);
        (ISO2022JPDecoder { state: st.0 }, st.1, st.2)
    }

    open spec fn spec_finish_error(&self) -> Option<&'static str> {
        if iso2022jp_checkpoint(self.state) {
            None
        } else {
            Some(INCOMPLETE_SEQUENCE)
        }
    }

    open spec fn spec_fresh(&self) -> Self {
        ISO2022JPDecoder { state: ISO2022JPDecoderState::ASCII }
    }

    open spec fn spec_ascii_compatible(&self) -> bool {
        false
    }

    proof fn lemma_step(&self, b: u8) {
    }

    proof fn lemma_fresh(&self) {
    }

    proof fn lemma_ascii_byte(&self, b: u8) {
    }

    fn from_self(&self) -> (r: Self) {
        ISO2022JPDecoder::new()
    }

    fn is_ascii_compatible(&self) -> (r: bool) {
        false
    }

    fn is_stable(&self) -> (r: bool) {
        match self.state {
            ISO2022JPDecoderState::ASCII => true,
            ISO2022JPDecoderState::Lead0208 => true,
            ISO2022JPDecoderState::Lead0212 => true,
            ISO2022JPDecoderState::Katakana => true,
            _ => false,
        }
    }

    fn decode_byte<W: StringWriter>(
        &mut self,
        ctx: &mut StatefulDecoderHelper,
        b: u8,
        output: &mut W,
    ) {
        match self.state {
            ISO2022JPDecoderState::ASCII => {
                if b == 0x1b {
                    self.state = ISO2022JPDecoderState::EscapeStart;
                } else if b <= 0x7f {
                    ctx.emit(output, b as char);
                } else {
                    ctx.backup_and_err(0, INVALID_SEQUENCE);
                }
            },
            ISO2022JPDecoderState::Lead0208 => {
                if b == 0x0a {
                    self.state = ISO2022JPDecoderState::ASCII;
                    ctx.emit(output, '\n');
                } else if b == 0x1b {
                    self.state = ISO2022JPDecoderState::EscapeStart;
                } else {
                    self.state = ISO2022JPDecoderState::Trail0208(b);
                }
            },
            ISO2022JPDecoderState::Lead0212 => {
                if b == 0x0a {
                    self.state = ISO2022JPDecoderState::ASCII;
                    ctx.emit(output, '\n');
                } else if b == 0x1b {
                    self.state = ISO2022JPDecoderState::EscapeStart;
                } else {
                    self.state = ISO2022JPDecoderState::Trail0212(b);
                }
            },
            ISO2022JPDecoderState::Katakana => {
                if b == 0x1b {
                    self.state = ISO2022JPDecoderState::EscapeStart;
                } else if 0x21 <= b && b <= 0x5f {
                    emit_mapped(ctx, 0xff61 + (b - 0x21) as u32, 0, output);
                } else {
                    ctx.backup_and_err(0, INVALID_SEQUENCE);
                }
            },
            ISO2022JPDecoderState::EscapeStart => {
                if b == 0x24 {
                    self.state = ISO2022JPDecoderState::EscapeMiddle24;
                } else if b == 0x28 {
                    self.state = ISO2022JPDecoderState::EscapeMiddle28;
                } else {
                    self.state = ISO2022JPDecoderState::ASCII;
                    ctx.backup_and_err(1, INVALID_SEQUENCE);
                }
            },
            ISO2022JPDecoderState::EscapeMiddle24 => {
                if b == 0x40 || b == 0x42 {
                    self.state = ISO2022JPDecoderState::Lead0208;
                } else if b == 0x28 {
                    self.state = ISO2022JPDecoderState::EscapeFinal;
                } else {
                    self.state = ISO2022JPDecoderState::ASCII;
                    ctx.backup_and_err(2, INVALID_SEQUENCE);
                }
            },
            ISO2022JPDecoderState::EscapeMiddle28 => {
                if b == 0x42 || b == 0x4a {
                    self.state = ISO2022JPDecoderState::ASCII;
                } else if b == 0x49 {
                    self.state = ISO2022JPDecoderState::Katakana;
                } else {
                    self.state = ISO2022JPDecoderState::ASCII;
                    ctx.backup_and_err(2, INVALID_SEQUENCE);
                }
            },
            ISO2022JPDecoderState::EscapeFinal => {
                if b == 0x44 {
                    self.state = ISO2022JPDecoderState::Lead0212;
                } else {
                    self.state = ISO2022JPDecoderState::ASCII;
                    ctx.backup_and_err(3, INVALID_SEQUENCE);
                }
            },
            ISO2022JPDecoderState::Trail0208(lead) => {
                self.state = ISO2022JPDecoderState::Lead0208;
                emit_mapped(ctx, map_0208(pointer_of(lead, b, 0x21)), 0, output);
            },
            ISO2022JPDecoderState::Trail0212(lead) => {
                self.state = ISO2022JPDecoderState::Lead0212;
                emit_mapped(ctx, map_0212(pointer_of(lead, b, 0x21)), 0, output);
            },
        }
    }

    fn finish(&mut self) -> (r: Option<&'static str>) {
        let r = if self.is_stable() {
            None
        } else {
            Some(INCOMPLETE_SEQUENCE)
        };
        self.state = ISO2022JPDecoderState::ASCII;
        r
    }
}

/// Every character that the encoder writes with the JIS X 0208 index is written as the two
/// bytes of its Shift_JIS pointer, which a decoder reads back as that pointer.
pub proof fn lemma_windows31j_encodes_pointer(c: char)
    requires
        (c as u32) > 0x80,
        (c as u32) != 0xa5 && (c as u32) != 0x203e,
        !(0xff61 <= (c as u32) <= 0xff9f),
        jis0208_backward_remapped(c as u32) < 60 * 188,
    ensures
        windows31j_bytes(c) matches Some(bs) ==> bs == shift_jis_bytes(jis0208_backward_remapped(c as u32))
            && windows31j_code_point(bs[0], bs[1]) == windows31j_pointer_code_point(
            jis0208_backward_remapped(c as u32),
        ),
{
    lemma_windows31j_decodes_encoded_pointer(jis0208_backward_remapped(c as u32));
}

/// Decoding reverses encoding for Shift_JIS: for every Shift_JIS pointer (lead bytes 81-9F and
/// E0-FC, trail bytes 40-7E and 80-FC), the two bytes that the encoder writes for it are read
/// back by a fresh decoder as that pointer, which emits the character that JIS X 0208 gives it
/// and nothing else.
pub proof fn lemma_shiftjis_decodes_encoded_pointer(ptr: u16)
    requires
        ptr < 60 * 188,
    ensures
        ({
            let bs = shift_jis_bytes(ptr);
            let d = ShiftJISDecoder { lead: None };
            &&& shiftjis_code_point(bs[0], bs[1]) == jis0208_forward(ptr)
            &&& mapped_char(jis0208_forward(ptr)) matches Some(c) ==> decode_run(d, bs) == (
                d,
                seq![c],
                2nat,
                Option::<(int, &'static str)>::None,
            )
            &&& mapped_char(jis0208_forward(ptr)) is None ==> decode_run(d, bs).3 is Some
        }),
{
    let bs = shift_jis_bytes(ptr);
    lemma_windows31j_decodes_encoded_pointer(ptr);
    assert(bs.drop_last() =~= seq![bs[0]]);
    assert(seq![bs[0]].drop_last() =~= Seq::<u8>::empty());
    reveal_with_fuel(decode_run, 3);
    if let Some(c) = mapped_char(jis0208_forward(ptr)) {
        assert(Seq::<char>::empty() + Seq::<char>::empty() + seq![c] =~= seq![c]);
    }
}

/// The half-width katakana U+FF61..U+FF9F are written by the Windows-31J and the Shift_JIS
/// encoders as one byte A1-DF, which fresh decoders read back as the same character.
pub proof fn lemma_shift_jis_katakana_roundtrip(c: char)
    requires
        0xff61 <= (c as u32) <= 0xff9f,
    ensures
        windows31j_bytes(c) matches Some(bs) && decode_run(Windows31JDecoder { lead: None }, bs) == (
            Windows31JDecoder { lead: None },
            seq![c],
            1nat,
            Option::<(int, &'static str)>::None,
        ),
        shiftjis_bytes(c) matches Some(bs) && decode_run(ShiftJISDecoder { lead: None }, bs) == (
            ShiftJISDecoder { lead: None },
            seq![c],
            1nat,
            Option::<(int, &'static str)>::None,
        ),
{
    let bs = windows31j_bytes(c)->0;
    assert(bs.drop_last() =~= Seq::<u8>::empty());
    reveal_with_fuel(decode_run, 2);
    vstd::utf8::char_is_scalar(c);
    assert((0xff61 + bs[0] - 0xa1) as u32 as char == c);
    assert(Seq::<char>::empty() + seq![c] =~= seq![c]);
}

/// The decoder state that reads what the encoder writes in the character set `st`.
pub open spec fn iso2022jp_reading_state(st: ISO2022JPState) -> ISO2022JPDecoderState {
    match st {
        ISO2022JPState::ASCII => ISO2022JPDecoderState::ASCII,
        ISO2022JPState::Katakana => ISO2022JPDecoderState::Katakana,
        ISO2022JPState::Lead => ISO2022JPDecoderState::Lead0208,
    }
}

/// A decoder in the state matching a character set reads the escape sequence that the encoder
/// writes to switch to another one as a switch to the state matching that one.
proof fn lemma_iso2022jp_reads_switch(st: ISO2022JPState, t: ISO2022JPState)
    ensures
        ({
            let bs = iso2022jp_switch(st, t);
            decode_run(ISO2022JPDecoder { state: iso2022jp_reading_state(st) }, bs) == (
                ISO2022JPDecoder { state: iso2022jp_reading_state(t) },
                Seq::<char>::empty(),
                bs.len(),
                Option::<(int, &'static str)>::None,
            )
        }),
{
    let bs = iso2022jp_switch(st, t);
    reveal_with_fuel(decode_run, 4);
    if bs.len() > 0 {
        assert(bs.drop_last() =~= seq![bs[0], bs[1]]);
        assert(seq![bs[0], bs[1]].drop_last() =~= seq![bs[0]]);
        assert(seq![bs[0]].drop_last() =~= Seq::<u8>::empty());
        assert(Seq::<char>::empty() + Seq::<char>::empty() + Seq::<char>::empty() + Seq::<char>::empty()
            =~= Seq::<char>::empty());
    }
}

/// A decoder in the state matching the character set of `c` reads the bytes that the encoder
/// writes for `c` within that set as `c` (for JIS X 0208, as the character that the index gives
/// the pointer of `c`).
proof fn lemma_iso2022jp_reads_char(c: char)
    requires
        (c as u32) != 0x1b && (c as u32) != 0xa5 && (c as u32) != 0x203e,
        iso2022jp_target(c) matches Some((t, _)) && (t == ISO2022JPState::Lead ==> jis0208_backward(
            c as u32,
        ) < 94 * 94),
    ensures
        ({
            let (t, bs) = iso2022jp_target(c)->0;
            let d = ISO2022JPDecoder { state: iso2022jp_reading_state(t) };
            let run = decode_run(d, bs);
            &&& t != ISO2022JPState::Lead ==> run == (d, seq![c], bs.len(), Option::<(int, &'static str)>::None)
            &&& t == ISO2022JPState::Lead ==> (mapped_char(jis0208_forward(jis0208_backward(c as u32)))
                matches Some(x) ==> run == (d, seq![x], bs.len(), Option::<(int, &'static str)>::None))
        }),
{
    let (t, bs) = iso2022jp_target(c)->0;
    reveal_with_fuel(decode_run, 3);
    vstd::utf8::char_is_scalar(c);
    if t == ISO2022JPState::Lead {
        assert(bs.drop_last() =~= seq![bs[0]]);
        assert(seq![bs[0]].drop_last() =~= Seq::<u8>::empty());
        if let Some(x) = mapped_char(jis0208_forward(jis0208_backward(c as u32))) {
            assert(Seq::<char>::empty() + Seq::<char>::empty() + seq![x] =~= seq![x]);
        }
    } else {
        assert(bs.drop_last() =~= Seq::<u8>::empty());
        assert(Seq::<char>::empty() + seq![c] =~= seq![c]);
    }
}

/// Decoding reverses encoding for ISO-2022-JP, from any character set the encoder is in: the
/// bytes written for a character, escape sequence included, are read by a decoder in the
/// matching state as that character (for JIS X 0208, as the character that the index gives its
/// pointer), leaving the decoder in the state matching the encoder's new character set. Left
/// out are ESC itself, which the decoder reads as the start of an escape sequence, and U+00A5
/// and U+203E, which are written as the ASCII bytes 5C and 7E.
pub proof fn lemma_iso2022jp_decodes_encoded(st: ISO2022JPState, c: char)
    requires
        (c as u32) != 0x1b && (c as u32) != 0xa5 && (c as u32) != 0x203e,
        iso2022jp_target(c) matches Some((t, _)) && (t == ISO2022JPState::Lead ==> jis0208_backward(
            c as u32,
        ) < 94 * 94),
    ensures
        ({
            let next = ISO2022JPEncoder { st }.spec_encode_char(c)->0;
            let bs = next.1;
            let run = decode_run(ISO2022JPDecoder { state: iso2022jp_reading_state(st) }, bs);
            let ptr = jis0208_backward(c as u32);
            let end = ISO2022JPDecoder { state: iso2022jp_reading_state(next.0.st) };
            &&& next.0.st != ISO2022JPState::Lead ==> run == (
                end,
                seq![c],
                bs.len(),
                Option::<(int, &'static str)>::None,
            )
            &&& next.0.st == ISO2022JPState::Lead ==> (mapped_char(jis0208_forward(ptr)) matches Some(
                x,
            ) ==> run == (end, seq![x], bs.len(), Option::<(int, &'static str)>::None))
        }),
{
    let (t, bytes) = iso2022jp_target(c)->0;
    let sw = iso2022jp_switch(st, t);
    let d = ISO2022JPDecoder { state: iso2022jp_reading_state(st) };
    lemma_iso2022jp_reads_switch(st, t);
    lemma_iso2022jp_reads_char(c);
    lemma_decode_run_concat(d, sw, bytes);
    assert(Seq::<char>::empty() + seq![c] =~= seq![c]);
    if let Some(x) = mapped_char(jis0208_forward(jis0208_backward(c as u32))) {
        assert(Seq::<char>::empty() + seq![x] =~= seq![x]);
    }
}

/// Every JIS X 0212 pointer is read by a fresh EUC-JP decoder from 8F and its row and cell
/// bytes (A1-FE) as that pointer, emitting the character that the index gives it and nothing
/// else.
pub proof fn lemma_eucjp_decodes_0212_pointer(ptr: u16)
    requires
        ptr < 94 * 94,
    ensures
        ({
            let bs = seq![0x8fu8, (ptr / 94 + 0xa1) as u8, (ptr % 94 + 0xa1) as u8];
            let d = EUCJPDecoder { state: EUCJPState::Initial };
            &&& jis_pointer(bs[1], bs[2], 0xa1) == ptr
            &&& mapped_char(jis0212_forward(ptr)) matches Some(x) ==> decode_run(d, bs) == (
                d,
                seq![x],
                3nat,
                Option::<(int, &'static str)>::None,
            )
            &&& mapped_char(jis0212_forward(ptr)) is None ==> decode_run(d, bs).3 is Some
        }),
{
    let bs = seq![0x8fu8, (ptr / 94 + 0xa1) as u8, (ptr % 94 + 0xa1) as u8];
    assert(bs.drop_last() =~= seq![bs[0], bs[1]]);
    assert(seq![bs[0], bs[1]].drop_last() =~= seq![bs[0]]);
    assert(seq![bs[0]].drop_last() =~= Seq::<u8>::empty());
    reveal_with_fuel(decode_run, 4);
    if let Some(x) = mapped_char(jis0212_forward(ptr)) {
        assert(Seq::<char>::empty() + Seq::<char>::empty() + Seq::<char>::empty() + seq![x] =~= seq![x]);
    }
}

} // verus!
