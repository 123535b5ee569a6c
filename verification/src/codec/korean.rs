//! Legacy Korean encodings based on KS X 1001.

use vstd::prelude::*;
use crate::index::{euc_kr_backward, euc_kr_forward};
use crate::types::{
    decode_run, feed_decoder, feed_encoder, finish_decoder, ByteWriter, CodecError, DecodeStep, Encoding,
    RawDecoder, RawEncoder, StringWriter, INCOMPLETE_SEQUENCE, INVALID_SEQUENCE,
};
use crate::util::{emit_mapped, mapped_char, StatefulDecoderHelper};

verus! {

/// Windows code page 949.
///
/// This is a Korean encoding derived from EUC-KR,
/// which is so widely used that most occurrences of EUC-KR actually mean this encoding.
/// Unlike KS X 1001 (and EUC-KR) which only contains 2,350 precomposed Hangul syllables,
/// it contains all 11,172 of them by using a larger range of the lead and trail bytes.
#[derive(Clone, Copy)]
pub struct Windows949Encoding;

impl Encoding for Windows949Encoding {
    type RawEnc = Windows949Encoder;

    type RawDec = Windows949Decoder;

    open spec fn spec_name(&self) -> &'static str {
        "windows-949"
    }

    open spec fn spec_whatwg_name(&self) -> Option<&'static str> {
        Some("euc-kr")
    }

    open spec fn spec_raw_encoder(&self) -> Windows949Encoder {
        Windows949Encoder
    }

    open spec fn spec_raw_decoder(&self) -> Windows949Decoder {
        Windows949Decoder { lead: None }
    }

    fn name(&self) -> (r: &'static str) {
        "windows-949"
    }

    fn whatwg_name(&self) -> (r: Option<&'static str>) {
        Some("euc-kr")
    }

    fn raw_encoder(&self) -> (r: Windows949Encoder) {
        Windows949Encoder::new()
    }

    fn raw_decoder(&self) -> (r: Windows949Decoder) {
        let d = Windows949Decoder::new();
        assert(d.wf() && d.spec_stable());
        d
    }
}

/// An encoder for Windows code page 949.
#[derive(Clone, Copy)]
pub struct Windows949Encoder;

/// The two bytes for index pointer `ptr`: the index has 190 trail bytes (41-FE) for each
/// lead byte from 81 on.
pub open spec fn windows949_bytes(ptr: u16) -> Seq<u8> {
    seq![(ptr / 190 + 0x81) as u8, (ptr % 190 + 0x41) as u8]
}

impl Windows949Encoder {
    /// Creates a new encoder.
    pub fn new() -> (r: Windows949Encoder)
        ensures
            r == Windows949Encoder,
    {
        Windows949Encoder
    }

    /// Feeds a string to the encoder; see `RawEncoder`.
    pub fn raw_feed<W: ByteWriter>(&mut self, input: &str, output: &mut W) -> (r: (
        usize,
        Option<CodecError>,
    ))
        requires
            vstd::utf8::encode_utf8(input@).len() <= isize::MAX,
        ensures
            crate::types::encode_feed_post(
                *old(self),
                input@,
                *final(self),
                old(output).written(),
                final(output).written(),
                r,
            ),
    {
        feed_encoder(self, input, output)
    }

    /// Finishes the encoder; this encoder never has pending state.
    pub fn raw_finish<W: ByteWriter>(&mut self, output: &mut W) -> (r: Option<CodecError>)
        ensures
            r is None,
            *final(self) == *old(self),
            final(output).written() == old(output).written(),
    {
        None
    }
}

impl RawEncoder for Windows949Encoder {
    open spec fn spec_encode_char(&self, c: char) -> Option<(Self, Seq<u8>)> {
        if (c as u32) < 0x80 {
            Some((*self, seq![(c as u32) as u8]))
        } else {
            let ptr = euc_kr_backward(c as u32);
            if ptr == 0xffff {
                None
            } else {
                Some((*self, windows949_bytes(ptr)))
            }
        }
    }

    open spec fn spec_fresh(&self) -> Self {
        Windows949Encoder
    }

    open spec fn spec_ascii_compatible(&self) -> bool {
        true
    }

    open spec fn spec_total(&self) -> bool {
        false
    }

    open spec fn spec_encodes_ascii(&self) -> bool {
        true
    }

    proof fn lemma_encodes_ascii(&self, c: char) {
    }

    proof fn lemma_ascii_compatible_preserved(&self, c: char) {
    }

    proof fn lemma_ascii_char(&self, c: char) {
    }

    fn from_self(&self) -> (r: Self) {
        Windows949Encoder::new()
    }

    fn is_ascii_compatible(&self) -> (r: bool) {
        true
    }

    fn encode_char<W: ByteWriter>(&mut self, c: char, output: &mut W) -> (ok: bool) {
        if (c as u32) < 0x80 {
            output.write_byte((c as u32) as u8);
            return true;
        }
        let ptr = encoding_index_korean::euc_kr::backward(c as u32);
        if ptr == 0xffff {
            return false;
        }
        output.write_byte((ptr / 190 + 0x81) as u8);
        output.write_byte((ptr % 190 + 0x41) as u8);
        assert(final(output).written() =~= old(output).written() + windows949_bytes(ptr));
        true
    }
}

/// The index pointer of the lead (81-FE) and trail (41-FE) bytes, or 0xffff for an invalid pair.
pub open spec fn windows949_pointer(lead: u8, trail: u8) -> u16 {
    if 0x81 <= lead <= 0xfe && 0x41 <= trail <= 0xfe {
        ((lead - 0x81) * 190 + (trail - 0x41)) as u16
    } else {
        0xffff
    }
}

/// The code point of the lead and trail bytes, or 0xffff for an invalid or unmapped pair.
pub open spec fn windows949_code_point(lead: u8, trail: u8) -> u32 {
    let ptr = windows949_pointer(lead, trail);
    if ptr == 0xffff {
        0xffff
    } else {
        euc_kr_forward(ptr)
    }
}

/// Maps a lead and a trail byte to a code point, 0xffff where there is none.
pub fn map_two_bytes(lead: u8, trail: u8) -> (r: u32)
    ensures
        r == windows949_code_point(lead, trail),
{
    let index: u16 = if 0x81 <= lead && lead <= 0xfe && 0x41 <= trail && trail <= 0xfe {
        ((lead - 0x81) as u16) * 190 + ((trail - 0x41) as u16)
    } else {
        0xffff
    };
    if index == 0xffff {
        0xffff
    } else {
        encoding_index_korean::euc_kr::forward(index)
    }
}

/// A decoder for Windows code page 949.
#[derive(Clone, Copy)]
pub struct Windows949Decoder {
    /// The lead byte read, if any.
    pub lead: Option<u8>,
}

impl Windows949Decoder {
    /// Creates a new decoder.
    pub fn new() -> (r: Windows949Decoder)
        ensures
            r.lead is None,
    {
        Windows949Decoder { lead: None }
    }

    /// Feeds bytes to the decoder; see `RawDecoder`.
    pub fn raw_feed<W: StringWriter>(&mut self, input: &[u8], output: &mut W) -> (r: (
        usize,
        Option<CodecError>,
    ))
        requires
            input@.len() <= isize::MAX,
        ensures
            crate::types::decode_feed_post(
                *old(self),
                input@,
                *final(self),
                old(output).written(),
                final(output).written(),
                r,
            ),
    {
        feed_decoder(self, input, output)
    }

    /// Finishes the decoder: an error if a lead byte is left without its trail byte.
    pub fn raw_finish<W: StringWriter>(&mut self, output: &mut W) -> (r: Option<CodecError>)
        ensures
            final(self).lead is None,
            final(output).written() == old(output).written(),
            match old(self).lead {
                None => r is None,
                Some(_) => r matches Some(e) && e.upto == 0 && e.cause == INCOMPLETE_SEQUENCE,
            },
    {
        finish_decoder(self, output)
    }
}

impl RawDecoder for Windows949Decoder {
    open spec fn wf(&self) -> bool {
        true
    }

    open spec fn spec_stable(&self) -> bool {
        self.lead is None
    }

    open spec fn spec_pending(&self) -> nat {
        if self.lead is None {
            0
        } else {
            1
        }
    }

    open spec fn spec_step(&self, b: u8) -> DecodeStep<Self> {
        match self.lead {
            None => if b < 0x80 {
                (*self, seq![b as char], None)
            } else if 0x81 <= b <= 0xfe {
                (Windows949Decoder { lead: Some(b) }, Seq::empty(), None)
            } else {
                (*self, Seq::empty(), Some((0, INVALID_SEQUENCE)))
            },
            Some(lead) => match mapped_char(windows949_code_point(lead, b)) {
                Some(c) => (Windows949Decoder { lead: None }, seq![c], None),
                None => (Windows949Decoder { lead: None }, Seq::empty(), Some((1, INVALID_SEQUENCE))),
            },
        }
    }

    open spec fn spec_finish_error(&self) -> Option<&'static str> {
        if self.lead is None {
            None
        } else {
            Some(INCOMPLETE_SEQUENCE)
        }
    }

    open spec fn spec_fresh(&self) -> Self {
        Windows949Decoder { lead: None }
    }

    open spec fn spec_ascii_compatible(&self) -> bool {
        true
    }

    proof fn lemma_step(&self, b: u8) {
    }

    proof fn lemma_fresh(&self) {
    }

    proof fn lemma_ascii_byte(&self, b: u8) {
    }

    fn from_self(&self) -> (r: Self) {
        Windows949Decoder::new()
    }

    fn is_ascii_compatible(&self) -> (r: bool) {
        true
    }

    fn is_stable(&self) -> (r: bool) {
        self.lead.is_none()
    }

    fn decode_byte<W: StringWriter>(
        &mut self,
        ctx: &mut StatefulDecoderHelper,
        b: u8,
        output: &mut W,
    ) {
        match self.lead {
            None => {
                if b < 0x80 {
                    ctx.emit(output, b as char);
                } else if 0x81 <= b && b <= 0xfe {
                    self.lead = Some(b);
                } else {
                    ctx.backup_and_err(0, INVALID_SEQUENCE);
                }
            },
            Some(lead) => {
                self.lead = None;
                emit_mapped(ctx, map_two_bytes(lead, b), 1, output);
            },
        }
    }

    fn finish(&mut self) -> (r: Option<&'static str>) {
        let r = if self.lead.is_none() {
            None
        } else {
            Some(INCOMPLETE_SEQUENCE)
        };
        self.lead = None;
        r
    }
}

/// Decoding reverses encoding: for every pointer of the index (lead bytes 81-FE, trail bytes
/// 41-FE), the two bytes that the encoder writes for it are read back by a fresh decoder as
/// that pointer, which emits the character that the index gives it and nothing else.
pub proof fn lemma_windows949_decodes_encoded_pointer(ptr: u16)
    requires
        ptr < 126 * 190,
    ensures
        ({
            let bs = windows949_bytes(ptr);
            let d = Windows949Decoder { lead: None };
            &&& bs.len() == 2
            &&& 0x81 <= bs[0] <= 0xfe
            &&& 0x41 <= bs[1] <= 0xfe
            &&& windows949_pointer(bs[0], bs[1]) == ptr
            &&& windows949_code_point(bs[0], bs[1]) == euc_kr_forward(ptr)
            &&& mapped_char(euc_kr_forward(ptr)) matches Some(c) ==> decode_run(d, bs) == (
                d,
                seq![c],
                2nat,
                Option::<(int, &'static str)>::None,
            )
            &&& mapped_char(euc_kr_forward(ptr)) is None ==> decode_run(d, bs).3 is Some
        }),
{
    let bs = windows949_bytes(ptr);
    let d = Windows949Decoder { lead: None };
    assert(bs.drop_last() =~= seq![bs[0]]);
    assert(seq![bs[0]].drop_last() =~= Seq::<u8>::empty());
    reveal_with_fuel(decode_run, 3);
    if let Some(c) = mapped_char(euc_kr_forward(ptr)) {
        assert(Seq::<char>::empty() + Seq::<char>::empty() + seq![c] =~= seq![c]);
    }
}

/// Every character above U+007F that the encoder writes is written as the two bytes of its
/// pointer in the index, which a decoder reads back as that pointer.
pub proof fn lemma_windows949_encodes_pointer(c: char)
    requires
        (c as u32) >= 0x80,
        euc_kr_backward(c as u32) < 126 * 190,
    ensures
        Windows949Encoder.spec_encode_char(c) matches Some((_, bs)) ==> bs == windows949_bytes(
            euc_kr_backward(c as u32),
        ) && windows949_pointer(bs[0], bs[1]) == euc_kr_backward(c as u32),
{
    lemma_windows949_decodes_encoded_pointer(euc_kr_backward(c as u32));
}
} // verus!
