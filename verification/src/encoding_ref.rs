//! A value standing for any of the encodings of this library, with its encoder and
//! decoder, so that an encoding can be picked at run time (by a label, say).

use vstd::prelude::*;
use crate::codec::ascii::ASCIIDecoder;
use crate::codec::ascii::ASCIIEncoder;
use crate::codec::ascii::ASCIIEncoding;
use crate::codec::error::ErrorDecoder;
use crate::codec::error::ErrorEncoder;
use crate::codec::error::ErrorEncoding;
use crate::codec::japanese::EUCJPDecoder;
use crate::codec::japanese::EUCJPEncoder;
use crate::codec::japanese::EUCJPEncoding;
use crate::codec::japanese::ISO2022JPDecoder;
use crate::codec::japanese::ISO2022JPEncoder;
use crate::codec::japanese::ISO2022JPEncoding;
use crate::codec::japanese::ShiftJISDecoder;
use crate::codec::japanese::ShiftJISEncoder;
use crate::codec::japanese::ShiftJISEncoding;
use crate::codec::japanese::Windows31JDecoder;
use crate::codec::japanese::Windows31JEncoder;
use crate::codec::japanese::Windows31JEncoding;
use crate::codec::korean::Windows949Decoder;
use crate::codec::korean::Windows949Encoder;
use crate::codec::korean::Windows949Encoding;
use crate::codec::simpchinese::GB18030Decoder;
use crate::codec::simpchinese::GB18030Encoder;
use crate::codec::simpchinese::GB18030Encoding;
use crate::codec::simpchinese::GBK18030Decoder;
use crate::codec::simpchinese::GBK18030Encoder;
use crate::codec::simpchinese::GBK18030Encoding;
use crate::codec::simpchinese::HZDecoder;
use crate::codec::simpchinese::HZEncoder;
use crate::codec::simpchinese::HZEncoding;
use crate::codec::singlebyte::SingleByteDecoder;
use crate::codec::singlebyte::SingleByteEncoder;
use crate::codec::singlebyte::SingleByteEncoding;
use crate::codec::tradchinese::BigFive2003Encoder;
use crate::codec::tradchinese::BigFive2003Encoding;
use crate::codec::tradchinese::BigFive2003HKSCS2008Decoder;
use crate::codec::utf_16::UTF16BEDecoder;
use crate::codec::utf_16::UTF16BEEncoder;
use crate::codec::utf_16::UTF16BEEncoding;
use crate::codec::utf_16::UTF16LEDecoder;
use crate::codec::utf_16::UTF16LEEncoder;
use crate::codec::utf_16::UTF16LEEncoding;
use crate::codec::utf_8::UTF8Decoder;
use crate::codec::utf_8::UTF8Encoder;
use crate::codec::utf_8::UTF8Encoding;
use crate::codec::whatwg::EncoderOnlyUTF8Encoding;
use crate::types::{
    feed_decoder, feed_encoder, finish_decoder, ByteWriter, CodecError, DecodeStep, Encoding,
    RawDecoder, RawEncoder, StringWriter,
};
use crate::util::StatefulDecoderHelper;

verus! {

/// An encoder of any encoding of this library.
#[derive(Clone, Copy)]
pub enum AnyEncoder {
    /// An encoder for Error.
    Error(ErrorEncoder),
    /// An encoder for ASCII.
    ASCII(ASCIIEncoder),
    /// An encoder for SingleByte.
    SingleByte(SingleByteEncoder),
    /// An encoder for UTF8.
    UTF8(UTF8Encoder),
    /// An encoder for UTF16LE.
    UTF16LE(UTF16LEEncoder),
    /// An encoder for UTF16BE.
    UTF16BE(UTF16BEEncoder),
    /// An encoder for Windows949.
    Windows949(Windows949Encoder),
    /// An encoder for EUCJP.
    EUCJP(EUCJPEncoder),
    /// An encoder for Windows31J.
    Windows31J(Windows31JEncoder),
    /// An encoder for ISO2022JP.
    ISO2022JP(ISO2022JPEncoder),
    /// An encoder for ShiftJIS.
    ShiftJIS(ShiftJISEncoder),
    /// An encoder for GB18030.
    GB18030(GB18030Encoder),
    /// An encoder for GBK18030.
    GBK18030(GBK18030Encoder),
    /// An encoder for HZ.
    HZ(HZEncoder),
    /// An encoder for BigFive2003.
    BigFive2003(BigFive2003Encoder),
}

impl AnyEncoder {
    /// Feeds a string to the encoder; see `RawEncoder`.
    pub fn raw_feed<W: ByteWriter>(&mut self, input: &str, output: &mut W) -> (r: (
        usize,
        Option<CodecError>,
    ))
        requires
            vstd::utf8::encode_utf8(input@).len() <= isize::MAX,
        ensures
            crate::types::encode_feed_post(
                *old(self),
                input@,
                *final(self),
                old(output).written(),
                final(output).written(),
                r,
            ),
    {
        feed_encoder(self, input, output)
    }
}

impl RawEncoder for AnyEncoder {
    open spec fn spec_encode_char(&self, c: char) -> Option<(Self, Seq<u8>)> {
        match *self {
            AnyEncoder::Error(e) => match e.spec_encode_char(c) {
                Some((n, b)) => Some((AnyEncoder::Error(n), b)),
                None => None,
            },
            AnyEncoder::ASCII(e) => match e.spec_encode_char(c) {
                Some((n, b)) => Some((AnyEncoder::ASCII(n), b)),
                None => None,
            },
            AnyEncoder::SingleByte(e) => match e.spec_encode_char(c) {
                Some((n, b)) => Some((AnyEncoder::SingleByte(n), b)),
                None => None,
            },
            AnyEncoder::UTF8(e) => match e.spec_encode_char(c) {
                Some((n, b)) => Some((AnyEncoder::UTF8(n), b)),
                None => None,
            },
            AnyEncoder::UTF16LE(e) => match e.spec_encode_char(c) {
                Some((n, b)) => Some((AnyEncoder::UTF16LE(n), b)),
                None => None,
            },
            AnyEncoder::UTF16BE(e) => match e.spec_encode_char(c) {
                Some((n, b)) => Some((AnyEncoder::UTF16BE(n), b)),
                None => None,
            },
            AnyEncoder::Windows949(e) => match e.spec_encode_char(c) {
                Some((n, b)) => Some((AnyEncoder::Windows949(n), b)),
                None => None,
            },
            AnyEncoder::EUCJP(e) => match e.spec_encode_char(c) {
                Some((n, b)) => Some((AnyEncoder::EUCJP(n), b)),
                None => None,
            },
            AnyEncoder::Windows31J(e) => match e.spec_encode_char(c) {
                Some((n, b)) => Some((AnyEncoder::Windows31J(n), b)),
                None => None,
            },
            AnyEncoder::ISO2022JP(e) => match e.spec_encode_char(c) {
                Some((n, b)) => Some((AnyEncoder::ISO2022JP(n), b)),
                None => None,
            },
            AnyEncoder::ShiftJIS(e) => match e.spec_encode_char(c) {
                Some((n, b)) => Some((AnyEncoder::ShiftJIS(n), b)),
                None => None,
            },
            AnyEncoder::GB18030(e) => match e.spec_encode_char(c) {
                Some((n, b)) => Some((AnyEncoder::GB18030(n), b)),
                None => None,
            },
            AnyEncoder::GBK18030(e) => match e.spec_encode_char(c) {
                Some((n, b)) => Some((AnyEncoder::GBK18030(n), b)),
                None => None,
            },
            AnyEncoder::HZ(e) => match e.spec_encode_char(c) {
                Some((n, b)) => Some((AnyEncoder::HZ(n), b)),
                None => None,
            },
            AnyEncoder::BigFive2003(e) => match e.spec_encode_char(c) {
                Some((n, b)) => Some((AnyEncoder::BigFive2003(n), b)),
                None => None,
            },
        }
    }

    open spec fn spec_fresh(&self) -> Self {
        match *self {
            AnyEncoder::Error(e) => AnyEncoder::Error(e.spec_fresh()),
            AnyEncoder::ASCII(e) => AnyEncoder::ASCII(e.spec_fresh()),
            AnyEncoder::SingleByte(e) => AnyEncoder::SingleByte(e.spec_fresh()),
            AnyEncoder::UTF8(e) => AnyEncoder::UTF8(e.spec_fresh()),
            AnyEncoder::UTF16LE(e) => AnyEncoder::UTF16LE(e.spec_fresh()),
            AnyEncoder::UTF16BE(e) => AnyEncoder::UTF16BE(e.spec_fresh()),
            AnyEncoder::Windows949(e) => AnyEncoder::Windows949(e.spec_fresh()),
            AnyEncoder::EUCJP(e) => AnyEncoder::EUCJP(e.spec_fresh()),
            AnyEncoder::Windows31J(e) => AnyEncoder::Windows31J(e.spec_fresh()),
            AnyEncoder::ISO2022JP(e) => AnyEncoder::ISO2022JP(e.spec_fresh()),
            AnyEncoder::ShiftJIS(e) => AnyEncoder::ShiftJIS(e.spec_fresh()),
            AnyEncoder::GB18030(e) => AnyEncoder::GB18030(e.spec_fresh()),
            AnyEncoder::GBK18030(e) => AnyEncoder::GBK18030(e.spec_fresh()),
            AnyEncoder::HZ(e) => AnyEncoder::HZ(e.spec_fresh()),
            AnyEncoder::BigFive2003(e) => AnyEncoder::BigFive2003(e.spec_fresh()),
        }
    }

    open spec fn spec_ascii_compatible(&self) -> bool {
        match *self {
            AnyEncoder::Error(e) => e.spec_ascii_compatible(),
            AnyEncoder::ASCII(e) => e.spec_ascii_compatible(),
            AnyEncoder::SingleByte(e) => e.spec_ascii_compatible(),
            AnyEncoder::UTF8(e) => e.spec_ascii_compatible(),
            AnyEncoder::UTF16LE(e) => e.spec_ascii_compatible(),
            AnyEncoder::UTF16BE(e) => e.spec_ascii_compatible(),
            AnyEncoder::Windows949(e) => e.spec_ascii_compatible(),
            AnyEncoder::EUCJP(e) => e.spec_ascii_compatible(),
            AnyEncoder::Windows31J(e) => e.spec_ascii_compatible(),
            AnyEncoder::ISO2022JP(e) => e.spec_ascii_compatible(),
            AnyEncoder::ShiftJIS(e) => e.spec_ascii_compatible(),
            AnyEncoder::GB18030(e) => e.spec_ascii_compatible(),
            AnyEncoder::GBK18030(e) => e.spec_ascii_compatible(),
            AnyEncoder::HZ(e) => e.spec_ascii_compatible(),
            AnyEncoder::BigFive2003(e) => e.spec_ascii_compatible(),
        }
    }

    open spec fn spec_total(&self) -> bool {
        match self {
            AnyEncoder::Error(e) => e.spec_total(),
            AnyEncoder::ASCII(e) => e.spec_total(),
            AnyEncoder::SingleByte(e) => e.spec_total(),
            AnyEncoder::UTF8(e) => e.spec_total(),
            AnyEncoder::UTF16LE(e) => e.spec_total(),
            AnyEncoder::UTF16BE(e) => e.spec_total(),
            AnyEncoder::Windows949(e) => e.spec_total(),
            AnyEncoder::EUCJP(e) => e.spec_total(),
            AnyEncoder::Windows31J(e) => e.spec_total(),
            AnyEncoder::ISO2022JP(e) => e.spec_total(),
            AnyEncoder::ShiftJIS(e) => e.spec_total(),
            AnyEncoder::GB18030(e) => e.spec_total(),
            AnyEncoder::GBK18030(e) => e.spec_total(),
            AnyEncoder::HZ(e) => e.spec_total(),
            AnyEncoder::BigFive2003(e) => e.spec_total(),
        }
    }

    open spec fn spec_encodes_ascii(&self) -> bool {
        match *self {
            AnyEncoder::Error(e) => e.spec_encodes_ascii(),
            AnyEncoder::ASCII(e) => e.spec_encodes_ascii(),
            AnyEncoder::SingleByte(e) => e.spec_encodes_ascii(),
            AnyEncoder::UTF8(e) => e.spec_encodes_ascii(),
            AnyEncoder::UTF16LE(e) => e.spec_encodes_ascii(),
            AnyEncoder::UTF16BE(e) => e.spec_encodes_ascii(),
            AnyEncoder::Windows949(e) => e.spec_encodes_ascii(),
            AnyEncoder::EUCJP(e) => e.spec_encodes_ascii(),
            AnyEncoder::Windows31J(e) => e.spec_encodes_ascii(),
            AnyEncoder::ISO2022JP(e) => e.spec_encodes_ascii(),
            AnyEncoder::ShiftJIS(e) => e.spec_encodes_ascii(),
            AnyEncoder::GB18030(e) => e.spec_encodes_ascii(),
            AnyEncoder::GBK18030(e) => e.spec_encodes_ascii(),
            AnyEncoder::HZ(e) => e.spec_encodes_ascii(),
            AnyEncoder::BigFive2003(e) => e.spec_encodes_ascii(),
        }
    }

    proof fn lemma_encodes_ascii(&self, c: char) {
        match *self {
            AnyEncoder::Error(e) => e.lemma_encodes_ascii(c),
            AnyEncoder::ASCII(e) => e.lemma_encodes_ascii(c),
            AnyEncoder::SingleByte(e) => e.lemma_encodes_ascii(c),
            AnyEncoder::UTF8(e) => e.lemma_encodes_ascii(c),
            AnyEncoder::UTF16LE(e) => e.lemma_encodes_ascii(c),
            AnyEncoder::UTF16BE(e) => e.lemma_encodes_ascii(c),
            AnyEncoder::Windows949(e) => e.lemma_encodes_ascii(c),
            AnyEncoder::EUCJP(e) => e.lemma_encodes_ascii(c),
            AnyEncoder::Windows31J(e) => e.lemma_encodes_ascii(c),
            AnyEncoder::ISO2022JP(e) => e.lemma_encodes_ascii(c),
            AnyEncoder::ShiftJIS(e) => e.lemma_encodes_ascii(c),
            AnyEncoder::GB18030(e) => e.lemma_encodes_ascii(c),
            AnyEncoder::GBK18030(e) => e.lemma_encodes_ascii(c),
            AnyEncoder::HZ(e) => e.lemma_encodes_ascii(c),
            AnyEncoder::BigFive2003(e) => e.lemma_encodes_ascii(c),
        }
    }

    proof fn lemma_ascii_compatible_preserved(&self, c: char) {
        match *self {
            AnyEncoder::Error(e) => e.lemma_ascii_compatible_preserved(c),
            AnyEncoder::ASCII(e) => e.lemma_ascii_compatible_preserved(c),
            AnyEncoder::SingleByte(e) => e.lemma_ascii_compatible_preserved(c),
            AnyEncoder::UTF8(e) => e.lemma_ascii_compatible_preserved(c),
            AnyEncoder::UTF16LE(e) => e.lemma_ascii_compatible_preserved(c),
            AnyEncoder::UTF16BE(e) => e.lemma_ascii_compatible_preserved(c),
            AnyEncoder::Windows949(e) => e.lemma_ascii_compatible_preserved(c),
            AnyEncoder::EUCJP(e) => e.lemma_ascii_compatible_preserved(c),
            AnyEncoder::Windows31J(e) => e.lemma_ascii_compatible_preserved(c),
            AnyEncoder::ISO2022JP(e) => e.lemma_ascii_compatible_preserved(c),
            AnyEncoder::ShiftJIS(e) => e.lemma_ascii_compatible_preserved(c),
            AnyEncoder::GB18030(e) => e.lemma_ascii_compatible_preserved(c),
            AnyEncoder::GBK18030(e) => e.lemma_ascii_compatible_preserved(c),
            AnyEncoder::HZ(e) => e.lemma_ascii_compatible_preserved(c),
            AnyEncoder::BigFive2003(e) => e.lemma_ascii_compatible_preserved(c),
        }
    }

    proof fn lemma_ascii_char(&self, c: char) {
        match *self {
            AnyEncoder::Error(e) => e.lemma_ascii_char(c),
            AnyEncoder::ASCII(e) => e.lemma_ascii_char(c),
            AnyEncoder::SingleByte(e) => e.lemma_ascii_char(c),
            AnyEncoder::UTF8(e) => e.lemma_ascii_char(c),
            AnyEncoder::UTF16LE(e) => e.lemma_ascii_char(c),
            AnyEncoder::UTF16BE(e) => e.lemma_ascii_char(c),
            AnyEncoder::Windows949(e) => e.lemma_ascii_char(c),
            AnyEncoder::EUCJP(e) => e.lemma_ascii_char(c),
            AnyEncoder::Windows31J(e) => e.lemma_ascii_char(c),
            AnyEncoder::ISO2022JP(e) => e.lemma_ascii_char(c),
            AnyEncoder::ShiftJIS(e) => e.lemma_ascii_char(c),
            AnyEncoder::GB18030(e) => e.lemma_ascii_char(c),
            AnyEncoder::GBK18030(e) => e.lemma_ascii_char(c),
            AnyEncoder::HZ(e) => e.lemma_ascii_char(c),
            AnyEncoder::BigFive2003(e) => e.lemma_ascii_char(c),
        }
    }

    fn from_self(&self) -> (r: Self) {
        match self {
            AnyEncoder::Error(e) => AnyEncoder::Error(e.from_self()),
            AnyEncoder::ASCII(e) => AnyEncoder::ASCII(e.from_self()),
            AnyEncoder::SingleByte(e) => AnyEncoder::SingleByte(e.from_self()),
            AnyEncoder::UTF8(e) => AnyEncoder::UTF8(e.from_self()),
            AnyEncoder::UTF16LE(e) => AnyEncoder::UTF16LE(e.from_self()),
            AnyEncoder::UTF16BE(e) => AnyEncoder::UTF16BE(e.from_self()),
            AnyEncoder::Windows949(e) => AnyEncoder::Windows949(e.from_self()),
            AnyEncoder::EUCJP(e) => AnyEncoder::EUCJP(e.from_self()),
            AnyEncoder::Windows31J(e) => AnyEncoder::Windows31J(e.from_self()),
            AnyEncoder::ISO2022JP(e) => AnyEncoder::ISO2022JP(e.from_self()),
            AnyEncoder::ShiftJIS(e) => AnyEncoder::ShiftJIS(e.from_self()),
            AnyEncoder::GB18030(e) => AnyEncoder::GB18030(e.from_self()),
            AnyEncoder::GBK18030(e) => AnyEncoder::GBK18030(e.from_self()),
            AnyEncoder::HZ(e) => AnyEncoder::HZ(e.from_self()),
            AnyEncoder::BigFive2003(e) => AnyEncoder::BigFive2003(e.from_self()),
        }
    }

    fn is_ascii_compatible(&self) -> (r: bool) {
        match self {
            AnyEncoder::Error(e) => e.is_ascii_compatible(),
            AnyEncoder::ASCII(e) => e.is_ascii_compatible(),
            AnyEncoder::SingleByte(e) => e.is_ascii_compatible(),
            AnyEncoder::UTF8(e) => e.is_ascii_compatible(),
            AnyEncoder::UTF16LE(e) => e.is_ascii_compatible(),
            AnyEncoder::UTF16BE(e) => e.is_ascii_compatible(),
            AnyEncoder::Windows949(e) => e.is_ascii_compatible(),
            AnyEncoder::EUCJP(e) => e.is_ascii_compatible(),
            AnyEncoder::Windows31J(e) => e.is_ascii_compatible(),
            AnyEncoder::ISO2022JP(e) => e.is_ascii_compatible(),
            AnyEncoder::ShiftJIS(e) => e.is_ascii_compatible(),
            AnyEncoder::GB18030(e) => e.is_ascii_compatible(),
            AnyEncoder::GBK18030(e) => e.is_ascii_compatible(),
            AnyEncoder::HZ(e) => e.is_ascii_compatible(),
            AnyEncoder::BigFive2003(e) => e.is_ascii_compatible(),
        }
    }

    fn encode_char<W: ByteWriter>(&mut self, c: char, output: &mut W) -> (ok: bool) {
        match self {
            AnyEncoder::Error(e) => e.encode_char(c, output),
            AnyEncoder::ASCII(e) => e.encode_char(c, output),
            AnyEncoder::SingleByte(e) => e.encode_char(c, output),
            AnyEncoder::UTF8(e) => e.encode_char(c, output),
            AnyEncoder::UTF16LE(e) => e.encode_char(c, output),
            AnyEncoder::UTF16BE(e) => e.encode_char(c, output),
            AnyEncoder::Windows949(e) => e.encode_char(c, output),
            AnyEncoder::EUCJP(e) => e.encode_char(c, output),
            AnyEncoder::Windows31J(e) => e.encode_char(c, output),
            AnyEncoder::ISO2022JP(e) => e.encode_char(c, output),
            AnyEncoder::ShiftJIS(e) => e.encode_char(c, output),
            AnyEncoder::GB18030(e) => e.encode_char(c, output),
            AnyEncoder::GBK18030(e) => e.encode_char(c, output),
            AnyEncoder::HZ(e) => e.encode_char(c, output),
            AnyEncoder::BigFive2003(e) => e.encode_char(c, output),
        }
    }
}

/// A decoder of any encoding of this library.
#[derive(Clone, Copy)]
pub enum AnyDecoder {
    /// A decoder for Error.
    Error(ErrorDecoder),
    /// A decoder for ASCII.
    ASCII(ASCIIDecoder),
    /// A decoder for SingleByte.
    SingleByte(SingleByteDecoder),
    /// A decoder for UTF8.
    UTF8(UTF8Decoder),
    /// A decoder for UTF16LE.
    UTF16LE(UTF16LEDecoder),
    /// A decoder for UTF16BE.
    UTF16BE(UTF16BEDecoder),
    /// A decoder for Windows949.
    Windows949(Windows949Decoder),
    /// A decoder for EUCJP.
    EUCJP(EUCJPDecoder),
    /// A decoder for Windows31J.
    Windows31J(Windows31JDecoder),
    /// A decoder for ISO2022JP.
    ISO2022JP(ISO2022JPDecoder),
    /// A decoder for ShiftJIS.
    ShiftJIS(ShiftJISDecoder),
    /// A decoder for GB18030.
    GB18030(GB18030Decoder),
    /// A decoder for GBK18030.
    GBK18030(GBK18030Decoder),
    /// A decoder for HZ.
    HZ(HZDecoder),
    /// A decoder for BigFive2003HKSCS2008.
    BigFive2003(BigFive2003HKSCS2008Decoder),
}

impl AnyDecoder {
    /// Feeds bytes to the decoder; see `RawDecoder`.
    pub fn raw_feed<W: StringWriter>(&mut self, input: &[u8], output: &mut W) -> (r: (
        usize,
        Option<CodecError>,
    ))
        requires
            old(self).wf(),
            input@.len() <= isize::MAX,
        ensures
            final(self).wf(),
            crate::types::decode_feed_post(
                *old(self),
                input@,
                *final(self),
                old(output).written(),
                final(output).written(),
                r,
            ),
    {
        feed_decoder(self, input, output)
    }

    /// Finishes the decoder; see `finish_decoder`.
    pub fn raw_finish<W: StringWriter>(&mut self, output: &mut W) -> (r: Option<CodecError>)
        requires
            old(self).wf(),
        ensures
            *final(self) == old(self).spec_fresh(),
            final(self).wf(),
            final(output).written() == old(output).written(),
            match old(self).spec_finish_error() {
                None => r is None,
                Some(cause) => r matches Some(err) && err.upto == 0 && err.cause == cause,
            },
    {
        finish_decoder(self, output)
    }
}

impl RawDecoder for AnyDecoder {
    open spec fn wf(&self) -> bool {
        match *self {
            AnyDecoder::Error(d) => d.wf(),
            AnyDecoder::ASCII(d) => d.wf(),
            AnyDecoder::SingleByte(d) => d.wf(),
            AnyDecoder::UTF8(d) => d.wf(),
            AnyDecoder::UTF16LE(d) => d.wf(),
            AnyDecoder::UTF16BE(d) => d.wf(),
            AnyDecoder::Windows949(d) => d.wf(),
            AnyDecoder::EUCJP(d) => d.wf(),
            AnyDecoder::Windows31J(d) => d.wf(),
            AnyDecoder::ISO2022JP(d) => d.wf(),
            AnyDecoder::ShiftJIS(d) => d.wf(),
            AnyDecoder::GB18030(d) => d.wf(),
            AnyDecoder::GBK18030(d) => d.wf(),
            AnyDecoder::HZ(d) => d.wf(),
            AnyDecoder::BigFive2003(d) => d.wf(),
        }
    }

    open spec fn spec_stable(&self) -> bool {
        match *self {
            AnyDecoder::Error(d) => d.spec_stable(),
            AnyDecoder::ASCII(d) => d.spec_stable(),
            AnyDecoder::SingleByte(d) => d.spec_stable(),
            AnyDecoder::UTF8(d) => d.spec_stable(),
            AnyDecoder::UTF16LE(d) => d.spec_stable(),
            AnyDecoder::UTF16BE(d) => d.spec_stable(),
            AnyDecoder::Windows949(d) => d.spec_stable(),
            AnyDecoder::EUCJP(d) => d.spec_stable(),
            AnyDecoder::Windows31J(d) => d.spec_stable(),
            AnyDecoder::ISO2022JP(d) => d.spec_stable(),
            AnyDecoder::ShiftJIS(d) => d.spec_stable(),
            AnyDecoder::GB18030(d) => d.spec_stable(),
            AnyDecoder::GBK18030(d) => d.spec_stable(),
            AnyDecoder::HZ(d) => d.spec_stable(),
            AnyDecoder::BigFive2003(d) => d.spec_stable(),
        }
    }

    open spec fn spec_pending(&self) -> nat {
        match *self {
            AnyDecoder::Error(d) => d.spec_pending(),
            AnyDecoder::ASCII(d) => d.spec_pending(),
            AnyDecoder::SingleByte(d) => d.spec_pending(),
            AnyDecoder::UTF8(d) => d.spec_pending(),
            AnyDecoder::UTF16LE(d) => d.spec_pending(),
            AnyDecoder::UTF16BE(d) => d.spec_pending(),
            AnyDecoder::Windows949(d) => d.spec_pending(),
            AnyDecoder::EUCJP(d) => d.spec_pending(),
            AnyDecoder::Windows31J(d) => d.spec_pending(),
            AnyDecoder::ISO2022JP(d) => d.spec_pending(),
            AnyDecoder::ShiftJIS(d) => d.spec_pending(),
            AnyDecoder::GB18030(d) => d.spec_pending(),
            AnyDecoder::GBK18030(d) => d.spec_pending(),
            AnyDecoder::HZ(d) => d.spec_pending(),
            AnyDecoder::BigFive2003(d) => d.spec_pending(),
        }
    }

    open spec fn spec_step(&self, b: u8) -> DecodeStep<Self> {
        match *self {
            AnyDecoder::Error(d) => {
                let st = d.spec_step(b);
                (AnyDecoder::Error(st.0), st.1, st.2)
            },
            AnyDecoder::ASCII(d) => {
                let st = d.spec_step(b);
                (AnyDecoder::ASCII(st.0), st.1, st.2)
            },
            AnyDecoder::SingleByte(d) => {
                let st = d.spec_step(b);
                (AnyDecoder::SingleByte(st.0), st.1, st.2)
            },
            AnyDecoder::UTF8(d) => {
                let st = d.spec_step(b);
                (AnyDecoder::UTF8(st.0), st.1, st.2)
            },
            AnyDecoder::UTF16LE(d) => {
                let st = d.spec_step(b);
                (AnyDecoder::UTF16LE(st.0), st.1, st.2)
            },
            AnyDecoder::UTF16BE(d) => {
                let st = d.spec_step(b);
                (AnyDecoder::UTF16BE(st.0), st.1, st.2)
            },
            AnyDecoder::Windows949(d) => {
                let st = d.spec_step(b);
                (AnyDecoder::Windows949(st.0), st.1, st.2)
            },
            AnyDecoder::EUCJP(d) => {
                let st = d.spec_step(b);
                (AnyDecoder::EUCJP(st.0), st.1, st.2)
            },
            AnyDecoder::Windows31J(d) => {
                let st = d.spec_step(b);
                (AnyDecoder::Windows31J(st.0), st.1, st.2)
            },
            AnyDecoder::ISO2022JP(d) => {
                let st = d.spec_step(b);
                (AnyDecoder::ISO2022JP(st.0), st.1, st.2)
            },
            AnyDecoder::ShiftJIS(d) => {
                let st = d.spec_step(b);
                (AnyDecoder::ShiftJIS(st.0), st.1, st.2)
            },
            AnyDecoder::GB18030(d) => {
                let st = d.spec_step(b);
                (AnyDecoder::GB18030(st.0), st.1, st.2)
            },
            AnyDecoder::GBK18030(d) => {
                let st = d.spec_step(b);
                (AnyDecoder::GBK18030(st.0), st.1, st.2)
            },
            AnyDecoder::HZ(d) => {
                let st = d.spec_step(b);
                (AnyDecoder::HZ(st.0), st.1, st.2)
            },
            AnyDecoder::BigFive2003(d) => {
                let st = d.spec_step(b);
                (AnyDecoder::BigFive2003(st.0), st.1, st.2)
            },
        }
    }

    open spec fn spec_finish_error(&self) -> Option<&'static str> {
        match *self {
            AnyDecoder::Error(d) => d.spec_finish_error(),
            AnyDecoder::ASCII(d) => d.spec_finish_error(),
            AnyDecoder::SingleByte(d) => d.spec_finish_error(),
            AnyDecoder::UTF8(d) => d.spec_finish_error(),
            AnyDecoder::UTF16LE(d) => d.spec_finish_error(),
            AnyDecoder::UTF16BE(d) => d.spec_finish_error(),
            AnyDecoder::Windows949(d) => d.spec_finish_error(),
            AnyDecoder::EUCJP(d) => d.spec_finish_error(),
            AnyDecoder::Windows31J(d) => d.spec_finish_error(),
            AnyDecoder::ISO2022JP(d) => d.spec_finish_error(),
            AnyDecoder::ShiftJIS(d) => d.spec_finish_error(),
            AnyDecoder::GB18030(d) => d.spec_finish_error(),
            AnyDecoder::GBK18030(d) => d.spec_finish_error(),
            AnyDecoder::HZ(d) => d.spec_finish_error(),
            AnyDecoder::BigFive2003(d) => d.spec_finish_error(),
        }
    }

    open spec fn spec_fresh(&self) -> Self {
        match *self {
            AnyDecoder::Error(d) => AnyDecoder::Error(d.spec_fresh()),
            AnyDecoder::ASCII(d) => AnyDecoder::ASCII(d.spec_fresh()),
            AnyDecoder::SingleByte(d) => AnyDecoder::SingleByte(d.spec_fresh()),
            AnyDecoder::UTF8(d) => AnyDecoder::UTF8(d.spec_fresh()),
            AnyDecoder::UTF16LE(d) => AnyDecoder::UTF16LE(d.spec_fresh()),
            AnyDecoder::UTF16BE(d) => AnyDecoder::UTF16BE(d.spec_fresh()),
            AnyDecoder::Windows949(d) => AnyDecoder::Windows949(d.spec_fresh()),
            AnyDecoder::EUCJP(d) => AnyDecoder::EUCJP(d.spec_fresh()),
            AnyDecoder::Windows31J(d) => AnyDecoder::Windows31J(d.spec_fresh()),
            AnyDecoder::ISO2022JP(d) => AnyDecoder::ISO2022JP(d.spec_fresh()),
            AnyDecoder::ShiftJIS(d) => AnyDecoder::ShiftJIS(d.spec_fresh()),
            AnyDecoder::GB18030(d) => AnyDecoder::GB18030(d.spec_fresh()),
            AnyDecoder::GBK18030(d) => AnyDecoder::GBK18030(d.spec_fresh()),
            AnyDecoder::HZ(d) => AnyDecoder::HZ(d.spec_fresh()),
            AnyDecoder::BigFive2003(d) => AnyDecoder::BigFive2003(d.spec_fresh()),
        }
    }

    open spec fn spec_ascii_compatible(&self) -> bool {
        match *self {
            AnyDecoder::Error(d) => d.spec_ascii_compatible(),
            AnyDecoder::ASCII(d) => d.spec_ascii_compatible(),
            AnyDecoder::SingleByte(d) => d.spec_ascii_compatible(),
            AnyDecoder::UTF8(d) => d.spec_ascii_compatible(),
            AnyDecoder::UTF16LE(d) => d.spec_ascii_compatible(),
            AnyDecoder::UTF16BE(d) => d.spec_ascii_compatible(),
            AnyDecoder::Windows949(d) => d.spec_ascii_compatible(),
            AnyDecoder::EUCJP(d) => d.spec_ascii_compatible(),
            AnyDecoder::Windows31J(d) => d.spec_ascii_compatible(),
            AnyDecoder::ISO2022JP(d) => d.spec_ascii_compatible(),
            AnyDecoder::ShiftJIS(d) => d.spec_ascii_compatible(),
            AnyDecoder::GB18030(d) => d.spec_ascii_compatible(),
            AnyDecoder::GBK18030(d) => d.spec_ascii_compatible(),
            AnyDecoder::HZ(d) => d.spec_ascii_compatible(),
            AnyDecoder::BigFive2003(d) => d.spec_ascii_compatible(),
        }
    }

    proof fn lemma_step(&self, b: u8) {
        match *self {
            AnyDecoder::Error(d) => d.lemma_step(b),
            AnyDecoder::ASCII(d) => d.lemma_step(b),
            AnyDecoder::SingleByte(d) => d.lemma_step(b),
            AnyDecoder::UTF8(d) => d.lemma_step(b),
            AnyDecoder::UTF16LE(d) => d.lemma_step(b),
            AnyDecoder::UTF16BE(d) => d.lemma_step(b),
            AnyDecoder::Windows949(d) => d.lemma_step(b),
            AnyDecoder::EUCJP(d) => d.lemma_step(b),
            AnyDecoder::Windows31J(d) => d.lemma_step(b),
            AnyDecoder::ISO2022JP(d) => d.lemma_step(b),
            AnyDecoder::ShiftJIS(d) => d.lemma_step(b),
            AnyDecoder::GB18030(d) => d.lemma_step(b),
            AnyDecoder::GBK18030(d) => d.lemma_step(b),
            AnyDecoder::HZ(d) => d.lemma_step(b),
            AnyDecoder::BigFive2003(d) => d.lemma_step(b),
        }
    }

    proof fn lemma_fresh(&self) {
        match *self {
            AnyDecoder::Error(d) => d.lemma_fresh(),
            AnyDecoder::ASCII(d) => d.lemma_fresh(),
            AnyDecoder::SingleByte(d) => d.lemma_fresh(),
            AnyDecoder::UTF8(d) => d.lemma_fresh(),
            AnyDecoder::UTF16LE(d) => d.lemma_fresh(),
            AnyDecoder::UTF16BE(d) => d.lemma_fresh(),
            AnyDecoder::Windows949(d) => d.lemma_fresh(),
            AnyDecoder::EUCJP(d) => d.lemma_fresh(),
            AnyDecoder::Windows31J(d) => d.lemma_fresh(),
            AnyDecoder::ISO2022JP(d) => d.lemma_fresh(),
            AnyDecoder::ShiftJIS(d) => d.lemma_fresh(),
            AnyDecoder::GB18030(d) => d.lemma_fresh(),
            AnyDecoder::GBK18030(d) => d.lemma_fresh(),
            AnyDecoder::HZ(d) => d.lemma_fresh(),
            AnyDecoder::BigFive2003(d) => d.lemma_fresh(),
        }
    }

    proof fn lemma_ascii_byte(&self, b: u8) {
        match *self {
            AnyDecoder::Error(d) => d.lemma_ascii_byte(b),
            AnyDecoder::ASCII(d) => d.lemma_ascii_byte(b),
            AnyDecoder::SingleByte(d) => d.lemma_ascii_byte(b),
            AnyDecoder::UTF8(d) => d.lemma_ascii_byte(b),
            AnyDecoder::UTF16LE(d) => d.lemma_ascii_byte(b),
            AnyDecoder::UTF16BE(d) => d.lemma_ascii_byte(b),
            AnyDecoder::Windows949(d) => d.lemma_ascii_byte(b),
            AnyDecoder::EUCJP(d) => d.lemma_ascii_byte(b),
            AnyDecoder::Windows31J(d) => d.lemma_ascii_byte(b),
            AnyDecoder::ISO2022JP(d) => d.lemma_ascii_byte(b),
            AnyDecoder::ShiftJIS(d) => d.lemma_ascii_byte(b),
            AnyDecoder::GB18030(d) => d.lemma_ascii_byte(b),
            AnyDecoder::GBK18030(d) => d.lemma_ascii_byte(b),
            AnyDecoder::HZ(d) => d.lemma_ascii_byte(b),
            AnyDecoder::BigFive2003(d) => d.lemma_ascii_byte(b),
        }
    }

    fn from_self(&self) -> (r: Self) {
        match self {
            AnyDecoder::Error(d) => AnyDecoder::Error(d.from_self()),
            AnyDecoder::ASCII(d) => AnyDecoder::ASCII(d.from_self()),
            AnyDecoder::SingleByte(d) => AnyDecoder::SingleByte(d.from_self()),
            AnyDecoder::UTF8(d) => AnyDecoder::UTF8(d.from_self()),
            AnyDecoder::UTF16LE(d) => AnyDecoder::UTF16LE(d.from_self()),
            AnyDecoder::UTF16BE(d) => AnyDecoder::UTF16BE(d.from_self()),
            AnyDecoder::Windows949(d) => AnyDecoder::Windows949(d.from_self()),
            AnyDecoder::EUCJP(d) => AnyDecoder::EUCJP(d.from_self()),
            AnyDecoder::Windows31J(d) => AnyDecoder::Windows31J(d.from_self()),
            AnyDecoder::ISO2022JP(d) => AnyDecoder::ISO2022JP(d.from_self()),
            AnyDecoder::ShiftJIS(d) => AnyDecoder::ShiftJIS(d.from_self()),
            AnyDecoder::GB18030(d) => AnyDecoder::GB18030(d.from_self()),
            AnyDecoder::GBK18030(d) => AnyDecoder::GBK18030(d.from_self()),
            AnyDecoder::HZ(d) => AnyDecoder::HZ(d.from_self()),
            AnyDecoder::BigFive2003(d) => AnyDecoder::BigFive2003(d.from_self()),
        }
    }

    fn is_ascii_compatible(&self) -> (r: bool) {
        match self {
            AnyDecoder::Error(d) => d.is_ascii_compatible(),
            AnyDecoder::ASCII(d) => d.is_ascii_compatible(),
            AnyDecoder::SingleByte(d) => d.is_ascii_compatible(),
            AnyDecoder::UTF8(d) => d.is_ascii_compatible(),
            AnyDecoder::UTF16LE(d) => d.is_ascii_compatible(),
            AnyDecoder::UTF16BE(d) => d.is_ascii_compatible(),
            AnyDecoder::Windows949(d) => d.is_ascii_compatible(),
            AnyDecoder::EUCJP(d) => d.is_ascii_compatible(),
            AnyDecoder::Windows31J(d) => d.is_ascii_compatible(),
            AnyDecoder::ISO2022JP(d) => d.is_ascii_compatible(),
            AnyDecoder::ShiftJIS(d) => d.is_ascii_compatible(),
            AnyDecoder::GB18030(d) => d.is_ascii_compatible(),
            AnyDecoder::GBK18030(d) => d.is_ascii_compatible(),
            AnyDecoder::HZ(d) => d.is_ascii_compatible(),
            AnyDecoder::BigFive2003(d) => d.is_ascii_compatible(),
        }
    }

    fn is_stable(&self) -> (r: bool) {
        match self {
            AnyDecoder::Error(d) => d.is_stable(),
            AnyDecoder::ASCII(d) => d.is_stable(),
            AnyDecoder::SingleByte(d) => d.is_stable(),
            AnyDecoder::UTF8(d) => d.is_stable(),
            AnyDecoder::UTF16LE(d) => d.is_stable(),
            AnyDecoder::UTF16BE(d) => d.is_stable(),
            AnyDecoder::Windows949(d) => d.is_stable(),
            AnyDecoder::EUCJP(d) => d.is_stable(),
            AnyDecoder::Windows31J(d) => d.is_stable(),
            AnyDecoder::ISO2022JP(d) => d.is_stable(),
            AnyDecoder::ShiftJIS(d) => d.is_stable(),
            AnyDecoder::GB18030(d) => d.is_stable(),
            AnyDecoder::GBK18030(d) => d.is_stable(),
            AnyDecoder::HZ(d) => d.is_stable(),
            AnyDecoder::BigFive2003(d) => d.is_stable(),
        }
    }

    fn decode_byte<W: StringWriter>(
        &mut self,
        ctx: &mut StatefulDecoderHelper,
        b: u8,
        output: &mut W,
    ) {
        match self {
            AnyDecoder::Error(d) => d.decode_byte(ctx, b, output),
            AnyDecoder::ASCII(d) => d.decode_byte(ctx, b, output),
            AnyDecoder::SingleByte(d) => d.decode_byte(ctx, b, output),
            AnyDecoder::UTF8(d) => d.decode_byte(ctx, b, output),
            AnyDecoder::UTF16LE(d) => d.decode_byte(ctx, b, output),
            AnyDecoder::UTF16BE(d) => d.decode_byte(ctx, b, output),
            AnyDecoder::Windows949(d) => d.decode_byte(ctx, b, output),
            AnyDecoder::EUCJP(d) => d.decode_byte(ctx, b, output),
            AnyDecoder::Windows31J(d) => d.decode_byte(ctx, b, output),
            AnyDecoder::ISO2022JP(d) => d.decode_byte(ctx, b, output),
            AnyDecoder::ShiftJIS(d) => d.decode_byte(ctx, b, output),
            AnyDecoder::GB18030(d) => d.decode_byte(ctx, b, output),
            AnyDecoder::GBK18030(d) => d.decode_byte(ctx, b, output),
            AnyDecoder::HZ(d) => d.decode_byte(ctx, b, output),
            AnyDecoder::BigFive2003(d) => d.decode_byte(ctx, b, output),
        }
    }

    fn finish(&mut self) -> (r: Option<&'static str>) {
        match self {
            AnyDecoder::Error(d) => d.finish(),
            AnyDecoder::ASCII(d) => d.finish(),
            AnyDecoder::SingleByte(d) => d.finish(),
            AnyDecoder::UTF8(d) => d.finish(),
            AnyDecoder::UTF16LE(d) => d.finish(),
            AnyDecoder::UTF16BE(d) => d.finish(),
            AnyDecoder::Windows949(d) => d.finish(),
            AnyDecoder::EUCJP(d) => d.finish(),
            AnyDecoder::Windows31J(d) => d.finish(),
            AnyDecoder::ISO2022JP(d) => d.finish(),
            AnyDecoder::ShiftJIS(d) => d.finish(),
            AnyDecoder::GB18030(d) => d.finish(),
            AnyDecoder::GBK18030(d) => d.finish(),
            AnyDecoder::HZ(d) => d.finish(),
            AnyDecoder::BigFive2003(d) => d.finish(),
        }
    }
}

/// A reference to any encoding of this library.
#[derive(Clone, Copy)]
pub enum EncodingRef {
    /// ErrorEncoding.
    Error(ErrorEncoding),
    /// ASCIIEncoding.
    ASCII(ASCIIEncoding),
    /// SingleByteEncoding.
    SingleByte(SingleByteEncoding),
    /// UTF8Encoding.
    UTF8(UTF8Encoding),
    /// UTF16LEEncoding.
    UTF16LE(UTF16LEEncoding),
    /// UTF16BEEncoding.
    UTF16BE(UTF16BEEncoding),
    /// Windows949Encoding.
    Windows949(Windows949Encoding),
    /// EUCJPEncoding.
    EUCJP(EUCJPEncoding),
    /// Windows31JEncoding.
    Windows31J(Windows31JEncoding),
    /// ISO2022JPEncoding.
    ISO2022JP(ISO2022JPEncoding),
    /// ShiftJISEncoding.
    ShiftJIS(ShiftJISEncoding),
    /// GB18030Encoding.
    GB18030(GB18030Encoding),
    /// GBK18030Encoding.
    GBK18030(GBK18030Encoding),
    /// HZEncoding.
    HZ(HZEncoding),
    /// BigFive2003Encoding.
    BigFive2003(BigFive2003Encoding),
    /// EncoderOnlyUTF8Encoding.
    Replacement(EncoderOnlyUTF8Encoding),
}

impl Encoding for EncodingRef {
    type RawEnc = AnyEncoder;

    type RawDec = AnyDecoder;

    open spec fn spec_name(&self) -> &'static str {
        match *self {
            EncodingRef::Error(x) => x.spec_name(),
            EncodingRef::ASCII(x) => x.spec_name(),
            EncodingRef::SingleByte(x) => x.spec_name(),
            EncodingRef::UTF8(x) => x.spec_name(),
            EncodingRef::UTF16LE(x) => x.spec_name(),
            EncodingRef::UTF16BE(x) => x.spec_name(),
            EncodingRef::Windows949(x) => x.spec_name(),
            EncodingRef::EUCJP(x) => x.spec_name(),
            EncodingRef::Windows31J(x) => x.spec_name(),
            EncodingRef::ISO2022JP(x) => x.spec_name(),
            EncodingRef::ShiftJIS(x) => x.spec_name(),
            EncodingRef::GB18030(x) => x.spec_name(),
            EncodingRef::GBK18030(x) => x.spec_name(),
            EncodingRef::HZ(x) => x.spec_name(),
            EncodingRef::BigFive2003(x) => x.spec_name(),
            EncodingRef::Replacement(x) => x.spec_name(),
        }
    }

    open spec fn spec_whatwg_name(&self) -> Option<&'static str> {
        match *self {
            EncodingRef::Error(x) => x.spec_whatwg_name(),
            EncodingRef::ASCII(x) => x.spec_whatwg_name(),
            EncodingRef::SingleByte(x) => x.spec_whatwg_name(),
            EncodingRef::UTF8(x) => x.spec_whatwg_name(),
            EncodingRef::UTF16LE(x) => x.spec_whatwg_name(),
            EncodingRef::UTF16BE(x) => x.spec_whatwg_name(),
            EncodingRef::Windows949(x) => x.spec_whatwg_name(),
            EncodingRef::EUCJP(x) => x.spec_whatwg_name(),
            EncodingRef::Windows31J(x) => x.spec_whatwg_name(),
            EncodingRef::ISO2022JP(x) => x.spec_whatwg_name(),
            EncodingRef::ShiftJIS(x) => x.spec_whatwg_name(),
            EncodingRef::GB18030(x) => x.spec_whatwg_name(),
            EncodingRef::GBK18030(x) => x.spec_whatwg_name(),
            EncodingRef::HZ(x) => x.spec_whatwg_name(),
            EncodingRef::BigFive2003(x) => x.spec_whatwg_name(),
            EncodingRef::Replacement(x) => x.spec_whatwg_name(),
        }
    }

    open spec fn spec_raw_encoder(&self) -> AnyEncoder {
        match *self {
            EncodingRef::Error(x) => AnyEncoder::Error(x.spec_raw_encoder()),
            EncodingRef::ASCII(x) => AnyEncoder::ASCII(x.spec_raw_encoder()),
            EncodingRef::SingleByte(x) => AnyEncoder::SingleByte(x.spec_raw_encoder()),
            EncodingRef::UTF8(x) => AnyEncoder::UTF8(x.spec_raw_encoder()),
            EncodingRef::UTF16LE(x) => AnyEncoder::UTF16LE(x.spec_raw_encoder()),
            EncodingRef::UTF16BE(x) => AnyEncoder::UTF16BE(x.spec_raw_encoder()),
            EncodingRef::Windows949(x) => AnyEncoder::Windows949(x.spec_raw_encoder()),
            EncodingRef::EUCJP(x) => AnyEncoder::EUCJP(x.spec_raw_encoder()),
            EncodingRef::Windows31J(x) => AnyEncoder::Windows31J(x.spec_raw_encoder()),
            EncodingRef::ISO2022JP(x) => AnyEncoder::ISO2022JP(x.spec_raw_encoder()),
            EncodingRef::ShiftJIS(x) => AnyEncoder::ShiftJIS(x.spec_raw_encoder()),
            EncodingRef::GB18030(x) => AnyEncoder::GB18030(x.spec_raw_encoder()),
            EncodingRef::GBK18030(x) => AnyEncoder::GBK18030(x.spec_raw_encoder()),
            EncodingRef::HZ(x) => AnyEncoder::HZ(x.spec_raw_encoder()),
            EncodingRef::BigFive2003(x) => AnyEncoder::BigFive2003(x.spec_raw_encoder()),
            EncodingRef::Replacement(x) => AnyEncoder::UTF8(x.spec_raw_encoder()),
        }
    }

    open spec fn spec_raw_decoder(&self) -> AnyDecoder {
        match *self {
            EncodingRef::Error(x) => AnyDecoder::Error(x.spec_raw_decoder()),
            EncodingRef::ASCII(x) => AnyDecoder::ASCII(x.spec_raw_decoder()),
            EncodingRef::SingleByte(x) => AnyDecoder::SingleByte(x.spec_raw_decoder()),
            EncodingRef::UTF8(x) => AnyDecoder::UTF8(x.spec_raw_decoder()),
            EncodingRef::UTF16LE(x) => AnyDecoder::UTF16LE(x.spec_raw_decoder()),
            EncodingRef::UTF16BE(x) => AnyDecoder::UTF16BE(x.spec_raw_decoder()),
            EncodingRef::Windows949(x) => AnyDecoder::Windows949(x.spec_raw_decoder()),
            EncodingRef::EUCJP(x) => AnyDecoder::EUCJP(x.spec_raw_decoder()),
            EncodingRef::Windows31J(x) => AnyDecoder::Windows31J(x.spec_raw_decoder()),
            EncodingRef::ISO2022JP(x) => AnyDecoder::ISO2022JP(x.spec_raw_decoder()),
            EncodingRef::ShiftJIS(x) => AnyDecoder::ShiftJIS(x.spec_raw_decoder()),
            EncodingRef::GB18030(x) => AnyDecoder::GB18030(x.spec_raw_decoder()),
            EncodingRef::GBK18030(x) => AnyDecoder::GBK18030(x.spec_raw_decoder()),
            EncodingRef::HZ(x) => AnyDecoder::HZ(x.spec_raw_decoder()),
            EncodingRef::BigFive2003(x) => AnyDecoder::BigFive2003(x.spec_raw_decoder()),
            EncodingRef::Replacement(x) => AnyDecoder::Error(x.spec_raw_decoder()),
        }
    }

    fn name(&self) -> (r: &'static str) {
        match self {
            EncodingRef::Error(x) => x.name(),
            EncodingRef::ASCII(x) => x.name(),
            EncodingRef::SingleByte(x) => x.name(),
            EncodingRef::UTF8(x) => x.name(),
            EncodingRef::UTF16LE(x) => x.name(),
            EncodingRef::UTF16BE(x) => x.name(),
            EncodingRef::Windows949(x) => x.name(),
            EncodingRef::EUCJP(x) => x.name(),
            EncodingRef::Windows31J(x) => x.name(),
            EncodingRef::ISO2022JP(x) => x.name(),
            EncodingRef::ShiftJIS(x) => x.name(),
            EncodingRef::GB18030(x) => x.name(),
            EncodingRef::GBK18030(x) => x.name(),
            EncodingRef::HZ(x) => x.name(),
            EncodingRef::BigFive2003(x) => x.name(),
            EncodingRef::Replacement(x) => x.name(),
        }
    }

    fn whatwg_name(&self) -> (r: Option<&'static str>) {
        match self {
            EncodingRef::Error(x) => x.whatwg_name(),
            EncodingRef::ASCII(x) => x.whatwg_name(),
            EncodingRef::SingleByte(x) => x.whatwg_name(),
            EncodingRef::UTF8(x) => x.whatwg_name(),
            EncodingRef::UTF16LE(x) => x.whatwg_name(),
            EncodingRef::UTF16BE(x) => x.whatwg_name(),
            EncodingRef::Windows949(x) => x.whatwg_name(),
            EncodingRef::EUCJP(x) => x.whatwg_name(),
            EncodingRef::Windows31J(x) => x.whatwg_name(),
            EncodingRef::ISO2022JP(x) => x.whatwg_name(),
            EncodingRef::ShiftJIS(x) => x.whatwg_name(),
            EncodingRef::GB18030(x) => x.whatwg_name(),
            EncodingRef::GBK18030(x) => x.whatwg_name(),
            EncodingRef::HZ(x) => x.whatwg_name(),
            EncodingRef::BigFive2003(x) => x.whatwg_name(),
            EncodingRef::Replacement(x) => x.whatwg_name(),
        }
    }

    fn raw_encoder(&self) -> (r: AnyEncoder) {
        match self {
            EncodingRef::Error(x) => AnyEncoder::Error(x.raw_encoder()),
            EncodingRef::ASCII(x) => AnyEncoder::ASCII(x.raw_encoder()),
            EncodingRef::SingleByte(x) => AnyEncoder::SingleByte(x.raw_encoder()),
            EncodingRef::UTF8(x) => AnyEncoder::UTF8(x.raw_encoder()),
            EncodingRef::UTF16LE(x) => AnyEncoder::UTF16LE(x.raw_encoder()),
            EncodingRef::UTF16BE(x) => AnyEncoder::UTF16BE(x.raw_encoder()),
            EncodingRef::Windows949(x) => AnyEncoder::Windows949(x.raw_encoder()),
            EncodingRef::EUCJP(x) => AnyEncoder::EUCJP(x.raw_encoder()),
            EncodingRef::Windows31J(x) => AnyEncoder::Windows31J(x.raw_encoder()),
            EncodingRef::ISO2022JP(x) => AnyEncoder::ISO2022JP(x.raw_encoder()),
            EncodingRef::ShiftJIS(x) => AnyEncoder::ShiftJIS(x.raw_encoder()),
            EncodingRef::GB18030(x) => AnyEncoder::GB18030(x.raw_encoder()),
            EncodingRef::GBK18030(x) => AnyEncoder::GBK18030(x.raw_encoder()),
            EncodingRef::HZ(x) => AnyEncoder::HZ(x.raw_encoder()),
            EncodingRef::BigFive2003(x) => AnyEncoder::BigFive2003(x.raw_encoder()),
            EncodingRef::Replacement(x) => AnyEncoder::UTF8(x.raw_encoder()),
        }
    }

    fn raw_decoder(&self) -> (r: AnyDecoder) {
        let d = match self {
            EncodingRef::Error(x) => AnyDecoder::Error(x.raw_decoder()),
            EncodingRef::ASCII(x) => AnyDecoder::ASCII(x.raw_decoder()),
            EncodingRef::SingleByte(x) => AnyDecoder::SingleByte(x.raw_decoder()),
            EncodingRef::UTF8(x) => AnyDecoder::UTF8(x.raw_decoder()),
            EncodingRef::UTF16LE(x) => AnyDecoder::UTF16LE(x.raw_decoder()),
            EncodingRef::UTF16BE(x) => AnyDecoder::UTF16BE(x.raw_decoder()),
            EncodingRef::Windows949(x) => AnyDecoder::Windows949(x.raw_decoder()),
            EncodingRef::EUCJP(x) => AnyDecoder::EUCJP(x.raw_decoder()),
            EncodingRef::Windows31J(x) => AnyDecoder::Windows31J(x.raw_decoder()),
            EncodingRef::ISO2022JP(x) => AnyDecoder::ISO2022JP(x.raw_decoder()),
            EncodingRef::ShiftJIS(x) => AnyDecoder::ShiftJIS(x.raw_decoder()),
            EncodingRef::GB18030(x) => AnyDecoder::GB18030(x.raw_decoder()),
            EncodingRef::GBK18030(x) => AnyDecoder::GBK18030(x.raw_decoder()),
            EncodingRef::HZ(x) => AnyDecoder::HZ(x.raw_decoder()),
            EncodingRef::BigFive2003(x) => AnyDecoder::BigFive2003(x.raw_decoder()),
            EncodingRef::Replacement(x) => AnyDecoder::Error(x.raw_decoder()),
        };
        assert(d.wf() && d.spec_stable());
        d
    }
}



/// The encoding of this library that has the name `n`, if any.
pub open spec fn encoding_named(n: Seq<char>) -> Option<EncodingRef> {
    if n == "error"@ {
        Some(EncodingRef::Error(crate::all::ERROR))
    } else if n == "ascii"@ {
        Some(EncodingRef::ASCII(crate::all::ASCII))
    } else if n == "utf-8"@ {
        Some(EncodingRef::UTF8(crate::all::UTF_8))
    } else if n == "utf-16le"@ {
        Some(EncodingRef::UTF16LE(crate::all::UTF_16LE))
    } else if n == "utf-16be"@ {
        Some(EncodingRef::UTF16BE(crate::all::UTF_16BE))
    } else if n == "windows-949"@ {
        Some(EncodingRef::Windows949(crate::all::WINDOWS_949))
    } else if n == "euc-jp"@ {
        Some(EncodingRef::EUCJP(crate::all::EUC_JP))
    } else if n == "windows-31j"@ {
        Some(EncodingRef::Windows31J(crate::all::WINDOWS_31J))
    } else if n == "iso-2022-jp"@ {
        Some(EncodingRef::ISO2022JP(crate::all::ISO_2022_JP))
    } else if n == "shift-jis"@ {
        Some(EncodingRef::ShiftJIS(ShiftJISEncoding))
    } else if n == "gb18030"@ {
        Some(EncodingRef::GB18030(crate::all::GB18030))
    } else if n == "gbk18030"@ {
        Some(EncodingRef::GBK18030(crate::all::GBK18030))
    } else if n == "hz"@ {
        Some(EncodingRef::HZ(crate::all::HZ))
    } else if n == "big5-2003"@ {
        Some(EncodingRef::BigFive2003(crate::all::BIG5_2003))
    } else if n == "encoder-only-utf-8"@ {
        Some(EncodingRef::Replacement(EncoderOnlyUTF8Encoding))
    } else if n == "ibm866"@ {
        Some(EncodingRef::SingleByte(SingleByteEncoding::Ibm866))
    } else if n == "iso-8859-1"@ {
        Some(EncodingRef::SingleByte(SingleByteEncoding::Iso8859_1))
    } else if n == "iso-8859-2"@ {
        Some(EncodingRef::SingleByte(SingleByteEncoding::Iso8859_2))
    } else if n == "iso-8859-3"@ {
        Some(EncodingRef::SingleByte(SingleByteEncoding::Iso8859_3))
    } else if n == "iso-8859-4"@ {
        Some(EncodingRef::SingleByte(SingleByteEncoding::Iso8859_4))
    } else if n == "iso-8859-5"@ {
        Some(EncodingRef::SingleByte(SingleByteEncoding::Iso8859_5))
    } else if n == "iso-8859-6"@ {
        Some(EncodingRef::SingleByte(SingleByteEncoding::Iso8859_6))
    } else if n == "iso-8859-7"@ {
        Some(EncodingRef::SingleByte(SingleByteEncoding::Iso8859_7))
    } else if n == "iso-8859-8"@ {
        Some(EncodingRef::SingleByte(SingleByteEncoding::Iso8859_8))
    } else if n == "iso-8859-10"@ {
        Some(EncodingRef::SingleByte(SingleByteEncoding::Iso8859_10))
    } else if n == "iso-8859-13"@ {
        Some(EncodingRef::SingleByte(SingleByteEncoding::Iso8859_13))
    } else if n == "iso-8859-14"@ {
        Some(EncodingRef::SingleByte(SingleByteEncoding::Iso8859_14))
    } else if n == "iso-8859-15"@ {
        Some(EncodingRef::SingleByte(SingleByteEncoding::Iso8859_15))
    } else if n == "iso-8859-16"@ {
        Some(EncodingRef::SingleByte(SingleByteEncoding::Iso8859_16))
    } else if n == "koi8-r"@ {
        Some(EncodingRef::SingleByte(SingleByteEncoding::Koi8R))
    } else if n == "koi8-u"@ {
        Some(EncodingRef::SingleByte(SingleByteEncoding::Koi8U))
    } else if n == "mac-roman"@ {
        Some(EncodingRef::SingleByte(SingleByteEncoding::MacRoman))
    } else if n == "windows-874"@ {
        Some(EncodingRef::SingleByte(SingleByteEncoding::Windows874))
    } else if n == "windows-1250"@ {
        Some(EncodingRef::SingleByte(SingleByteEncoding::Windows1250))
    } else if n == "windows-1251"@ {
        Some(EncodingRef::SingleByte(SingleByteEncoding::Windows1251))
    } else if n == "windows-1252"@ {
        Some(EncodingRef::SingleByte(SingleByteEncoding::Windows1252))
    } else if n == "windows-1253"@ {
        Some(EncodingRef::SingleByte(SingleByteEncoding::Windows1253))
    } else if n == "windows-1254"@ {
        Some(EncodingRef::SingleByte(SingleByteEncoding::Windows1254))
    } else if n == "windows-1255"@ {
        Some(EncodingRef::SingleByte(SingleByteEncoding::Windows1255))
    } else if n == "windows-1256"@ {
        Some(EncodingRef::SingleByte(SingleByteEncoding::Windows1256))
    } else if n == "windows-1257"@ {
        Some(EncodingRef::SingleByte(SingleByteEncoding::Windows1257))
    } else if n == "windows-1258"@ {
        Some(EncodingRef::SingleByte(SingleByteEncoding::Windows1258))
    } else if n == "mac-cyrillic"@ {
        Some(EncodingRef::SingleByte(SingleByteEncoding::MacCyrillic))
    } else if n == "iso-8859-8-i"@ {
        Some(EncodingRef::SingleByte(SingleByteEncoding::Iso8859_8I))
    } else if n == "pua-mapped-binary"@ {
        Some(EncodingRef::SingleByte(SingleByteEncoding::XUserDefined))
    } else {
        None
    }
}

/// Every encoding of this library is the one that its name names.
#[verifier::rlimit(100)]
#[verifier::spinoff_prover]
pub proof fn lemma_name_names(e: EncodingRef)
    ensures
        encoding_named(e.spec_name()@) == Some(e),
{
    reveal_strlit("error");
    reveal_strlit("ascii");
    reveal_strlit("utf-8");
    reveal_strlit("utf-16le");
    reveal_strlit("utf-16be");
    reveal_strlit("windows-949");
    reveal_strlit("euc-jp");
    reveal_strlit("windows-31j");
    reveal_strlit("iso-2022-jp");
    reveal_strlit("shift-jis");
    reveal_strlit("gb18030");
    reveal_strlit("gbk18030");
    reveal_strlit("hz");
    reveal_strlit("big5-2003");
    reveal_strlit("encoder-only-utf-8");
    reveal_strlit("ibm866");
    reveal_strlit("iso-8859-1");
    reveal_strlit("iso-8859-2");
    reveal_strlit("iso-8859-3");
    reveal_strlit("iso-8859-4");
    reveal_strlit("iso-8859-5");
    reveal_strlit("iso-8859-6");
    reveal_strlit("iso-8859-7");
    reveal_strlit("iso-8859-8");
    reveal_strlit("iso-8859-10");
    reveal_strlit("iso-8859-13");
    reveal_strlit("iso-8859-14");
    reveal_strlit("iso-8859-15");
    reveal_strlit("iso-8859-16");
    reveal_strlit("koi8-r");
    reveal_strlit("koi8-u");
    reveal_strlit("mac-roman");
    reveal_strlit("windows-874");
    reveal_strlit("windows-1250");
    reveal_strlit("windows-1251");
    reveal_strlit("windows-1252");
    reveal_strlit("windows-1253");
    reveal_strlit("windows-1254");
    reveal_strlit("windows-1255");
    reveal_strlit("windows-1256");
    reveal_strlit("windows-1257");
    reveal_strlit("windows-1258");
    reveal_strlit("mac-cyrillic");
    reveal_strlit("iso-8859-8-i");
    reveal_strlit("pua-mapped-binary");
    assert("error"@.len() == 5);
    assert("ascii"@.len() == 5);
    assert("utf-8"@.len() == 5);
    assert("utf-16le"@.len() == 8);
    assert("utf-16be"@.len() == 8);
    assert("windows-949"@.len() == 11);
    assert("euc-jp"@.len() == 6);
    assert("windows-31j"@.len() == 11);
    assert("iso-2022-jp"@.len() == 11);
    assert("shift-jis"@.len() == 9);
    assert("gb18030"@.len() == 7);
    assert("gbk18030"@.len() == 8);
    assert("hz"@.len() == 2);
    assert("big5-2003"@.len() == 9);
    assert("encoder-only-utf-8"@.len() == 18);
    assert("ibm866"@.len() == 6);
    assert("iso-8859-1"@.len() == 10);
    assert("iso-8859-2"@.len() == 10);
    assert("iso-8859-3"@.len() == 10);
    assert("iso-8859-4"@.len() == 10);
    assert("iso-8859-5"@.len() == 10);
    assert("iso-8859-6"@.len() == 10);
    assert("iso-8859-7"@.len() == 10);
    assert("iso-8859-8"@.len() == 10);
    assert("iso-8859-10"@.len() == 11);
    assert("iso-8859-13"@.len() == 11);
    assert("iso-8859-14"@.len() == 11);
    assert("iso-8859-15"@.len() == 11);
    assert("iso-8859-16"@.len() == 11);
    assert("koi8-r"@.len() == 6);
    assert("koi8-u"@.len() == 6);
    assert("mac-roman"@.len() == 9);
    assert("windows-874"@.len() == 11);
    assert("windows-1250"@.len() == 12);
    assert("windows-1251"@.len() == 12);
    assert("windows-1252"@.len() == 12);
    assert("windows-1253"@.len() == 12);
    assert("windows-1254"@.len() == 12);
    assert("windows-1255"@.len() == 12);
    assert("windows-1256"@.len() == 12);
    assert("windows-1257"@.len() == 12);
    assert("windows-1258"@.len() == 12);
    assert("mac-cyrillic"@.len() == 12);
    assert("iso-8859-8-i"@.len() == 12);
    assert("pua-mapped-binary"@.len() == 17);
    assert("error"@[0] == 'e');
    assert("ascii"@[0] == 'a');
    assert("utf-8"@[0] == 'u');
    assert("utf-16le"@[0] == 'u');
    assert("utf-16le"@[6] == 'l');
    assert("utf-16be"@[0] == 'u');
    assert("utf-16be"@[6] == 'b');
    assert("windows-949"@[0] == 'w');
    assert("windows-949"@[8] == '9');
    assert("euc-jp"@[0] == 'e');
    assert("windows-31j"@[0] == 'w');
    assert("windows-31j"@[8] == '3');
    assert("iso-2022-jp"@[0] == 'i');
    assert("iso-2022-jp"@[4] == '2');
    assert("shift-jis"@[0] == 's');
    assert("gbk18030"@[0] == 'g');
    assert("big5-2003"@[0] == 'b');
    assert("ibm866"@[0] == 'i');
    assert("iso-8859-1"@[9] == '1');
    assert("iso-8859-2"@[9] == '2');
    assert("iso-8859-3"@[9] == '3');
    assert("iso-8859-4"@[9] == '4');
    assert("iso-8859-5"@[9] == '5');
    assert("iso-8859-6"@[9] == '6');
    assert("iso-8859-7"@[9] == '7');
    assert("iso-8859-8"@[9] == '8');
    assert("iso-8859-10"@[0] == 'i');
    assert("iso-8859-10"@[4] == '8');
    assert("iso-8859-10"@[10] == '0');
    assert("iso-8859-13"@[0] == 'i');
    assert("iso-8859-13"@[4] == '8');
    assert("iso-8859-13"@[10] == '3');
    assert("iso-8859-14"@[0] == 'i');
    assert("iso-8859-14"@[4] == '8');
    assert("iso-8859-14"@[10] == '4');
    assert("iso-8859-15"@[0] == 'i');
    assert("iso-8859-15"@[4] == '8');
    assert("iso-8859-15"@[10] == '5');
    assert("iso-8859-16"@[0] == 'i');
    assert("iso-8859-16"@[4] == '8');
    assert("iso-8859-16"@[10] == '6');
    assert("koi8-r"@[0] == 'k');
    assert("koi8-r"@[5] == 'r');
    assert("koi8-u"@[0] == 'k');
    assert("koi8-u"@[5] == 'u');
    assert("mac-roman"@[0] == 'm');
    assert("windows-874"@[0] == 'w');
    assert("windows-874"@[8] == '8');
    assert("windows-1250"@[0] == 'w');
    assert("windows-1250"@[11] == '0');
    assert("windows-1251"@[0] == 'w');
    assert("windows-1251"@[11] == '1');
    assert("windows-1252"@[0] == 'w');
    assert("windows-1252"@[11] == '2');
    assert("windows-1253"@[0] == 'w');
    assert("windows-1253"@[11] == '3');
    assert("windows-1254"@[0] == 'w');
    assert("windows-1254"@[11] == '4');
    assert("windows-1255"@[0] == 'w');
    assert("windows-1255"@[11] == '5');
    assert("windows-1256"@[0] == 'w');
    assert("windows-1256"@[11] == '6');
    assert("windows-1257"@[0] == 'w');
    assert("windows-1257"@[11] == '7');
    assert("windows-1258"@[0] == 'w');
    assert("windows-1258"@[11] == '8');
    assert("mac-cyrillic"@[0] == 'm');
    assert("iso-8859-8-i"@[0] == 'i');
    match e {
        EncodingRef::SingleByte(x) => {
            match x {
                SingleByteEncoding::Ibm866 => {},
                SingleByteEncoding::Iso8859_1 => {},
                SingleByteEncoding::Iso8859_10 => {},
                SingleByteEncoding::Iso8859_13 => {},
                SingleByteEncoding::Iso8859_14 => {},
                SingleByteEncoding::Iso8859_15 => {},
                SingleByteEncoding::Iso8859_16 => {},
                SingleByteEncoding::Iso8859_2 => {},
                SingleByteEncoding::Iso8859_3 => {},
                SingleByteEncoding::Iso8859_4 => {},
                SingleByteEncoding::Iso8859_5 => {},
                SingleByteEncoding::Iso8859_6 => {},
                SingleByteEncoding::Iso8859_7 => {},
                SingleByteEncoding::Iso8859_8 => {},
                SingleByteEncoding::Iso8859_8I => {},
                SingleByteEncoding::Koi8R => {},
                SingleByteEncoding::Koi8U => {},
                SingleByteEncoding::MacCyrillic => {},
                SingleByteEncoding::MacRoman => {},
                SingleByteEncoding::XUserDefined => {},
                SingleByteEncoding::Windows1250 => {},
                SingleByteEncoding::Windows1251 => {},
                SingleByteEncoding::Windows1252 => {},
                SingleByteEncoding::Windows1253 => {},
                SingleByteEncoding::Windows1254 => {},
                SingleByteEncoding::Windows1255 => {},
                SingleByteEncoding::Windows1256 => {},
                SingleByteEncoding::Windows1257 => {},
                SingleByteEncoding::Windows1258 => {},
                SingleByteEncoding::Windows874 => {},
            }
        },
        _ => {},
    }
}

/// Every encoding of this library has a name of its own: two encodings with the
/// same name are the same encoding.
pub proof fn lemma_names_unique(e1: EncodingRef, e2: EncodingRef)
    requires
        e1.spec_name()@ == e2.spec_name()@,
    ensures
        e1 == e2,
{
    lemma_name_names(e1);
    lemma_name_names(e2);
}

} // verus!
