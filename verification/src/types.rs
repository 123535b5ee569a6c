//! Interface to the character encoding.
//!
//! Methods whose name starts with `raw_` constitute the raw incremental interface.
//! It divides the input into processed bytes (which do not affect the future result),
//! unprocessed bytes (which may, and may be a part of a problematic sequence),
//! the problematic bytes and the remaining bytes (not yet read).
//! `raw_feed` returns the offset of the first unprocessed byte and, on an error,
//! the offset of the first remaining byte (`upto`).

use vstd::prelude::*;
use vstd::utf8::*;
use crate::util::{
    backup_position, lemma_utf8_offset_mono, lemma_utf8_offset_skip, str_slice, utf8_offset,
    StatefulDecoderHelper, StrCharIndexIterator,
};

verus! {

/// Error information from either encoder or decoder.
#[derive(Clone, Copy, Debug)]
pub struct CodecError {
    /// The byte position of the first remaining byte, with respect to the current input.
    pub upto: isize,
    /// A human-readable cause of the error.
    pub cause: &'static str,
}

/// Byte writer used by encoders. In most cases this will be an owned vector of `u8`.
pub trait ByteWriter {
    /// The bytes written so far.
    spec fn written(&self) -> Seq<u8>;

    /// Hints an expected lower bound on the length of the output.
    fn writer_hint(&mut self, expectedlen: usize)
        ensures
            final(self).written() == old(self).written(),
    ;

    /// Writes a single byte.
    fn write_byte(&mut self, b: u8)
        ensures
            final(self).written() == old(self).written().push(b),
    ;

    /// Writes a number of bytes.
    fn write_bytes(&mut self, v: &[u8])
        ensures
            final(self).written() == old(self).written() + v@,
    ;
}

impl ByteWriter for Vec<u8> {
    open spec fn written(&self) -> Seq<u8> {
        self@
    }

    fn writer_hint(&mut self, expectedlen: usize) {
    }

    fn write_byte(&mut self, b: u8) {
        self.push(b);
    }

    fn write_bytes(&mut self, v: &[u8]) {
        let ghost start = self@;
        let mut i: usize = 0;
        while i < v.len()
            invariant
                i <= v@.len(),
                self@ == start + v@.take(i as int),
            decreases v@.len() - i,
        {
            self.push(v[i]);
            i = i + 1;
            assert(v@.take(i as int) =~= v@.take(i - 1).push(v@[i - 1]));
        }
        assert(v@.take(i as int) =~= v@);
    }
}

/// Appends a character to a `String`, as `String::push` does.
#[verifier::external_body]
pub(crate) fn string_push(s: &mut String, c: char)
    ensures
        final(s)@ == old(s)@.push(c),
{
    s.push(c);
}

/// String writer used by decoders. In most cases this will be an owned string.
pub trait StringWriter {
    /// The characters written so far.
    spec fn written(&self) -> Seq<char>;

    /// Hints an expected lower bound on the length of the output.
    fn writer_hint(&mut self, expectedlen: usize)
        ensures
            final(self).written() == old(self).written(),
    ;

    /// Writes a single character.
    fn write_char(&mut self, c: char)
        ensures
            final(self).written() == old(self).written().push(c),
    ;

    /// Writes a string.
    fn write_str(&mut self, s: &str)
        ensures
            final(self).written() == old(self).written() + s@,
    ;
}

impl StringWriter for String {
    open spec fn written(&self) -> Seq<char> {
        self@
    }

    fn writer_hint(&mut self, expectedlen: usize) {
    }

    fn write_char(&mut self, c: char) {
        string_push(self, c);
    }

    fn write_str(&mut self, s: &str) {
        self.append(s);
    }
}

/// The cause reported for a character that an encoder cannot represent.
pub const UNREPRESENTABLE: &'static str = "unrepresentable character";

/// The cause reported for a byte sequence that a decoder cannot decode.
pub const INVALID_SEQUENCE: &'static str = "invalid sequence";

/// The cause reported by `raw_finish` when the input ends inside a sequence.
pub const INCOMPLETE_SEQUENCE: &'static str = "incomplete sequence";

/// Runs an encoder over a character sequence: the state reached, the bytes written,
/// and the index of the first character that could not be encoded, if any
/// (the state and the bytes are those before that character).
pub open spec fn encode_run<E: RawEncoder>(e: E, s: Seq<char>) -> (E, Seq<u8>, Option<int>)
    decreases s.len(),
{
    if s.len() == 0 {
        (e, Seq::empty(), None)
    } else {
        let prev = encode_run(e, s.drop_last());
        if prev.2 is Some {
            prev
        } else {
            match prev.0.spec_encode_char(s.last()) {
                Some(next) => (next.0, prev.1 + next.1, None),
                None => (prev.0, prev.1, Some(s.len() - 1)),
            }
        }
    }
}

/// What `raw_feed` of an encoder returns and leaves behind for the input `s`.
pub open spec fn encode_feed_post<E: RawEncoder>(
    e: E,
    s: Seq<char>,
    e2: E,
    out0: Seq<u8>,
    out1: Seq<u8>,
    r: (usize, Option<CodecError>),
) -> bool {
    let run = encode_run(e, s);
    &&& e2 == run.0
    &&& out1 == out0 + run.1
    &&& match run.2 {
        None => r.0 == encode_utf8(s).len() && r.1 is None,
        Some(k) => {
            &&& r.0 == utf8_offset(s, k)
            &&& r.1 matches Some(err) && err.upto == utf8_offset(s, k + 1) && err.cause == UNREPRESENTABLE
        },
    }
}

/// Encoder converting a Unicode string into a byte sequence.
/// This is a lower level interface, and normally `Encoding::encode` should be used instead.
///
/// An encoder works character by character: each character either is encoded,
/// changing the encoder's state and producing bytes, or is unrepresentable,
/// leaving the state as it was.
pub trait RawEncoder: Sized {
    /// The effect of encoding one character: the next state and the bytes produced,
    /// or `None` when the character is unrepresentable.
    spec fn spec_encode_char(&self, c: char) -> Option<(Self, Seq<u8>)>;

    /// A fresh encoder with the same parameters.
    spec fn spec_fresh(&self) -> Self;

    /// Whether the encoding is compatible to ASCII.
    spec fn spec_ascii_compatible(&self) -> bool;

    /// Whether every ASCII character can be encoded, in this state and in every state
    /// reached from it.
    spec fn spec_encodes_ascii(&self) -> bool;

    /// Whether every character can be encoded, in this state and in every state reached
    /// from it; `encode_char` then never fails.
    spec fn spec_total(&self) -> bool;

    /// Every ASCII character can be encoded when `spec_encodes_ascii` holds.
    proof fn lemma_encodes_ascii(&self, c: char)
        ensures
            self.spec_encodes_ascii() && (c as u32) < 0x80 ==> self.spec_encode_char(c) is Some,
    ;

    /// Encoding a character never changes whether the encoder is ASCII-compatible,
    /// whether it encodes every ASCII character, nor whether it encodes every character.
    proof fn lemma_ascii_compatible_preserved(&self, c: char)
        ensures
            self.spec_encode_char(c) matches Some(next) ==> next.0.spec_ascii_compatible()
                == self.spec_ascii_compatible() && next.0.spec_encodes_ascii()
                == self.spec_encodes_ascii() && next.0.spec_total() == self.spec_total(),
    ;

    /// A fresh ASCII-compatible encoder writes an ASCII character as the byte of the
    /// same value and stays fresh.
    proof fn lemma_ascii_char(&self, c: char)
        ensures
            self.spec_ascii_compatible() && *self == self.spec_fresh() && (c as u32) < 0x80
                ==> self.spec_encode_char(c) == Some((*self, seq![(c as u32) as u8])),
    ;

    /// Creates a fresh encoder whose parameters are the same as `self`.
    fn from_self(&self) -> (r: Self)
        ensures
            r == self.spec_fresh(),
    ;

    /// Returns true if this encoding is compatible to ASCII,
    /// i.e. U+0000 through U+007F always map to bytes 00 through 7F and nothing else.
    fn is_ascii_compatible(&self) -> (r: bool)
        ensures
            r == self.spec_ascii_compatible(),
    ;

    /// Encodes one character, or reports it as unrepresentable (returning false)
    /// without writing anything.
    fn encode_char<W: ByteWriter>(&mut self, c: char, output: &mut W) -> (ok: bool)
        ensures
            old(self).spec_total() ==> ok,
            match old(self).spec_encode_char(c) {
                Some(next) => {
                    &&& ok
                    &&& *final(self) == next.0
                    &&& final(output).written() == old(output).written() + next.1
                },
                None => {
                    &&& !ok
                    &&& *final(self) == *old(self)
                    &&& final(output).written() == old(output).written()
                },
            },
    ;

    /// Finishes the encoder, pushes any pending bytes at the end of the given output,
    /// and returns optional error information (None means success).
    fn raw_finish<W: ByteWriter>(&mut self, output: &mut W) -> (r: Option<CodecError>)
        ensures
            r is None,
            *final(self) == *old(self),
            final(output).written() == old(output).written(),
    {
        None
    }
}

/// Feeds given portion of string to the encoder,
/// pushes the encoded byte sequence at the end of the given output,
/// and returns a byte offset to the first unprocessed character
/// and optional error information (None means success).
pub fn feed_encoder<E: RawEncoder, W: ByteWriter>(enc: &mut E, input: &str, output: &mut W) -> (r: (
    usize,
    Option<CodecError>,
))
    requires
        encode_utf8(input@).len() <= isize::MAX,
    ensures
        encode_feed_post(
            *old(enc),
            input@,
            *final(enc),
            old(output).written(),
            final(output).written(),
            r,
        ),
        old(enc).spec_total() ==> r.1 is None,
{
    let bytes = input.as_bytes();
    let len = bytes.len();
    output.writer_hint(len);
    let ghost e0 = *enc;
    let ghost out0 = output.written();
    let ghost s = input@;
    proof {
        lemma_utf8_offset_mono(s, 0, s.len() as int);
        assert(s.take(0) =~= Seq::<char>::empty());
    }
    let mut iter = StrCharIndexIterator::new(input);
    let mut result: (usize, Option<CodecError>) = (len, None);
    loop
        invariant_except_break
            iter.wf(),
            iter.spec_string() == s,
            s == input@,
            len <= isize::MAX,
            encode_utf8(s).len() == len,
            iter.spec_count() <= s.len(),
            enc.spec_total() == e0.spec_total(),
            ({
                let run = encode_run(e0, s.take(iter.spec_count() as int));
                &&& run.2 is None
                &&& *enc == run.0
                &&& output.written() == out0 + run.1
            }),
        ensures
            encode_feed_post(e0, s, *enc, out0, output.written(), result),
            e0.spec_total() ==> result.1 is None,
        decreases s.len() - iter.spec_count(),
    {
        let ghost k = iter.spec_count() as int;
        match iter.next() {
            Some(((i, j), ch)) => {
                proof {
                    assert(s.take(k + 1).drop_last() =~= s.take(k));
                    assert(s.take(k + 1).last() == s[k]);
                    lemma_utf8_offset_mono(s, k, s.len() as int);
                    lemma_utf8_offset_mono(s, k + 1, s.len() as int);
                }
                proof {
                    enc.lemma_ascii_compatible_preserved(ch);
                }
                if !enc.encode_char(ch, output) {
                    proof {
                        lemma_encode_run_prefix_fail(e0, s, k);
                    }
                    result = (i, Some(CodecError { upto: j as isize, cause: UNREPRESENTABLE }));
                    break ;
                }
            },
            None => {
                proof {
                    assert(s.take(k) =~= s);
                }
                result = (len, None);
                break ;
            },
        }
    }
    result
}

/// Once a prefix fails, longer prefixes fail at the same character.
pub proof fn lemma_encode_run_prefix_fail<E: RawEncoder>(e: E, s: Seq<char>, k: int)
    requires
        0 <= k < s.len(),
        encode_run(e, s.take(k)).2 is None,
        encode_run(e, s.take(k)).0.spec_encode_char(s[k]) is None,
    ensures
        encode_run(e, s) == (encode_run(e, s.take(k)).0, encode_run(e, s.take(k)).1, Some(k)),
    decreases s.len() - k,
{
    if k + 1 == s.len() {
        assert(s.drop_last() =~= s.take(k));
    } else {
        assert(s.drop_last().take(k) =~= s.take(k));
        lemma_encode_run_prefix_fail(e, s.drop_last(), k);
    }
}

/// What a decoder does with one byte: the next state, the characters emitted,
/// and the error raised on this byte, if any, given as the number of bytes
/// before the current position where the remaining input starts, with its cause.
pub type DecodeStep<D> = (D, Seq<char>, Option<(nat, &'static str)>);

/// The error that a decoder step raises at position `pos` (just after the byte).
pub open spec fn step_error(err: Option<(nat, &'static str)>, pos: int) -> Option<CodecError> {
    match err {
        None => None,
        Some((backup, cause)) => Some(
            CodecError { upto: backup_position(pos, backup as int) as isize, cause },
        ),
    }
}

/// Runs a decoder over a byte sequence: the state reached, the characters written,
/// the number of processed bytes (up to the last point where the decoder was in a
/// stable state), and the error raised, if any, with the position of the first
/// remaining byte and its cause. The decoder stops at the first error.
pub open spec fn decode_run<D: RawDecoder>(d: D, s: Seq<u8>) -> (D, Seq<char>, nat, Option<(int, &'static str)>)
    decreases s.len(),
{
    if s.len() == 0 {
        (d, Seq::empty(), 0, None)
    } else {
        let prev = decode_run(d, s.drop_last());
        if prev.3 is Some {
            prev
        } else {
            let step = prev.0.spec_step(s.last());
            let pos = s.len() as int;
            match step.2 {
                Some((backup, cause)) => (
                    step.0,
                    prev.1 + step.1,
                    prev.2,
                    Some((backup_position(pos, backup as int), cause)),
                ),
                None => (
                    step.0,
                    prev.1 + step.1,
                    if step.0.spec_stable() {
                        s.len()
                    } else {
                        prev.2
                    },
                    None,
                ),
            }
        }
    }
}

/// What `raw_feed` of a decoder returns and leaves behind for the input `s`.
pub open spec fn decode_feed_post<D: RawDecoder>(
    d: D,
    s: Seq<u8>,
    d2: D,
    out0: Seq<char>,
    out1: Seq<char>,
    r: (usize, Option<CodecError>),
) -> bool {
    let run = decode_run(d, s);
    &&& d2 == run.0
    &&& out1 == out0 + run.1
    &&& r.0 == run.2
    &&& match run.3 {
        None => r.1 is None,
        Some((upto, cause)) => r.1 matches Some(err) && err.upto == upto && err.cause == cause,
    }
}

/// Decoder converting a byte sequence into a Unicode string.
/// This is a lower level interface, and normally `Encoding::decode` should be used instead.
///
/// A decoder is a state machine that reads one byte at a time. A state is stable
/// when no byte read so far can be a part of a later problem; the bytes read since
/// the last stable state are pending.
pub trait RawDecoder: Sized {
    /// Well-formedness of the decoder state.
    spec fn wf(&self) -> bool;

    /// Whether the state is stable (no pending bytes).
    spec fn spec_stable(&self) -> bool;

    /// Number of bytes read since the last stable state.
    spec fn spec_pending(&self) -> nat;

    /// The effect of one byte.
    spec fn spec_step(&self, b: u8) -> DecodeStep<Self>;

    /// The error raised when the input ends in this state, if any.
    spec fn spec_finish_error(&self) -> Option<&'static str>;

    /// A fresh decoder with the same parameters.
    spec fn spec_fresh(&self) -> Self;

    /// Whether the encoding is compatible to ASCII.
    spec fn spec_ascii_compatible(&self) -> bool;

    /// Steps keep the state well-formed, an error never backs up before the
    /// start of the pending bytes, and an error leaves the decoder stable.
    proof fn lemma_step(&self, b: u8)
        requires
            self.wf(),
        ensures
            self.spec_stable() ==> self.spec_pending() == 0,
            self.spec_step(b).0.wf(),
            self.spec_step(b).2 matches Some(e) ==> e.0 <= self.spec_pending()
                && self.spec_step(b).0.spec_stable(),
            self.spec_step(b).2 is None ==> self.spec_step(b).0.spec_pending() == if self.spec_step(
                b,
            ).0.spec_stable() {
                0
            } else {
                self.spec_pending() + 1
            },
    ;

    /// A fresh decoder is well-formed and stable.
    proof fn lemma_fresh(&self)
        ensures
            self.spec_fresh().wf(),
            self.spec_fresh().spec_stable(),
            self.spec_fresh().spec_pending() == 0,
            self.spec_fresh().spec_fresh() == self.spec_fresh(),
    ;

    /// An ASCII-compatible decoder in a stable state decodes an ASCII byte to the
    /// character of the same value and stays as it is.
    proof fn lemma_ascii_byte(&self, b: u8)
        ensures
            self.wf() && self.spec_ascii_compatible() && self.spec_stable() && b < 0x80
                ==> self.spec_step(b) == (*self, seq![b as char], Option::<(nat, &'static str)>::None),
    ;

    /// Creates a fresh decoder whose parameters are the same as `self`.
    fn from_self(&self) -> (r: Self)
        ensures
            r == self.spec_fresh(),
    ;

    /// Returns true if this encoding is compatible to ASCII,
    /// i.e. bytes 00 through 7F always map to U+0000 through U+007F and nothing else.
    fn is_ascii_compatible(&self) -> (r: bool)
        ensures
            r == self.spec_ascii_compatible(),
    ;

    /// Whether the decoder is in a stable state.
    fn is_stable(&self) -> (r: bool)
        requires
            self.wf(),
        ensures
            r == self.spec_stable(),
    ;

    /// Processes the byte `b`, just read at `ctx.pos`, writing any decoded characters
    /// and setting `ctx.err` on an error.
    fn decode_byte<W: StringWriter>(
        &mut self,
        ctx: &mut StatefulDecoderHelper,
        b: u8,
        output: &mut W,
    )
        requires
            old(self).wf(),
            old(ctx).err is None,
            old(ctx).pos <= isize::MAX,
        ensures
            *final(self) == old(self).spec_step(b).0,
            final(output).written() == old(output).written() + old(self).spec_step(b).1,
            final(ctx).buf == old(ctx).buf,
            final(ctx).pos == old(ctx).pos,
            final(ctx).err == step_error(old(self).spec_step(b).2, old(ctx).pos as int),
    ;

    /// Resets the decoder to a fresh state, reporting an error if the input ended
    /// inside a sequence.
    fn finish(&mut self) -> (r: Option<&'static str>)
        requires
            old(self).wf(),
        ensures
            r == old(self).spec_finish_error(),
            *final(self) == old(self).spec_fresh(),
    ;
}

/// Feeds given portion of byte sequence to the decoder,
/// pushes the decoded string at the end of the given output,
/// and returns an offset to the first unprocessed byte
/// and optional error information (None means success).
pub fn feed_decoder<D: RawDecoder, W: StringWriter>(dec: &mut D, input: &[u8], output: &mut W) -> (r: (
    usize,
    Option<CodecError>,
))
    requires
        old(dec).wf(),
        input@.len() <= isize::MAX,
    ensures
        final(dec).wf(),
        decode_feed_post(
            *old(dec),
            input@,
            *final(dec),
            old(output).written(),
            final(output).written(),
            r,
        ),
{
    output.writer_hint(input.len());
    let ghost d0 = *dec;
    let ghost out0 = output.written();
    let ghost s = input@;
    let mut ctx = StatefulDecoderHelper { buf: input, pos: 0, err: None };
    let mut processed: usize = 0;
    let mut result: (usize, Option<CodecError>) = (0, None);
    proof {
        assert(s.take(0) =~= Seq::<u8>::empty());
    }
    loop
        invariant_except_break
            ctx.buf@ == s,
            s == input@,
            s.len() <= isize::MAX,
            ctx.pos <= s.len(),
            ctx.err is None,
            dec.wf(),
            ({
                let run = decode_run(d0, s.take(ctx.pos as int));
                &&& run.3 is None
                &&& *dec == run.0
                &&& output.written() == out0 + run.1
                &&& processed == run.2
            }),
        ensures
            dec.wf(),
            decode_feed_post(d0, s, *dec, out0, output.written(), result),
        decreases s.len() - ctx.pos,
    {
        let ghost k = ctx.pos as int;
        match ctx.read() {
            None => {
                proof {
                    assert(s.take(k) =~= s);
                }
                result = (processed, None);
                break ;
            },
            Some(b) => {
                proof {
                    assert(s.take(k + 1).drop_last() =~= s.take(k));
                    assert(s.take(k + 1).last() == b);
                    dec.lemma_step(b);
                }
                let ghost old_dec = *dec;
                dec.decode_byte(&mut ctx, b, output);
                if ctx.err.is_some() {
                    proof {
                        let step = old_dec.spec_step(b);
                        let e = step.2->0;
                        assert(0 <= backup_position(k + 1, e.0 as int) <= k + 1);
                        assert(decode_run(d0, s.take(k + 1)).3 == Some(
                            (backup_position(k + 1, e.0 as int), e.1),
                        ));
                        lemma_decode_run_prefix_fail(d0, s, k + 1);
                    }
                    result = (processed, ctx.err);
                    assert(decode_run(d0, s).0 == *dec);
                    assert(output.written() == out0 + decode_run(d0, s).1);
                    assert(result.0 == decode_run(d0, s).2);
                    assert(result.1 matches Some(er) && decode_run(d0, s).3 matches Some(ex) && er.upto == ex.0);
                    break ;
                }
                if dec.is_stable() {
                    processed = ctx.pos;
                }
            },
        }
    }
    result
}

/// Once a prefix raises an error, longer prefixes raise the same error.
pub proof fn lemma_decode_run_prefix_fail<D: RawDecoder>(d: D, s: Seq<u8>, k: int)
    requires
        0 <= k <= s.len(),
        decode_run(d, s.take(k)).3 is Some,
    ensures
        decode_run(d, s) == decode_run(d, s.take(k)),
    decreases s.len() - k,
{
    if k == s.len() {
        assert(s.take(k) =~= s);
    } else {
        assert(s.drop_last().take(k) =~= s.take(k));
        lemma_decode_run_prefix_fail(d, s.drop_last(), k);
    }
}

/// Finishes the decoder, and returns optional error information (None means success).
/// The decoder is reset to a fresh state.
pub fn finish_decoder<D: RawDecoder, W: StringWriter>(dec: &mut D, output: &mut W) -> (r: Option<CodecError>)
    requires
        old(dec).wf(),
    ensures
        *final(dec) == old(dec).spec_fresh(),
        final(dec).wf(),
        final(output).written() == old(output).written(),
        match old(dec).spec_finish_error() {
            None => r is None,
            Some(cause) => r matches Some(err) && err.upto == 0 && err.cause == cause,
        },
{
    proof {
        dec.lemma_fresh();
    }
    match dec.finish() {
        None => None,
        Some(cause) => Some(CodecError { upto: 0, cause }),
    }
}

/// The ASCII digit for `d` (which is below 10).
pub open spec fn digit_char(d: nat) -> char {
    ((d + 48) as u8) as char
}

/// The decimal representation of `n`.
pub open spec fn decimal_digits(n: nat) -> Seq<char>
    decreases n,
{
    if n < 10 {
        seq![digit_char(n)]
    } else {
        decimal_digits(n / 10) + seq![digit_char(n % 10)]
    }
}

/// XML numeric character references (e.g. `&#1234;`) for each character of `s`.
pub open spec fn ncr_escape(s: Seq<char>) -> Seq<char>
    decreases s.len(),
{
    if s.len() == 0 {
        Seq::empty()
    } else {
        ncr_escape(s.drop_last()) + seq!['&', '#'] + decimal_digits((s.last() as u32) as nat) + seq![';']
    }
}

/// Appends the decimal representation of `n` to `s`.
fn push_decimal(s: &mut String, n: u32)
    ensures
        final(s)@ == old(s)@ + decimal_digits(n as nat),
    decreases n,
{
    if n >= 10 {
        push_decimal(s, n / 10);
    }
    let d = (n % 10) as u8;
    string_push(s, (d + 48) as char);
}

/// Every character of an NCR escape is ASCII.
proof fn lemma_ncr_escape_ascii(s: Seq<char>)
    ensures
        forall|i: int| 0 <= i < ncr_escape(s).len() ==> (#[trigger] ncr_escape(s)[i] as u32) < 0x80,
    decreases s.len(),
{
    if s.len() > 0 {
        let prev = ncr_escape(s.drop_last());
        let digits = decimal_digits((s.last() as u32) as nat);
        lemma_ncr_escape_ascii(s.drop_last());
        lemma_decimal_digits_ascii((s.last() as u32) as nat);
        let e = ncr_escape(s);
        assert(e =~= prev + seq!['&', '#'] + digits + seq![';']);
        assert forall|i: int| 0 <= i < e.len() implies (#[trigger] e[i] as u32) < 0x80 by {
            if i < prev.len() {
                assert(e[i] == prev[i]);
            } else if i < prev.len() + 2 {
            } else if i < prev.len() + 2 + digits.len() {
                assert(e[i] == digits[i - prev.len() - 2]);
            } else {
            }
        }
    }
}

proof fn lemma_decimal_digits_ascii(n: nat)
    ensures
        forall|i: int| 0 <= i < decimal_digits(n).len() ==> (#[trigger] decimal_digits(n)[i] as u32) < 0x80,
    decreases n,
{
    lemma_digit_char_ascii(n % 10);
    if n >= 10 {
        let prev = decimal_digits(n / 10);
        lemma_decimal_digits_ascii(n / 10);
        let e = decimal_digits(n);
        assert forall|i: int| 0 <= i < e.len() implies (#[trigger] e[i] as u32) < 0x80 by {
            if i < prev.len() {
                assert(e[i] == prev[i]);
            }
        }
    } else {
        lemma_digit_char_ascii(n);
    }
}

proof fn lemma_digit_char_ascii(d: nat)
    requires
        d < 10,
    ensures
        (digit_char(d) as u32) == d + 48,
{
    let b = (d + 48) as u8;
    assert(b == d + 48);
    assert((b as char) as u32 == b);
}

/// The effect of re-encoding a replacement string with the encoder `e`:
/// an ASCII-compatible encoder writes its bytes as they are.
pub open spec fn reencode<E: RawEncoder>(e: E, s: Seq<char>) -> (E, Seq<u8>) {
    if e.spec_ascii_compatible() {
        (e, encode_utf8(s))
    } else {
        let run = encode_run(e, s);
        (run.0, run.1)
    }
}

/// Whether the replacement of `trap` can always be re-encoded by encoders like `e`.
pub open spec fn trap_encodable<E: RawEncoder>(e: E, trap: EncoderTrap) -> bool {
    trap is Strict || trap is Ignore || e.spec_ascii_compatible() || e.spec_encodes_ascii()
}

/// Encoding ASCII characters with an encoder that encodes all ASCII never fails.
pub proof fn lemma_encode_run_ascii<E: RawEncoder>(e: E, s: Seq<char>)
    requires
        e.spec_encodes_ascii(),
        forall|i: int| 0 <= i < s.len() ==> (#[trigger] s[i] as u32) < 0x80,
    ensures
        encode_run(e, s).2 is None,
    decreases s.len(),
{
    if s.len() > 0 {
        lemma_encode_run_ascii(e, s.drop_last());
        lemma_encode_run_ascii_compatible(e, s.drop_last());
        encode_run(e, s.drop_last()).0.lemma_encodes_ascii(s.last());
    }
}

/// Encoding never changes whether the encoder is ASCII-compatible, nor whether it
/// encodes every ASCII character.
pub proof fn lemma_encode_run_ascii_compatible<E: RawEncoder>(e: E, s: Seq<char>)
    ensures
        encode_run(e, s).0.spec_ascii_compatible() == e.spec_ascii_compatible(),
        encode_run(e, s).0.spec_encodes_ascii() == e.spec_encodes_ascii(),
    decreases s.len(),
{
    if s.len() > 0 {
        lemma_encode_run_ascii_compatible(e, s.drop_last());
        let p = encode_run(e, s.drop_last());
        if p.2 is None {
            p.0.lemma_ascii_compatible_preserved(s.last());
        }
    }
}

/// Trap, which handles decoder errors.
#[derive(Clone, Copy)]
pub enum DecoderTrap {
    /// Immediately fails on errors.
    /// Corresponds to WHATWG "fatal" error algorithm.
    Strict,
    /// Replaces an error with a U+FFFD (decoder).
    /// Corresponds to WHATWG "replacement" error algorithm.
    Replace,
    /// Silently ignores an error, effectively replacing it with an empty sequence.
    Ignore,
}

impl DecoderTrap {
    /// What the trap writes in place of a problem, or `None` when it gives up.
    pub open spec fn spec_replacement(self) -> Option<Seq<char>> {
        match self {
            DecoderTrap::Strict => None,
            DecoderTrap::Replace => Some(seq!['\u{fffd}']),
            DecoderTrap::Ignore => Some(Seq::empty()),
        }
    }

    /// Handles a decoder error. May write to the output writer.
    /// Returns true only when it is fine to keep going.
    pub fn trap<D: RawDecoder, W: StringWriter>(
        &self,
        decoder: &mut D,
        input: &[u8],
        output: &mut W,
    ) -> (r: bool)
        ensures
            *final(decoder) == *old(decoder),
            r == self.spec_replacement() is Some,
            match self.spec_replacement() {
                Some(rep) => final(output).written() == old(output).written() + rep,
                None => final(output).written() == old(output).written(),
            },
    {
        match self {
            DecoderTrap::Strict => false,
            DecoderTrap::Replace => {
                output.write_char('\u{fffd}');
                true
            },
            DecoderTrap::Ignore => true,
        }
    }
}

/// Trap, which handles encoder errors.
#[derive(Clone, Copy)]
pub enum EncoderTrap {
    /// Immediately fails on errors.
    /// Corresponds to WHATWG "fatal" error algorithm.
    Strict,
    /// Replaces an error with `?` in given encoding.
    /// Corresponds to WHATWG "URL" error algorithms.
    Replace,
    /// Silently ignores an error, effectively replacing it with an empty sequence.
    Ignore,
    /// Replaces an error with XML numeric character references (e.g. `&#1234;`).
    /// Corresponds to WHATWG "<form>" error algorithms.
    NcrEscape,
}

/// Re-encodes a replacement string with the encoder.
fn reencode_str<E: RawEncoder, W: ByteWriter>(encoder: &mut E, input: &str, output: &mut W)
    requires
        old(encoder).spec_ascii_compatible() || old(encoder).spec_encodes_ascii(),
        forall|i: int| 0 <= i < input@.len() ==> (#[trigger] input@[i] as u32) < 0x80,
        encode_utf8(input@).len() <= isize::MAX,
    ensures
        (*final(encoder), final(output).written()) == ({
            let r = reencode(*old(encoder), input@);
            (r.0, old(output).written() + r.1)
        }),
{
    if encoder.is_ascii_compatible() {
        output.write_bytes(input.as_bytes());
    } else {
        proof {
            lemma_encode_run_ascii(*encoder, input@);
        }
        let _ = feed_encoder(encoder, input, output);
    }
}

impl EncoderTrap {
    /// What the trap writes (to be re-encoded) in place of the problematic
    /// characters `input`, or `None` when it gives up.
    pub open spec fn spec_replacement(self, input: Seq<char>) -> Option<Seq<char>> {
        match self {
            EncoderTrap::Strict => None,
            EncoderTrap::Replace => Some(seq!['?']),
            EncoderTrap::Ignore => Some(Seq::empty()),
            EncoderTrap::NcrEscape => Some(ncr_escape(input)),
        }
    }

    /// Handles an encoder error. May write to the output writer.
    /// Returns true only when it is fine to keep going.
    pub fn trap<E: RawEncoder, W: ByteWriter>(
        &self,
        encoder: &mut E,
        input: &str,
        output: &mut W,
    ) -> (r: bool)
        requires
            trap_encodable(*old(encoder), *self),
            *self is NcrEscape ==> encode_utf8(ncr_escape(input@)).len() <= isize::MAX,
        ensures
            r == self.spec_replacement(input@) is Some,
            match self.spec_replacement(input@) {
                Some(rep) => (*final(encoder), final(output).written()) == ({
                    let re = reencode(*old(encoder), rep);
                    (re.0, old(output).written() + re.1)
                }),
                None => *final(encoder) == *old(encoder) && final(output).written() == old(
                    output,
                ).written(),
            },
    {
        match self {
            EncoderTrap::Strict => false,
            EncoderTrap::Replace => {
                let q = "?";
                proof {
                    reveal_strlit("?");
                    assert(q@ =~= seq!['?']);
                    assert(encode_utf8(q@.drop_first()) =~= Seq::<u8>::empty());
                }
                reencode_str(encoder, q, output);
                true
            },
            EncoderTrap::Ignore => {
                proof {
                    assert(encode_utf8(Seq::<char>::empty()) =~= Seq::<u8>::empty());
                    assert(encode_run(*encoder, Seq::<char>::empty()) == (
                        *encoder,
                        Seq::<u8>::empty(),
                        Option::<int>::None,
                    ));
                    assert(old(output).written() + Seq::<u8>::empty() =~= old(output).written());
                }
                true
            },
            EncoderTrap::NcrEscape => {
                let mut escapes = String::new();
                let mut iter = StrCharIndexIterator::new(input);
                let ghost s = input@;
                loop
                    invariant_except_break
                        iter.wf(),
                        iter.spec_string() == s,
                        iter.spec_count() <= s.len(),
                        escapes@ == ncr_escape(s.take(iter.spec_count() as int)),
                    ensures
                        escapes@ == ncr_escape(s),
                    decreases s.len() - iter.spec_count(),
                {
                    let ghost k = iter.spec_count() as int;
                    match iter.next() {
                        Some((_, ch)) => {
                            proof {
                                assert(s.take(k + 1).drop_last() =~= s.take(k));
                            }
                            string_push(&mut escapes, '&');
                            string_push(&mut escapes, '#');
                            push_decimal(&mut escapes, ch as u32);
                            proof {
                                assert(s.take(k + 1).last() == ch);
                            }
                            string_push(&mut escapes, ';');
                            proof {
                                assert(escapes@ =~= ncr_escape(s.take(k + 1)));
                            }
                        },
                        None => {
                            proof {
                                assert(s.take(k) =~= s);
                            }
                            break ;
                        },
                    }
                }
                proof {
                    lemma_ncr_escape_ascii(s);
                }
                reencode_str(encoder, escapes.as_str(), output);
                true
            },
        }
    }
}

/// The result of encoding `s` with the encoder `e`, handling unrepresentable
/// characters with `trap`: the bytes written, and the cause of the error
/// when the trap gives up (encoding stops there).
pub open spec fn encode_with_trap<E: RawEncoder>(e: E, s: Seq<char>, trap: EncoderTrap) -> (
    Seq<u8>,
    Option<&'static str>,
)
    decreases s.len(),
{
    if s.len() == 0 {
        (Seq::empty(), None)
    } else {
        match e.spec_encode_char(s[0]) {
            Some(next) => {
                let rest = encode_with_trap(next.0, s.drop_first(), trap);
                (next.1 + rest.0, rest.1)
            },
            None => match trap.spec_replacement(seq![s[0]]) {
                None => (Seq::empty(), Some(UNREPRESENTABLE)),
                Some(rep) => {
                    let re = reencode(e, rep);
                    let rest = encode_with_trap(re.0, s.drop_first(), trap);
                    (re.1 + rest.0, rest.1)
                },
            },
        }
    }
}

/// Encoding a prefix without error, then the rest with the trap, is encoding the whole with the trap.
pub proof fn lemma_encode_with_trap_run<E: RawEncoder>(
    e: E,
    t: Seq<char>,
    m: int,
    trap: EncoderTrap,
)
    requires
        0 <= m <= t.len(),
        encode_run(e, t.take(m)).2 is None,
    ensures
        ({
            let run = encode_run(e, t.take(m));
            let rest = encode_with_trap(run.0, t.skip(m), trap);
            encode_with_trap(e, t, trap) == (run.1 + rest.0, rest.1)
        }),
    decreases m,
{
    if m == 0 {
        assert(t.take(0) =~= Seq::<char>::empty());
        assert(t.skip(0) =~= t);
        assert(Seq::<u8>::empty() + encode_with_trap(e, t, trap).0 =~= encode_with_trap(
            e,
            t,
            trap,
        ).0);
    } else {
        assert(t.take(m).drop_last() =~= t.take(m - 1));
        assert(t.take(m).last() == t[m - 1]);
        lemma_encode_with_trap_run(e, t, m - 1, trap);
        let prev = encode_run(e, t.take(m - 1));
        let u = t.skip(m - 1);
        assert(u[0] == t[m - 1]);
        assert(u.drop_first() =~= t.skip(m));
        let next = prev.0.spec_encode_char(t[m - 1]).unwrap();
        let rest = encode_with_trap(next.0, t.skip(m), trap);
        assert(prev.1 + (next.1 + rest.0) =~= (prev.1 + next.1) + rest.0);
    }
}

/// The result of decoding `s` from position `r` on with the decoder `d`, handling
/// problems with `trap`: the characters written, and the cause of the error
/// when the trap gives up (decoding stops there).
pub open spec fn decode_with_trap<D: RawDecoder>(d: D, s: Seq<u8>, r: int, trap: DecoderTrap) -> (
    Seq<char>,
    Option<&'static str>,
)
    decreases s.len() - r,
{
    if r < 0 || r > s.len() {
        (Seq::empty(), None)
    } else {
        let run = decode_run(d, s.skip(r));
        match run.3 {
            Some((upto, cause)) => match trap.spec_replacement() {
                None => (run.1, Some(cause)),
                Some(rep) => if upto <= 0 || r + upto > s.len() {
                    (run.1 + rep, None)
                } else {
                    let rest = decode_with_trap(run.0, s, r + upto, trap);
                    (run.1 + rep + rest.0, rest.1)
                },
            },
            None => match run.0.spec_finish_error() {
                None => (run.1, None),
                Some(cause) => match trap.spec_replacement() {
                    None => (run.1, Some(cause)),
                    Some(rep) => (run.1 + rep, None),
                },
            },
        }
    }
}

/// Running a decoder from a stable state: the state stays well-formed, the pending
/// bytes are those after the processed ones, and an error leaves the decoder stable
/// with the remaining input starting after the processed bytes.
pub proof fn lemma_decode_run_stable<D: RawDecoder>(d: D, s: Seq<u8>)
    requires
        d.wf(),
        d.spec_stable(),
    ensures
        ({
            let run = decode_run(d, s);
            &&& run.0.wf()
            &&& run.2 <= s.len()
            &&& run.3 is None ==> run.0.spec_pending() == s.len() - run.2
            &&& run.3 matches Some(e) ==> run.0.spec_stable() && run.2 < e.0 <= s.len()
        }),
    decreases s.len(),
{
    if s.len() == 0 {
        d.lemma_step(0);
    } else {
        lemma_decode_run_stable(d, s.drop_last());
        let prev = decode_run(d, s.drop_last());
        if prev.3 is None {
            prev.0.lemma_step(s.last());
        }
    }
}

/// Running a well-formed decoder keeps it well-formed.
pub proof fn lemma_decode_run_wf<D: RawDecoder>(d: D, s: Seq<u8>)
    requires
        d.wf(),
    ensures
        decode_run(d, s).0.wf(),
    decreases s.len(),
{
    if s.len() > 0 {
        lemma_decode_run_wf(d, s.drop_last());
        let prev = decode_run(d, s.drop_last());
        if prev.3 is None {
            prev.0.lemma_step(s.last());
        }
    }
}

/// A run that ends stable without an error has processed all of its input.
pub proof fn lemma_decode_run_stable_end<D: RawDecoder>(d: D, s: Seq<u8>)
    requires
        decode_run(d, s).3 is None,
        decode_run(d, s).0.spec_stable(),
    ensures
        decode_run(d, s).2 == s.len(),
{
    if s.len() > 0 {
        let prev = decode_run(d, s.drop_last());
        if prev.3 is Some {
            assert(decode_run(d, s) == prev);
        }
    }
}

/// Decoding the concatenation of two inputs, where the first one leaves the decoder
/// stable without an error, is decoding the first and then the second one from where
/// the first left the decoder: the processed bytes and the error position of the second
/// run are shifted by the length of the first input.
pub proof fn lemma_decode_run_concat<D: RawDecoder>(d: D, a: Seq<u8>, b: Seq<u8>)
    requires
        d.wf(),
        decode_run(d, a).3 is None,
        decode_run(d, a).0.spec_stable(),
    ensures
        ({
            let r1 = decode_run(d, a);
            let r2 = decode_run(r1.0, b);
            let r = decode_run(d, a + b);
            &&& r.0 == r2.0
            &&& r.1 == r1.1 + r2.1
            &&& r.2 == a.len() + r2.2
            &&& r.3 == match r2.3 {
                None => None,
                Some((u, c)) => Some((a.len() + u, c)),
            }
        }),
    decreases b.len(),
{
    let r1 = decode_run(d, a);
    lemma_decode_run_wf(d, a);
    lemma_decode_run_stable_end(d, a);
    if b.len() == 0 {
        assert(a + b =~= a);
        assert(r1.1 + Seq::<char>::empty() =~= r1.1);
    } else {
        let b0 = b.drop_last();
        assert((a + b).drop_last() =~= a + b0);
        assert((a + b).last() == b.last());
        lemma_decode_run_concat(d, a, b0);
        lemma_decode_run_stable(r1.0, b0);
        let p2 = decode_run(r1.0, b0);
        if p2.3 is None {
            p2.0.lemma_step(b.last());
            let step = p2.0.spec_step(b.last());
            assert(r1.1 + (p2.1 + step.1) =~= (r1.1 + p2.1) + step.1);
        }
    }
}

/// Feeding a decoder two inputs one after the other gives the state, the characters and
/// the error cause that feeding their concatenation gives, wherever the split falls: the
/// bytes already processed do not affect what follows. The processed count of the whole is
/// that of the second run shifted by the length of the first, or that of the first run when
/// the second reaches no stable state.
pub proof fn lemma_decode_run_split<D: RawDecoder>(d: D, a: Seq<u8>, b: Seq<u8>)
    requires
        decode_run(d, a).3 is None,
    ensures
        ({
            let r1 = decode_run(d, a);
            let r2 = decode_run(r1.0, b);
            let r = decode_run(d, a + b);
            &&& r.0 == r2.0
            &&& r.1 == r1.1 + r2.1
            &&& r.2 == if r2.2 > 0 {
                a.len() + r2.2
            } else {
                r1.2
            }
            &&& (r.3 is None <==> r2.3 is None)
            &&& (r2.3 matches Some(e2) ==> r.3 matches Some(e) && e.1 == e2.1)
        }),
    decreases b.len(),
{
    let r1 = decode_run(d, a);
    if b.len() == 0 {
        assert(a + b =~= a);
        assert(r1.1 + Seq::<char>::empty() =~= r1.1);
    } else {
        let b0 = b.drop_last();
        assert((a + b).drop_last() =~= a + b0);
        assert((a + b).last() == b.last());
        lemma_decode_run_split(d, a, b0);
        let p2 = decode_run(r1.0, b0);
        if p2.3 is None {
            let step = p2.0.spec_step(b.last());
            assert(r1.1 + (p2.1 + step.1) =~= (r1.1 + p2.1) + step.1);
        }
    }
}

/// From any well-formed state, what `raw_feed` reports stays inside the current input: the
/// processed count is at most its length, and an error's remaining input starts neither
/// before the processed bytes nor after the end of the input.
pub proof fn lemma_decode_run_bounds<D: RawDecoder>(d: D, s: Seq<u8>)
    requires
        d.wf(),
    ensures
        ({
            let run = decode_run(d, s);
            &&& run.2 <= s.len()
            &&& run.3 matches Some(e) ==> run.2 <= e.0 <= s.len()
        }),
{
    lemma_decode_run_pending(d, s);
}

/// The pending bytes after a run without an error: those after the processed bytes, or,
/// where no stable state was reached, those pending before and all of the input.
proof fn lemma_decode_run_pending<D: RawDecoder>(d: D, s: Seq<u8>)
    requires
        d.wf(),
    ensures
        ({
            let run = decode_run(d, s);
            &&& run.0.wf()
            &&& run.2 <= s.len()
            &&& run.3 is None ==> run.0.spec_pending() as int == if run.2 > 0 {
                s.len() - run.2
            } else {
                d.spec_pending() + s.len() as int
            }
            &&& run.3 matches Some(e) ==> run.2 <= e.0 <= s.len()
        }),
    decreases s.len(),
{
    if s.len() == 0 {
    } else {
        lemma_decode_run_pending(d, s.drop_last());
        let prev = decode_run(d, s.drop_last());
        if prev.3 is None {
            prev.0.lemma_step(s.last());
        }
    }
}

/// The concatenation of chunks of input.
pub open spec fn concat_chunks(cs: Seq<Seq<u8>>) -> Seq<u8>
    decreases cs.len(),
{
    if cs.len() == 0 {
        Seq::empty()
    } else {
        concat_chunks(cs.drop_last()) + cs.last()
    }
}

/// Feeds chunks of input to a decoder one after the other, as successive `raw_feed` calls
/// do: the state reached, the characters written, and whether every call went without an
/// error (feeding stops at the first error).
pub open spec fn decode_chunks<D: RawDecoder>(d: D, cs: Seq<Seq<u8>>) -> (D, Seq<char>, bool)
    decreases cs.len(),
{
    if cs.len() == 0 {
        (d, Seq::empty(), true)
    } else {
        let prev = decode_chunks(d, cs.drop_last());
        if !prev.2 {
            prev
        } else {
            let run = decode_run(prev.0, cs.last());
            (run.0, prev.1 + run.1, run.3 is None)
        }
    }
}

/// However the input is cut into chunks, feeding the chunks one after the other goes
/// without an error exactly when feeding the whole input at once does, and then leaves
/// the decoder in the same state (so finishing it gives the same result) with the same
/// characters written.
pub proof fn lemma_decode_chunks<D: RawDecoder>(d: D, cs: Seq<Seq<u8>>)
    ensures
        ({
            let whole = decode_run(d, concat_chunks(cs));
            let fed = decode_chunks(d, cs);
            &&& fed.2 == (whole.3 is None)
            &&& fed.2 ==> fed.0 == whole.0 && fed.1 == whole.1
        }),
    decreases cs.len(),
{
    if cs.len() > 0 {
        let a = concat_chunks(cs.drop_last());
        let b = cs.last();
        lemma_decode_chunks(d, cs.drop_last());
        let prev = decode_chunks(d, cs.drop_last());
        if decode_run(d, a).3 is Some {
            assert((a + b).take(a.len() as int) =~= a);
            lemma_decode_run_prefix_fail(d, a + b, a.len() as int);
        } else {
            lemma_decode_run_split(d, a, b);
        }
    }
}

/// Encoding the concatenation of two strings, where the first one is encoded without
/// an error, is encoding the first and then the second one from where the first left
/// the encoder; an unrepresentable character of the second is found at its index shifted
/// by the length of the first.
pub proof fn lemma_encode_run_concat<E: RawEncoder>(e: E, a: Seq<char>, b: Seq<char>)
    requires
        encode_run(e, a).2 is None,
    ensures
        ({
            let r1 = encode_run(e, a);
            let r2 = encode_run(r1.0, b);
            let r = encode_run(e, a + b);
            &&& r.0 == r2.0
            &&& r.1 == r1.1 + r2.1
            &&& r.2 == match r2.2 {
                None => None,
                Some(k) => Some(a.len() + k),
            }
        }),
    decreases b.len(),
{
    let r1 = encode_run(e, a);
    if b.len() == 0 {
        assert(a + b =~= a);
        assert(r1.1 + Seq::<u8>::empty() =~= r1.1);
    } else {
        let b0 = b.drop_last();
        assert((a + b).drop_last() =~= a + b0);
        assert((a + b).last() == b.last());
        lemma_encode_run_concat(e, a, b0);
        let p2 = encode_run(r1.0, b0);
        if p2.2 is None {
            match p2.0.spec_encode_char(b.last()) {
                Some(next) => {
                    assert(r1.1 + (p2.1 + next.1) =~= (r1.1 + p2.1) + next.1);
                },
                None => {},
            }
        }
    }
}

/// A trap that replaces problems never gives up: decoding with it always succeeds.
pub proof fn lemma_decode_with_trap_never_fails<D: RawDecoder>(
    d: D,
    s: Seq<u8>,
    r: int,
    trap: DecoderTrap,
)
    requires
        trap.spec_replacement() is Some,
    ensures
        decode_with_trap(d, s, r, trap).1 is None,
    decreases s.len() - r,
{
    if 0 <= r <= s.len() {
        let run = decode_run(d, s.skip(r));
        if let Some((upto, cause)) = run.3 {
            if !(upto <= 0 || r + upto > s.len()) {
                lemma_decode_with_trap_never_fails(run.0, s, r + upto, trap);
            }
        }
    }
}

/// A trap that replaces problems never gives up: encoding with it always succeeds.
pub proof fn lemma_encode_with_trap_never_fails<E: RawEncoder>(
    e: E,
    s: Seq<char>,
    trap: EncoderTrap,
)
    requires
        !(trap is Strict),
    ensures
        encode_with_trap(e, s, trap).1 is None,
    decreases s.len(),
{
    if s.len() > 0 {
        match e.spec_encode_char(s[0]) {
            Some(next) => lemma_encode_with_trap_never_fails(next.0, s.drop_first(), trap),
            None => {
                let re = reencode(e, trap.spec_replacement(seq![s[0]]).unwrap());
                lemma_encode_with_trap_never_fails(re.0, s.drop_first(), trap);
            },
        }
    }
}

/// An ASCII-compatible decoder in a stable state decodes ASCII bytes to the characters
/// of the same values, processing all of them, and stays as it is.
pub proof fn lemma_decode_run_ascii<D: RawDecoder>(d: D, bytes: Seq<u8>)
    requires
        d.wf(),
        d.spec_stable(),
        d.spec_ascii_compatible(),
        forall|i: int| 0 <= i < bytes.len() ==> #[trigger] bytes[i] < 0x80,
    ensures
        decode_run(d, bytes) == (
            d,
            bytes.map_values(|b: u8| b as char),
            bytes.len(),
            Option::<(int, &'static str)>::None,
        ),
    decreases bytes.len(),
{
    if bytes.len() > 0 {
        lemma_decode_run_ascii(d, bytes.drop_last());
        d.lemma_ascii_byte(bytes.last());
        assert(bytes.drop_last().map_values(|b: u8| b as char).push(bytes.last() as char)
            =~= bytes.map_values(|b: u8| b as char));
    } else {
        assert(bytes.map_values(|b: u8| b as char) =~= Seq::<char>::empty());
    }
}

/// A fresh ASCII-compatible encoder encodes ASCII characters to the bytes of the same
/// values, and stays fresh.
pub proof fn lemma_encode_run_ascii_fresh<E: RawEncoder>(e: E, s: Seq<char>)
    requires
        e.spec_ascii_compatible(),
        e == e.spec_fresh(),
        forall|i: int| 0 <= i < s.len() ==> (#[trigger] s[i] as u32) < 0x80,
    ensures
        encode_run(e, s) == (e, s.map_values(|c: char| (c as u32) as u8), Option::<int>::None),
    decreases s.len(),
{
    if s.len() > 0 {
        lemma_encode_run_ascii_fresh(e, s.drop_last());
        e.lemma_ascii_char(s.last());
        assert(s.drop_last().map_values(|c: char| (c as u32) as u8) + seq![(s.last() as u32) as u8]
            =~= s.map_values(|c: char| (c as u32) as u8));
    } else {
        assert(s.map_values(|c: char| (c as u32) as u8) =~= Seq::<u8>::empty());
    }
}

/// Strict decoding succeeds exactly when a single run over the whole input raises no
/// error and ends where finishing raises none; it then gives the characters of that run.
pub proof fn lemma_decode_strict<D: RawDecoder>(d: D, s: Seq<u8>)
    ensures
        ({
            let run = decode_run(d, s);
            decode_with_trap(d, s, 0, DecoderTrap::Strict) == match run.3 {
                Some((_, cause)) => (run.1, Some(cause)),
                None => (run.1, run.0.spec_finish_error()),
            }
        }),
{
    assert(s.skip(0) =~= s);
}

/// Strict encoding succeeds exactly when every character is representable; it then
/// gives the bytes of a single run over the whole input.
pub proof fn lemma_encode_strict<E: RawEncoder>(e: E, s: Seq<char>)
    ensures
        encode_with_trap(e, s, EncoderTrap::Strict) == match encode_run(e, s).2 {
            Some(_) => (encode_run(e, s).1, Some(UNREPRESENTABLE)),
            None => (encode_run(e, s).1, Option::<&'static str>::None),
        },
    decreases s.len(),
{
    if s.len() > 0 {
        match e.spec_encode_char(s[0]) {
            Some(next) => {
                lemma_encode_strict(next.0, s.drop_first());
                lemma_encode_run_first(e, s);
            },
            None => {
                lemma_encode_run_first(e, s);
            },
        }
    }
}

/// A run over a string is the first character's step followed by a run over the rest.
pub proof fn lemma_encode_run_first<E: RawEncoder>(e: E, s: Seq<char>)
    requires
        s.len() > 0,
    ensures
        match e.spec_encode_char(s[0]) {
            Some(next) => {
                let rest = encode_run(next.0, s.drop_first());
                encode_run(e, s) == (
                    rest.0,
                    next.1 + rest.1,
                    match rest.2 {
                        Some(k) => Some(k + 1),
                        None => None,
                    },
                )
            },
            None => encode_run(e, s) == (e, Seq::<u8>::empty(), Some(0int)),
        },
{
    let first = seq![s[0]];
    assert(s =~= first + s.drop_first());
    assert(first.drop_last() =~= Seq::<char>::empty());
    assert(first.last() == s[0]);
    reveal_with_fuel(encode_run, 2);
    match e.spec_encode_char(s[0]) {
        Some(next) => {
            assert(encode_run(e, first) == (next.0, Seq::<u8>::empty() + next.1, Option::<int>::None));
            assert(Seq::<u8>::empty() + next.1 =~= next.1);
            lemma_encode_run_concat(e, first, s.drop_first());
        },
        None => {
            assert(encode_run(e, first) == (e, Seq::<u8>::empty(), Some(0int)));
            lemma_encode_run_prefix_fail(e, s, 0);
            assert(s.take(0) =~= Seq::<char>::empty());
        },
    }
}

/// Character encoding.
pub trait Encoding {
    /// The type of the encoders of this encoding.
    type RawEnc: RawEncoder;

    /// The type of the decoders of this encoding.
    type RawDec: RawDecoder;

    /// The canonical name.
    spec fn spec_name(&self) -> &'static str;

    /// The name defined in the WHATWG Encoding standard, if any.
    spec fn spec_whatwg_name(&self) -> Option<&'static str>;

    /// A new encoder.
    spec fn spec_raw_encoder(&self) -> Self::RawEnc;

    /// A new decoder.
    spec fn spec_raw_decoder(&self) -> Self::RawDec;

    /// Returns the canonical name of given encoding.
    /// This name is guaranteed to be unique across built-in encodings,
    /// but it is not normative and would be at most arbitrary.
    fn name(&self) -> (r: &'static str)
        ensures
            r == self.spec_name(),
    ;

    /// Returns a name of given encoding defined in the WHATWG Encoding standard, if any.
    /// This name often differs from `name` due to the compatibility reason.
    fn whatwg_name(&self) -> (r: Option<&'static str>)
        ensures
            r == self.spec_whatwg_name(),
    ;

    /// Creates a new encoder.
    fn raw_encoder(&self) -> (r: Self::RawEnc)
        ensures
            r == self.spec_raw_encoder(),
    ;

    /// Creates a new decoder.
    fn raw_decoder(&self) -> (r: Self::RawDec)
        ensures
            r == self.spec_raw_decoder(),
            r.wf(),
            r.spec_stable(),
    ;

    /// An easy-to-use interface to the encoder.
    /// On the encoder error `trap` is called,
    /// which may return a replacement sequence to continue processing,
    /// or a failure to return the error.
    fn encode(&self, input: &str, trap: EncoderTrap) -> (r: Result<Vec<u8>, &'static str>)
        requires
            encode_utf8(input@).len() <= isize::MAX,
            trap_encodable(self.spec_raw_encoder(), trap),
        ensures
            ({
                let res = encode_with_trap(self.spec_raw_encoder(), input@, trap);
                match res.1 {
                    None => r matches Ok(v) && v@ == res.0,
                    Some(cause) => r == Err::<Vec<u8>, &'static str>(cause),
                }
            }),
    {
        let mut ret: Vec<u8> = Vec::new();
        match self.encode_to(input, trap, &mut ret) {
            Ok(()) => {
                assert(ret@ =~= Seq::<u8>::empty() + ret@);
                Ok(ret)
            },
            Err(cause) => Err(cause),
        }
    }

    /// Encode into a `ByteWriter`.
    fn encode_to<W: ByteWriter>(&self, input: &str, trap: EncoderTrap, ret: &mut W) -> (r: Result<
        (),
        &'static str,
    >)
        requires
            encode_utf8(input@).len() <= isize::MAX,
            trap_encodable(self.spec_raw_encoder(), trap),
        ensures
            ({
                let res = encode_with_trap(self.spec_raw_encoder(), input@, trap);
                &&& final(ret).written() == old(ret).written() + res.0
                &&& match res.1 {
                    None => r is Ok,
                    Some(cause) => r == Err::<(), &'static str>(cause),
                }
            }),
    {
        let mut encoder = self.raw_encoder();
        let ghost e0 = encoder;
        let ghost s = input@;
        let ghost out0 = ret.written();
        let len = input.as_bytes().len();
        let mut remaining: usize = 0;
        let ghost mut c: int = 0;
        let mut result: Result<(), &'static str> = Ok(());
        proof {
            assert(s.take(0) =~= Seq::<char>::empty());
            assert(s.skip(0) =~= s);
            assert(out0 + encode_with_trap(e0, s, trap).0 =~= ret.written() + encode_with_trap(
                encoder,
                s.skip(c),
                trap,
            ).0);
            lemma_utf8_offset_mono(s, s.len() as int, s.len() as int);
            assert(s.take(s.len() as int) =~= s);
        }
        loop
            invariant_except_break
                s == input@,
                encode_utf8(s).len() == len,
                len <= isize::MAX,
                0 <= c <= s.len(),
                remaining == utf8_offset(s, c),
                len == utf8_offset(s, s.len() as int),
                trap_encodable(encoder, trap),
                ({
                    let total = encode_with_trap(e0, s, trap);
                    let rest = encode_with_trap(encoder, s.skip(c), trap);
                    &&& total.1 == rest.1
                    &&& out0 + total.0 == ret.written() + rest.0
                }),
            ensures
                ({
                    let total = encode_with_trap(e0, s, trap);
                    &&& ret.written() == out0 + total.0
                    &&& match total.1 {
                        None => result is Ok,
                        Some(cause) => result == Err::<(), &'static str>(cause),
                    }
                }),
            decreases s.len() - c,
        {
            let tail = str_slice(input, remaining, len, Ghost(c), Ghost(s.len() as int));
            let ghost t = tail@;
            let ghost enc_before = encoder;
            let ghost written_before = ret.written();
            proof {
                assert(t =~= s.skip(c));
                lemma_utf8_offset_mono(s, c, s.len() as int);
                lemma_utf8_offset_skip(s, c, s.len() - c);
                assert(t.take(t.len() as int) =~= t);
                crate::util::lemma_utf8_suffix(s, c);
            }
            let (offset, err) = feed_encoder(&mut encoder, tail, ret);
            proof {
                lemma_encode_run_ascii_compatible(enc_before, t);
            }
            match err {
                Some(err) => {
                    let ghost run = encode_run(enc_before, t);
                    let ghost k = run.2->0;
                    proof {
                        assert(run.2 is Some);
                        lemma_encode_run_prefix_ok(enc_before, t, k);
                        assert(t.take(k).len() == k);
                        lemma_encode_run_ascii_compatible(enc_before, t.take(k));
                        lemma_encode_with_trap_run(enc_before, t, k, trap);
                        lemma_utf8_offset_skip(s, c, k);
                        lemma_utf8_offset_skip(s, c, k + 1);
                        lemma_utf8_offset_mono(s, c + k + 1, s.len() as int);
                        lemma_utf8_offset_mono(s, c + k, c + k + 1);
                        assert(offset == utf8_offset(t, k));
                        assert(err.upto == utf8_offset(t, k + 1));
                        assert(remaining + offset == utf8_offset(s, c + k));
                    }
                    let unprocessed = remaining + offset;
                    let next = remaining + err.upto as usize;
                    let problem = str_slice(input, unprocessed, next, Ghost(c + k), Ghost(c + k + 1));
                    proof {
                        assert(problem@ =~= seq![t[k]]);
                        assert(s[c + k] == t[k]);
                        if trap is NcrEscape {
                            reveal_with_fuel(ncr_escape, 2);
                            assert(seq![t[k]].drop_last() =~= Seq::<char>::empty());
                            lemma_ncr_escape_short(t[k]);
                        }
                    }
                    let ghost enc_mid = encoder;
                    let ghost written_mid = ret.written();
                    if !trap.trap(&mut encoder, problem, ret) {
                        proof {
                            assert(t.skip(k)[0] == t[k]);
                            assert(ret.written() =~= written_before + run.1);
                        }
                        result = Err(err.cause);
                        break ;
                    }
                    proof {
                        let u = t.skip(k);
                        assert(u[0] == t[k]);
                        assert(u.drop_first() =~= s.skip(c + k + 1));
                        let rep = trap.spec_replacement(seq![t[k]]).unwrap();
                        lemma_encode_run_ascii_compatible(enc_mid, rep);
                        let rest = encode_with_trap(encoder, s.skip(c + k + 1), trap);
                        assert(written_before + run.1 + (reencode(enc_mid, rep).1 + rest.0)
                            =~= ret.written() + rest.0);
                    }
                    remaining = next;
                    proof {
                        c = c + k + 1;
                    }
                },
                None => {
                    proof {
                        let run = encode_run(enc_before, t);
                        lemma_encode_with_trap_run(enc_before, t, t.len() as int, trap);
                        assert(t.skip(t.len() as int) =~= Seq::<char>::empty());
                        assert(ret.written() + Seq::<u8>::empty() =~= ret.written());
                    }
                    let _ = encoder.raw_finish(ret);
                    result = Ok(());
                    break ;
                },
            }
        }
        result
    }

    /// An easy-to-use interface to the decoder.
    /// On the decoder error `trap` is called,
    /// which may return a replacement string to continue processing,
    /// or a failure to return the error.
    fn decode(&self, input: &[u8], trap: DecoderTrap) -> (r: Result<String, &'static str>)
        requires
            input@.len() <= isize::MAX,
        ensures
            ({
                let res = decode_with_trap(self.spec_raw_decoder(), input@, 0, trap);
                match res.1 {
                    None => r matches Ok(v) && v@ == res.0,
                    Some(cause) => r == Err::<String, &'static str>(cause),
                }
            }),
    {
        let mut ret = String::new();
        match self.decode_to(input, trap, &mut ret) {
            Ok(()) => {
                assert(ret@ =~= Seq::<char>::empty() + ret@);
                Ok(ret)
            },
            Err(cause) => Err(cause),
        }
    }

    /// Decode into a `StringWriter`.
    ///
    /// This does *not* handle partial characters at the beginning or end of `input`!
    /// Use the raw decoder for incremental decoding.
    fn decode_to<W: StringWriter>(&self, input: &[u8], trap: DecoderTrap, ret: &mut W) -> (r: Result<
        (),
        &'static str,
    >)
        requires
            input@.len() <= isize::MAX,
        ensures
            ({
                let res = decode_with_trap(self.spec_raw_decoder(), input@, 0, trap);
                &&& final(ret).written() == old(ret).written() + res.0
                &&& match res.1 {
                    None => r is Ok,
                    Some(cause) => r == Err::<(), &'static str>(cause),
                }
            }),
    {
        let mut decoder = self.raw_decoder();
        let ghost d0 = decoder;
        let ghost s = input@;
        let ghost out0 = ret.written();
        let len = input.len();
        let mut remaining: usize = 0;
        let mut result: Result<(), &'static str> = Ok(());
        proof {
            assert(out0 + decode_with_trap(d0, s, 0, trap).0 =~= ret.written() + decode_with_trap(
                decoder,
                s,
                remaining as int,
                trap,
            ).0);
        }
        loop
            invariant_except_break
                s == input@,
                len == s.len(),
                len <= isize::MAX,
                remaining <= len,
                decoder.wf(),
                decoder.spec_stable(),
                ({
                    let total = decode_with_trap(d0, s, 0, trap);
                    let rest = decode_with_trap(decoder, s, remaining as int, trap);
                    &&& total.1 == rest.1
                    &&& out0 + total.0 == ret.written() + rest.0
                }),
            ensures
                ({
                    let total = decode_with_trap(d0, s, 0, trap);
                    &&& ret.written() == out0 + total.0
                    &&& match total.1 {
                        None => result is Ok,
                        Some(cause) => result == Err::<(), &'static str>(cause),
                    }
                }),
            decreases len - remaining,
        {
            let tail = vstd::slice::slice_subrange(input, remaining, len);
            let ghost t = tail@;
            let ghost dec_before = decoder;
            let ghost written_before = ret.written();
            proof {
                assert(t =~= s.skip(remaining as int));
                lemma_decode_run_stable(dec_before, t);
            }
            let (offset, err) = feed_decoder(&mut decoder, tail, ret);
            let unprocessed = remaining + offset;
            match err {
                Some(err) => {
                    let next = remaining + err.upto as usize;
                    let problem = vstd::slice::slice_subrange(input, unprocessed, next);
                    if !trap.trap(&mut decoder, problem, ret) {
                        result = Err(err.cause);
                        break ;
                    }
                    proof {
                        let run = decode_run(dec_before, t);
                        let rep = trap.spec_replacement().unwrap();
                        let rest = decode_with_trap(decoder, s, next as int, trap);
                        assert(written_before + (run.1 + rep + rest.0) =~= ret.written() + rest.0);
                    }
                    remaining = next;
                },
                None => {
                    let ghost dec_end = decoder;
                    match finish_decoder(&mut decoder, ret) {
                        Some(err) => {
                            let problem = vstd::slice::slice_subrange(input, unprocessed, len);
                            if !trap.trap(&mut decoder, problem, ret) {
                                proof {
                                    assert(ret.written() =~= written_before + decode_run(
                                        dec_before,
                                        t,
                                    ).1);
                                }
                                result = Err(err.cause);
                                break ;
                            }
                            proof {
                                let run = decode_run(dec_before, t);
                                let rep = trap.spec_replacement().unwrap();
                                assert(ret.written() =~= written_before + (run.1 + rep));
                                assert(ret.written() + Seq::<char>::empty() =~= ret.written());
                            }
                        },
                        None => {
                            proof {
                                assert(ret.written() + Seq::<char>::empty() =~= ret.written());
                            }
                        },
                    }
                    result = Ok(());
                    break ;
                },
            }
        }
        result
    }
}

/// The NCR escape of a single character.
proof fn lemma_ncr_escape_short(c: char)
    ensures
        ncr_escape(seq![c]) == seq!['&', '#'] + decimal_digits((c as u32) as nat) + seq![';'],
        encode_utf8(ncr_escape(seq![c])).len() <= 64,
{
    reveal_with_fuel(ncr_escape, 2);
    assert(seq![c].drop_last() =~= Seq::<char>::empty());
    assert(ncr_escape(seq![c]) =~= seq!['&', '#'] + decimal_digits((c as u32) as nat) + seq![';']);
    lemma_decimal_digits_len((c as u32) as nat);
    lemma_ncr_escape_ascii(seq![c]);
    lemma_encode_utf8_ascii_len(ncr_escape(seq![c]));
}

proof fn lemma_decimal_digits_len(n: nat)
    requires
        n <= 0xffff_ffff,
    ensures
        decimal_digits(n).len() <= 10,
{
    assert(pow10(10) == 10000000000) by {
        reveal_with_fuel(pow10, 11);
    }
    lemma_decimal_digits_len_bound2(n, 10);
}

proof fn lemma_decimal_digits_len_bound2(n: nat, k: nat)
    requires
        1 <= k,
        n < pow10(k),
    ensures
        decimal_digits(n).len() <= k,
    decreases n,
{
    if n >= 10 {
        assert(k >= 2) by {
            if k == 1 {
                assert(pow10(1) == 10) by {
                    reveal_with_fuel(pow10, 2);
                }
            }
        }
        assert(n / 10 < pow10((k - 1) as nat)) by {
            assert(pow10(k) == 10 * pow10((k - 1) as nat));
        }
        lemma_decimal_digits_len_bound2(n / 10, (k - 1) as nat);
    }
}

/// Ten to the power of `k`.
pub open spec fn pow10(k: nat) -> nat
    decreases k,
{
    if k == 0 {
        1
    } else {
        10 * pow10((k - 1) as nat)
    }
}

/// ASCII characters take one byte each.
proof fn lemma_encode_utf8_ascii_len(s: Seq<char>)
    requires
        forall|i: int| 0 <= i < s.len() ==> (#[trigger] s[i] as u32) < 0x80,
    ensures
        encode_utf8(s).len() == s.len(),
    decreases s.len(),
{
    if s.len() > 0 {
        assert((s[0] as u32) < 0x80);
        assert forall|i: int| 0 <= i < s.drop_first().len() implies (#[trigger] s.drop_first()[i] as u32) < 0x80 by {
            assert(s.drop_first()[i] == s[i + 1]);
        }
        lemma_encode_utf8_ascii_len(s.drop_first());
    }
}

/// A prefix before the failing character is encoded without error.
pub proof fn lemma_encode_run_prefix_ok<E: RawEncoder>(e: E, s: Seq<char>, k: int)
    requires
        encode_run(e, s).2 == Some(k),
    ensures
        0 <= k < s.len(),
        encode_run(e, s.take(k)).2 is None,
        encode_run(e, s.take(k)).0 == encode_run(e, s).0,
        encode_run(e, s.take(k)).1 == encode_run(e, s).1,
        encode_run(e, s.take(k)).0.spec_encode_char(s[k]) is None,
    decreases s.len(),
{
    let prev = encode_run(e, s.drop_last());
    if prev.2 is Some {
        lemma_encode_run_prefix_ok(e, s.drop_last(), k);
        assert(s.drop_last().take(k) =~= s.take(k));
        assert(s.drop_last()[k] == s[k]);
    } else {
        assert(s.drop_last() =~= s.take(k));
    }
}

} // verus!
