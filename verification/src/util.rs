//! Internal utilities: UTF-8 offsets of characters, a character iterator
//! that reports byte offsets, and the context used by stateful decoders.

use vstd::prelude::*;
use vstd::utf8::*;
use crate::types::{step_error, CodecError, StringWriter};

verus! {

broadcast use vstd::string::group_string_axioms;

/// Byte offset, in the UTF-8 encoding of `s`, of the `k`-th character.
pub open spec fn utf8_offset(s: Seq<char>, k: int) -> int {
    encode_utf8(s.take(k)).len() as int
}

/// Number of bytes in the UTF-8 encoding of `c`.
pub open spec fn utf8_width(c: char) -> int {
    encode_scalar(c as u32).len() as int
}

/// UTF-8 encoding distributes over concatenation.
pub proof fn lemma_encode_utf8_concat(a: Seq<char>, b: Seq<char>)
    ensures
        encode_utf8(a + b) == encode_utf8(a) + encode_utf8(b),
    decreases a.len(),
{
    if a.len() == 0 {
        assert(a + b =~= b);
        assert(encode_utf8(a) =~= Seq::<u8>::empty());
        assert(encode_utf8(a) + encode_utf8(b) =~= encode_utf8(b));
    } else {
        assert((a + b).drop_first() =~= a.drop_first() + b);
        assert((a + b)[0] == a[0]);
        lemma_encode_utf8_concat(a.drop_first(), b);
        assert(encode_utf8(a + b) =~= encode_scalar(a[0] as u32) + encode_utf8(a.drop_first() + b));
        assert(encode_utf8(a) + encode_utf8(b) =~= encode_scalar(a[0] as u32) + (encode_utf8(
            a.drop_first(),
        ) + encode_utf8(b)));
    }
}

/// The offset of the next character is the offset of the current one plus its width.
pub proof fn lemma_utf8_offset_step(s: Seq<char>, k: int)
    requires
        0 <= k < s.len(),
    ensures
        utf8_offset(s, k + 1) == utf8_offset(s, k) + utf8_width(s[k]),
        utf8_width(s[k]) >= 1,
{
    assert(s.take(k + 1) =~= s.take(k) + seq![s[k]]);
    lemma_encode_utf8_concat(s.take(k), seq![s[k]]);
    let one = seq![s[k]];
    assert(one.drop_first() =~= Seq::<char>::empty());
    assert(encode_utf8(one.drop_first()) =~= Seq::<u8>::empty());
    assert(encode_utf8(one) =~= encode_scalar(one[0] as u32));
}

/// Offsets grow with the character index and never exceed the encoded length.
pub proof fn lemma_utf8_offset_mono(s: Seq<char>, j: int, k: int)
    requires
        0 <= j <= k <= s.len(),
    ensures
        0 <= utf8_offset(s, j) <= utf8_offset(s, k) <= encode_utf8(s).len(),
        j < k ==> utf8_offset(s, j) < utf8_offset(s, k),
    decreases k - j,
{
    if j < k {
        lemma_utf8_offset_step(s, j);
        lemma_utf8_offset_mono(s, j + 1, k);
    } else {
        lemma_utf8_suffix(s, k);
    }
}

/// The bytes following the `k`-th offset are the encoding of the remaining characters.
pub proof fn lemma_utf8_suffix(s: Seq<char>, k: int)
    requires
        0 <= k <= s.len(),
    ensures
        encode_utf8(s).subrange(utf8_offset(s, k), encode_utf8(s).len() as int) == encode_utf8(
            s.skip(k),
        ),
        encode_utf8(s).len() == utf8_offset(s, k) + encode_utf8(s.skip(k)).len(),
{
    assert(s =~= s.take(k) + s.skip(k));
    lemma_encode_utf8_concat(s.take(k), s.skip(k));
    assert(encode_utf8(s).subrange(utf8_offset(s, k), encode_utf8(s).len() as int)
        =~= encode_utf8(s.skip(k)));
}

/// Converts a scalar value into a `char`, as `char::from_u32` does.
#[verifier::external_body]
pub fn char_from_u32(v: u32) -> (r: Option<char>)
    ensures
        match r {
            Some(c) => is_scalar(v) && c as u32 == v,
            None => !is_scalar(v),
        },
{
    char::from_u32(v)
}

/// Decodes the character that starts at byte `i` of `bytes`, given that the
/// bytes from `i` on are the UTF-8 encoding of `rest` (which is not empty).
pub fn decode_char_at(bytes: &[u8], i: usize, Ghost(rest): Ghost<Seq<char>>) -> (r: (char, usize))
    requires
        i <= bytes@.len(),
        rest.len() > 0,
        bytes@.subrange(i as int, bytes@.len() as int) == encode_utf8(rest),
    ensures
        r.0 == rest[0],
        r.1 == i + utf8_width(rest[0]),
        r.1 <= bytes@.len(),
{
    let ghost tail = bytes@.subrange(i as int, bytes@.len() as int);
    proof {
        encode_utf8_first_scalar(rest);
        char_is_scalar(rest[0]);
        assert(tail.len() >= length_of_first_scalar(tail));
    }
    let b0 = bytes[i];
    assert(b0 == tail[0]);
    let v: u32;
    let w: usize;
    if b0 <= 0x7f {
        v = (b0 & 0x7f) as u32;
        w = 1;
    } else if b0 <= 0xdf {
        let b1 = bytes[i + 1];
        assert(b1 == tail[1]);
        v = (((b0 & 0x1f) as u32) << 6) | ((b1 & 0x3f) as u32);
        w = 2;
    } else if b0 <= 0xef {
        let b1 = bytes[i + 1];
        let b2 = bytes[i + 2];
        assert(b1 == tail[1] && b2 == tail[2]);
        v = (((b0 & 0x0f) as u32) << 12) | (((b1 & 0x3f) as u32) << 6) | ((b2 & 0x3f) as u32);
        w = 3;
    } else {
        let b1 = bytes[i + 1];
        let b2 = bytes[i + 2];
        let b3 = bytes[i + 3];
        assert(b1 == tail[1] && b2 == tail[2] && b3 == tail[3]);
        v = (((b0 & 0x07) as u32) << 18) | (((b1 & 0x3f) as u32) << 12) | (((b2 & 0x3f) as u32)
            << 6) | ((b3 & 0x3f) as u32);
        w = 4;
    }
    assert(v == decode_first_scalar(tail));
    assert(w == length_of_first_scalar(tail));
    match char_from_u32(v) {
        Some(c) => {
            proof {
                char_u32_cast(rest[0], v);
                char_u32_cast(c, v);
            }
            (c, i + w)
        },
        None => {
            proof {
                assert(false);
            }
            ('\0', i + w)
        },
    }
}

/// External iterator for a string's characters with their byte offset ranges.
pub struct StrCharIndexIterator<'r> {
    index: usize,
    string: &'r str,
    /// Number of characters already produced.
    count: Ghost<nat>,
}

impl<'r> StrCharIndexIterator<'r> {
    /// The iterator's position lies on the boundary of a character.
    pub closed spec fn wf(&self) -> bool {
        &&& self.string@.len() >= 0
        &&& self.count@ <= self.string@.len()
        &&& self.index == utf8_offset(self.string@, self.count@ as int)
    }

    /// The string being iterated.
    pub closed spec fn spec_string(&self) -> Seq<char> {
        self.string@
    }

    /// Number of characters already produced.
    pub closed spec fn spec_count(&self) -> nat {
        self.count@
    }

    /// Starts iterating over `string`.
    pub fn new(string: &'r str) -> (it: Self)
        ensures
            it.wf(),
            it.spec_string() == string@,
            it.spec_count() == 0,
    {
        assert(string@.take(0) =~= Seq::<char>::empty());
        StrCharIndexIterator { index: 0, string, count: Ghost(0) }
    }

    /// Yields the next character with its byte range `(start, end)`.
    pub fn next(&mut self) -> (r: Option<((usize, usize), char)>)
        requires
            old(self).wf(),
        ensures
            final(self).wf(),
            final(self).spec_string() == old(self).spec_string(),
            final(self).spec_count() <= final(self).spec_string().len(),
            old(self).spec_count() < old(self).spec_string().len() ==> {
                let k = old(self).spec_count() as int;
                &&& final(self).spec_count() == k + 1
                &&& r == Some(
                    (
                        (
                            utf8_offset(old(self).spec_string(), k) as usize,
                            utf8_offset(old(self).spec_string(), k + 1) as usize,
                        ),
                        old(self).spec_string()[k],
                    ),
                )
            },
            old(self).spec_count() >= old(self).spec_string().len() ==> {
                &&& r is None
                &&& final(self).spec_count() == old(self).spec_count()
            },
    {
        let ghost s = self.string@;
        let ghost k = self.count@ as int;
        let bytes = self.string.as_bytes();
        proof {
            lemma_utf8_suffix(s, k);
            lemma_utf8_offset_mono(s, k, s.len() as int);
        }
        if self.index < bytes.len() {
            proof {
                if k >= s.len() {
                    assert(s.take(k) =~= s);
                }
            }
            let (ch, next) = decode_char_at(bytes, self.index, Ghost(s.skip(k)));
            proof {
                lemma_utf8_offset_step(s, k);
                assert(s.skip(k)[0] == s[k]);
            }
            let prev = self.index;
            self.index = next;
            self.count = Ghost((k + 1) as nat);
            Some(((prev, next), ch))
        } else {
            proof {
                if k < s.len() {
                    lemma_utf8_offset_step(s, k);
                    lemma_utf8_offset_mono(s, k + 1, s.len() as int);
                }
            }
            None
        }
    }
}

/// A trait providing an `index_iter` method.
pub trait StrCharIndex<'r> {
    /// The characters iterated over.
    spec fn spec_chars(&self) -> Seq<char>;

    /// Iterates over each character with its byte offset range.
    fn index_iter(&self) -> (it: StrCharIndexIterator<'r>)
        ensures
            it.wf(),
            it.spec_string() == self.spec_chars(),
            it.spec_count() == 0,
    ;
}

impl<'r> StrCharIndex<'r> for &'r str {
    open spec fn spec_chars(&self) -> Seq<char> {
        (*self)@
    }

    fn index_iter(&self) -> (it: StrCharIndexIterator<'r>) {
        StrCharIndexIterator::new(*self)
    }
}

/// The position at which the remaining input starts when an error is raised
/// `backup` bytes before the position `pos`; it is never negative.
pub open spec fn backup_position(pos: int, backup: int) -> int {
    if pos < backup {
        0
    } else {
        pos - backup
    }
}

/// The context of a stateful decoder while it reads its input.
pub struct StatefulDecoderHelper<'a> {
    /// The current buffer.
    pub buf: &'a [u8],
    /// The current index to the buffer.
    pub pos: usize,
    /// The last codec error. The caller will later collect this.
    pub err: Option<CodecError>,
}

impl<'a> StatefulDecoderHelper<'a> {
    /// Reads one byte from the buffer if any.
    pub fn read(&mut self) -> (r: Option<u8>)
        ensures
            final(self).buf == old(self).buf,
            final(self).err == old(self).err,
            old(self).pos < old(self).buf@.len() ==> {
                &&& r == Some(old(self).buf@[old(self).pos as int])
                &&& final(self).pos == old(self).pos + 1
            },
            old(self).pos >= old(self).buf@.len() ==> {
                &&& r is None
                &&& final(self).pos == old(self).pos
            },
    {
        if self.pos < self.buf.len() {
            let c = self.buf[self.pos];
            self.pos = self.pos + 1;
            Some(c)
        } else {
            None
        }
    }

    /// Writes one character to the output.
    pub fn emit<W: StringWriter>(&self, output: &mut W, c: char)
        ensures
            final(output).written() == old(output).written().push(c),
    {
        output.write_char(c);
    }

    /// Writes a string to the output.
    pub fn emit_str<W: StringWriter>(&self, output: &mut W, s: &str)
        ensures
            final(output).written() == old(output).written() + s@,
    {
        output.write_str(s);
    }

    /// Issues a codec error with given message at the current position.
    pub fn err(&mut self, msg: &'static str)
        requires
            old(self).pos <= isize::MAX,
        ensures
            final(self).buf == old(self).buf,
            final(self).pos == old(self).pos,
            final(self).err == Some(CodecError { upto: old(self).pos as isize, cause: msg }),
    {
        self.err = Some(CodecError { upto: self.pos as isize, cause: msg });
    }

    /// Issues a codec error with given message at the current position minus `backup` bytes
    /// (but never before the start of the current input).
    /// This implements "prepending bytes to the stream" of the Encoding Standard.
    pub fn backup_and_err(&mut self, backup: usize, msg: &'static str)
        requires
            old(self).pos <= isize::MAX,
        ensures
            final(self).buf == old(self).buf,
            final(self).pos == old(self).pos,
            final(self).err == Some(
                CodecError {
                    upto: backup_position(old(self).pos as int, backup as int) as isize,
                    cause: msg,
                },
            ),
    {
        let upto = if self.pos < backup {
            0
        } else {
            self.pos - backup
        };
        self.err = Some(CodecError { upto: upto as isize, cause: msg });
    }
}

/// The character that a code point stands for, if it is a Unicode scalar value
/// other than `none`, the value that a table gives for "no character".
pub open spec fn mapped_char_except(v: u32, none: u32) -> Option<char> {
    if v != none && vstd::utf8::is_scalar(v) {
        Some(v as char)
    } else {
        None
    }
}

/// The character that a code point stands for, if it is a Unicode scalar value other than 0xffff.
pub open spec fn mapped_char(v: u32) -> Option<char> {
    mapped_char_except(v, 0xffff)
}

/// Emits the character for a looked-up code point, or reports an invalid sequence
/// `backup` bytes back when there is none (the value is `none` or no scalar value).
pub fn emit_mapped_except<W: StringWriter>(
    ctx: &mut StatefulDecoderHelper,
    v: u32,
    none: u32,
    backup: usize,
    output: &mut W,
)
    requires
        old(ctx).err is None,
        old(ctx).pos <= isize::MAX,
    ensures
        final(ctx).buf == old(ctx).buf,
        final(ctx).pos == old(ctx).pos,
        match mapped_char_except(v, none) {
            Some(c) => {
                &&& final(output).written() == old(output).written().push(c)
                &&& final(ctx).err is None
            },
            None => {
                &&& final(output).written() == old(output).written()
                &&& final(ctx).err == step_error(
                    Some((backup as nat, crate::types::INVALID_SEQUENCE)),
                    old(ctx).pos as int,
                )
            },
        },
{
    if v != none {
        match char_from_u32(v) {
            Some(c) => {
                proof {
                    vstd::utf8::char_u32_cast(c, v);
                }
                ctx.emit(output, c);
                return;
            },
            None => {},
        }
    }
    ctx.backup_and_err(backup, crate::types::INVALID_SEQUENCE);
}

/// Emits the character for a looked-up code point, or reports an invalid sequence
/// `backup` bytes back when there is none (the value is 0xffff or no scalar value).
pub fn emit_mapped<W: StringWriter>(
    ctx: &mut StatefulDecoderHelper,
    v: u32,
    backup: usize,
    output: &mut W,
)
    requires
        old(ctx).err is None,
        old(ctx).pos <= isize::MAX,
    ensures
        final(ctx).buf == old(ctx).buf,
        final(ctx).pos == old(ctx).pos,
        match mapped_char(v) {
            Some(c) => {
                &&& final(output).written() == old(output).written().push(c)
                &&& final(ctx).err is None
            },
            None => {
                &&& final(output).written() == old(output).written()
                &&& final(ctx).err == step_error(
                    Some((backup as nat, crate::types::INVALID_SEQUENCE)),
                    old(ctx).pos as int,
                )
            },
        },
{
    emit_mapped_except(ctx, v, 0xffff, backup, output);
}

/// The offset of every character index is a character boundary.
pub proof fn lemma_utf8_offset_boundary(s: Seq<char>, k: int)
    requires
        0 <= k <= s.len(),
    ensures
        is_char_boundary(encode_utf8(s), utf8_offset(s, k)),
    decreases k,
{
    encode_utf8_valid_utf8(s);
    if k > 0 {
        let bytes = encode_utf8(s);
        let rest = s.drop_first();
        encode_utf8_first_scalar(s);
        assert(pop_first_scalar(bytes) =~= encode_utf8(rest));
        assert(s.take(k) =~= seq![s[0]] + rest.take(k - 1));
        lemma_encode_utf8_concat(seq![s[0]], rest.take(k - 1));
        let one = seq![s[0]];
        assert(one.drop_first() =~= Seq::<char>::empty());
        assert(encode_utf8(one.drop_first()) =~= Seq::<u8>::empty());
        assert(encode_utf8(one) =~= encode_scalar(one[0] as u32));
        lemma_utf8_offset_boundary(rest, k - 1);
        encode_utf8_valid_utf8(rest);
        lemma_utf8_offset_mono(s, k, s.len() as int);
    }
}

/// Two character sequences with the same encoding are equal.
pub proof fn lemma_encode_utf8_injective(a: Seq<char>, b: Seq<char>)
    requires
        encode_utf8(a) == encode_utf8(b),
    ensures
        a == b,
{
    encode_utf8_decode_utf8(a);
    encode_utf8_decode_utf8(b);
}

/// The part of `input` between the `j`-th and the `k`-th character, given by their byte offsets.
pub fn str_slice<'a>(input: &'a str, from: usize, to: usize, Ghost(j): Ghost<int>, Ghost(k): Ghost<int>) -> (r: &'a str)
    requires
        0 <= j <= k <= input@.len(),
        from == utf8_offset(input@, j),
        to == utf8_offset(input@, k),
    ensures
        r@ == input@.subrange(j, k),
{
    let ghost s = input@;
    proof {
        lemma_utf8_offset_boundary(s, k);
        lemma_utf8_offset_mono(s, k, s.len() as int);
    }
    let (prefix, _) = input.split_at(to);
    proof {
        assert(s =~= s.take(k) + s.skip(k));
        lemma_encode_utf8_concat(s.take(k), s.skip(k));
        assert(encode_utf8(prefix@) =~= encode_utf8(s.take(k)));
        lemma_encode_utf8_injective(prefix@, s.take(k));
        let t = s.take(k);
        assert(t.take(j) =~= s.take(j));
        lemma_utf8_offset_boundary(t, j);
        lemma_utf8_offset_mono(t, j, t.len() as int);
    }
    let (_, r) = prefix.split_at(from);
    proof {
        let t = s.take(k);
        assert(t =~= t.take(j) + t.skip(j));
        lemma_encode_utf8_concat(t.take(j), t.skip(j));
        assert(encode_utf8(r@) =~= encode_utf8(t.skip(j)));
        lemma_encode_utf8_injective(r@, t.skip(j));
        assert(t.skip(j) =~= s.subrange(j, k));
    }
    r
}

/// Offsets within a suffix of `s` are offsets within `s` shifted by the offset of the suffix.
pub proof fn lemma_utf8_offset_skip(s: Seq<char>, c: int, k: int)
    requires
        0 <= c <= s.len(),
        0 <= k <= s.len() - c,
    ensures
        utf8_offset(s, c + k) == utf8_offset(s, c) + utf8_offset(s.skip(c), k),
{
    assert(s.take(c + k) =~= s.take(c) + s.skip(c).take(k));
    lemma_encode_utf8_concat(s.take(c), s.skip(c).take(k));
}

} // verus!
