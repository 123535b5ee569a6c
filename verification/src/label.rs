//! An interface for retrieving an encoding (or a set of encodings) from a string/numeric label.

use vstd::prelude::*;
use crate::all;
use crate::encoding_ref::EncodingRef;
use crate::types::Encoding;
use crate::util::StrCharIndexIterator;

verus! {

/// The characters that surround a label and are not a part of it.
pub open spec fn is_label_space(c: char) -> bool {
    c == ' ' || c == '\n' || c == '\r' || c == '\t' || c == '\x0C'
}

/// `s` without its leading label spaces.
pub open spec fn trim_start(s: Seq<char>) -> Seq<char>
    decreases s.len(),
{
    if s.len() > 0 && is_label_space(s[0]) {
        trim_start(s.drop_first())
    } else {
        s
    }
}

/// `s` without its trailing label spaces.
pub open spec fn trim_end(s: Seq<char>) -> Seq<char>
    decreases s.len(),
{
    if s.len() > 0 && is_label_space(s.last()) {
        trim_end(s.drop_last())
    } else {
        s
    }
}

/// ASCII lowercasing of a character; other characters stay as they are.
pub open spec fn ascii_lower(c: char) -> char {
    if 'A' <= c <= 'Z' {
        ((c as u32) + 32) as char
    } else {
        c
    }
}

/// A label trimmed of surrounding spaces and lowercased in the ASCII range.
pub open spec fn normalize_label(s: Seq<char>) -> Seq<char> {
    trim_end(trim_start(s)).map_values(|c: char| ascii_lower(c))
}

/// Trimming the start of a suffix after leading spaces gives the same.
proof fn lemma_trim_start_skip(s: Seq<char>, i: int)
    requires
        0 <= i <= s.len(),
        forall|k: int| 0 <= k < i ==> is_label_space(#[trigger] s[k]),
    ensures
        trim_start(s) == trim_start(s.skip(i)),
    decreases i,
{
    if i > 0 {
        assert(s.drop_first().skip(i - 1) =~= s.skip(i));
        assert forall|k: int| 0 <= k < i - 1 implies is_label_space(#[trigger] s.drop_first()[k]) by {
            assert(s.drop_first()[k] == s[k + 1]);
        }
        lemma_trim_start_skip(s.drop_first(), i - 1);
    } else {
        assert(s.skip(0) =~= s);
    }
}

/// Trimming the end of a prefix before trailing spaces gives the same.
proof fn lemma_trim_end_take(s: Seq<char>, j: int)
    requires
        0 <= j <= s.len(),
        forall|k: int| j <= k < s.len() ==> is_label_space(#[trigger] s[k]),
    ensures
        trim_end(s) == trim_end(s.take(j)),
    decreases s.len() - j,
{
    if j < s.len() {
        assert(s.drop_last().take(j) =~= s.take(j));
        lemma_trim_end_take(s.drop_last(), j);
    } else {
        assert(s.take(j) =~= s);
    }
}

/// What `trim_start` leaves does not start with a label space.
proof fn lemma_trim_start_front(s: Seq<char>)
    ensures
        trim_start(s).len() == 0 || !is_label_space(trim_start(s)[0]),
    decreases s.len(),
{
    if s.len() > 0 && is_label_space(s[0]) {
        lemma_trim_start_front(s.drop_first());
    }
}

/// What `trim_end` leaves is a prefix of its argument that does not end with a label space.
proof fn lemma_trim_end_prefix(s: Seq<char>)
    ensures
        trim_end(s).len() <= s.len(),
        trim_end(s) == s.take(trim_end(s).len() as int),
        trim_end(s).len() == 0 || !is_label_space(trim_end(s).last()),
    decreases s.len(),
{
    if s.len() > 0 && is_label_space(s.last()) {
        lemma_trim_end_prefix(s.drop_last());
        assert(s.drop_last().take(trim_end(s).len() as int) =~= s.take(trim_end(s).len() as int));
    } else {
        assert(s.take(s.len() as int) =~= s);
    }
}

/// Lowercasing in the ASCII range turns no character into a label space, nor a label
/// space into another character, and lowercasing twice is lowercasing once.
proof fn lemma_ascii_lower(c: char)
    ensures
        is_label_space(ascii_lower(c)) == is_label_space(c),
        ascii_lower(ascii_lower(c)) == ascii_lower(c),
{
}

/// A label that is already normalized stays as it is: looking up a label and looking up
/// its normalized form find the same encoding.
pub proof fn lemma_normalize_label_idempotent(s: Seq<char>)
    ensures
        normalize_label(normalize_label(s)) == normalize_label(s),
        whatwg_label_encoding(normalize_label(normalize_label(s))) == whatwg_label_encoding(
            normalize_label(s),
        ),
{
    let t0 = trim_start(s);
    let t = trim_end(t0);
    let m = normalize_label(s);
    lemma_trim_start_front(s);
    lemma_trim_end_prefix(t0);
    assert(m.len() == t.len());
    if m.len() > 0 {
        assert(t[0] == t0[0]);
        lemma_ascii_lower(t[0]);
        lemma_ascii_lower(t.last());
        assert(m[0] == ascii_lower(t[0]));
        assert(m.last() == ascii_lower(t.last()));
        assert(trim_start(m) == m);
        assert(trim_end(m) == m);
    } else {
        assert(trim_start(m) == m);
        assert(trim_end(m) == m);
    }
    assert forall|k: int| 0 <= k < m.len() implies #[trigger] ascii_lower(m[k]) == m[k] by {
        lemma_ascii_lower(t[k]);
    }
    assert(normalize_label(m) =~= m);
}

/// The characters of `s`.
fn collect_chars(s: &str) -> (r: Vec<char>)
    ensures
        r@ == s@,
{
    let mut v: Vec<char> = Vec::new();
    let mut it = StrCharIndexIterator::new(s);
    loop
        invariant_except_break
            it.wf(),
            it.spec_string() == s@,
            it.spec_count() <= s@.len(),
            v@ == s@.take(it.spec_count() as int),
        ensures
            v@ == s@,
        decreases s@.len() - it.spec_count(),
    {
        let ghost k = it.spec_count() as int;
        match it.next() {
            Some((_, c)) => {
                v.push(c);
                assert(v@ =~= s@.take(k + 1));
            },
            None => {
                assert(s@.take(k) =~= s@);
                break ;
            },
        }
    }
    v
}

/// Is `c` one of the characters surrounding a label?
fn label_space(c: char) -> (r: bool)
    ensures
        r == is_label_space(c),
{
    c == ' ' || c == '\n' || c == '\r' || c == '\t' || c == '\x0C'
}

/// Trims the label of surrounding spaces and lowercases it in the ASCII range.
pub fn normalize(label: &str) -> (r: Vec<char>)
    ensures
        r@ == normalize_label(label@),
{
    let v = collect_chars(label);
    let ghost s = v@;
    let n = v.len();
    let mut i: usize = 0;
    while i < n && label_space(v[i])
        invariant
            i <= n,
            n == s.len(),
            s == v@,
            forall|k: int| 0 <= k < i ==> is_label_space(#[trigger] s[k]),
        decreases n - i,
    {
        i = i + 1;
    }
    proof {
        lemma_trim_start_skip(s, i as int);
        if (i as int) < s.len() {
            assert(s.skip(i as int)[0] == s[i as int]);
        }
    }
    let mut j: usize = n;
    while j > i && label_space(v[j - 1])
        invariant
            i <= j <= n,
            n == s.len(),
            s == v@,
            forall|k: int| j <= k < n ==> is_label_space(#[trigger] s[k]),
        decreases j - i,
    {
        j = j - 1;
    }
    let ghost t = s.skip(i as int);
    proof {
        assert forall|k: int| j - i <= k < t.len() implies is_label_space(#[trigger] t[k]) by {
            assert(t[k] == s[k + i]);
        }
        lemma_trim_end_take(t, j - i);
        assert(t.take(j - i) =~= s.subrange(i as int, j as int));
        if j > i {
            assert(t.take(j - i).last() == s[j - 1]);
        }
    }
    let mut r: Vec<char> = Vec::new();
    let mut k: usize = i;
    while k < j
        invariant
            i <= k <= j <= n,
            n == s.len(),
            s == v@,
            r@ == s.subrange(i as int, k as int).map_values(|c: char| ascii_lower(c)),
        decreases j - k,
    {
        let c = v[k];
        let l = if 'A' <= c && c <= 'Z' {
            ((c as u8) + 32) as char
        } else {
            c
        };
        proof {
            if 'A' <= c && c <= 'Z' {
                let b = c as u8;
                assert(b == c as u32);
                assert(((b + 32) as u8) as char == ((c as u32) + 32) as char);
            }
        }
        r.push(l);
        k = k + 1;
        assert(r@ =~= s.subrange(i as int, k as int).map_values(|c: char| ascii_lower(c)));
    }
    r
}

/// Do the characters `v` spell `lit`?
fn chars_eq(v: &Vec<char>, lit: &str) -> (r: bool)
    ensures
        r == (v@ == lit@),
{
    let mut it = StrCharIndexIterator::new(lit);
    let mut k: usize = 0;
    loop
        invariant
            it.wf(),
            it.spec_string() == lit@,
            k == it.spec_count(),
            k <= v@.len(),
            k <= lit@.len(),
            v@.take(k as int) == lit@.take(k as int),
        decreases lit@.len() - k,
    {
        match it.next() {
            Some((_, c)) => {
                if k >= v.len() || v[k] != c {
                    proof {
                        if v@ == lit@ {
                            assert(v@[k as int] == lit@[k as int]);
                        }
                    }
                    return false;
                }
                k = k + 1;
                assert(v@.take(k as int) =~= lit@.take(k as int));
            },
            None => {
                proof {
                    assert(lit@.take(k as int) =~= lit@);
                    if k == v.len() {
                        assert(v@.take(k as int) =~= v@);
                    } else {
                        assert(v@.len() != lit@.len());
                    }
                }
                return k == v.len();
            },
        }
    }
}

/// The labels of UTF_8.
pub open spec fn is_utf_8_label(s: Seq<char>) -> bool {
    s == "unicode-1-1-utf-8"@
        || s == "utf-8"@
        || s == "utf8"@
}

/// Is `v` a label of UTF_8?
fn check_utf_8_label(v: &Vec<char>) -> (r: bool)
    ensures
        r == is_utf_8_label(v@),
{
    chars_eq(v, "unicode-1-1-utf-8")
        || chars_eq(v, "utf-8")
        || chars_eq(v, "utf8")
}

/// The labels of IBM866.
pub open spec fn is_ibm866_label(s: Seq<char>) -> bool {
    s == "866"@
        || s == "cp866"@
        || s == "csibm866"@
        || s == "ibm866"@
}

/// Is `v` a label of IBM866?
fn check_ibm866_label(v: &Vec<char>) -> (r: bool)
    ensures
        r == is_ibm866_label(v@),
{
    chars_eq(v, "866")
        || chars_eq(v, "cp866")
        || chars_eq(v, "csibm866")
        || chars_eq(v, "ibm866")
}

/// The labels of ISO_8859_2.
pub open spec fn is_iso_8859_2_label(s: Seq<char>) -> bool {
    s == "csisolatin2"@
        || s == "iso-8859-2"@
        || s == "iso-ir-101"@
        || s == "iso8859-2"@
        || s == "iso88592"@
        || s == "iso_8859-2"@
        || s == "iso_8859-2:1987"@
        || s == "l2"@
        || s == "latin2"@
}

/// Is `v` a label of ISO_8859_2?
fn check_iso_8859_2_label(v: &Vec<char>) -> (r: bool)
    ensures
        r == is_iso_8859_2_label(v@),
{
    chars_eq(v, "csisolatin2")
        || chars_eq(v, "iso-8859-2")
        || chars_eq(v, "iso-ir-101")
        || chars_eq(v, "iso8859-2")
        || chars_eq(v, "iso88592")
        || chars_eq(v, "iso_8859-2")
        || chars_eq(v, "iso_8859-2:1987")
        || chars_eq(v, "l2")
        || chars_eq(v, "latin2")
}

/// The labels of ISO_8859_3.
pub open spec fn is_iso_8859_3_label(s: Seq<char>) -> bool {
    s == "csisolatin3"@
        || s == "iso-8859-3"@
        || s == "iso-ir-109"@
        || s == "iso8859-3"@
        || s == "iso88593"@
        || s == "iso_8859-3"@
        || s == "iso_8859-3:1988"@
        || s == "l3"@
        || s == "latin3"@
}

/// Is `v` a label of ISO_8859_3?
fn check_iso_8859_3_label(v: &Vec<char>) -> (r: bool)
    ensures
        r == is_iso_8859_3_label(v@),
{
    chars_eq(v, "csisolatin3")
        || chars_eq(v, "iso-8859-3")
        || chars_eq(v, "iso-ir-109")
        || chars_eq(v, "iso8859-3")
        || chars_eq(v, "iso88593")
        || chars_eq(v, "iso_8859-3")
        || chars_eq(v, "iso_8859-3:1988")
        || chars_eq(v, "l3")
        || chars_eq(v, "latin3")
}

/// The labels of ISO_8859_4.
pub open spec fn is_iso_8859_4_label(s: Seq<char>) -> bool {
    s == "csisolatin4"@
        || s == "iso-8859-4"@
        || s == "iso-ir-110"@
        || s == "iso8859-4"@
        || s == "iso88594"@
        || s == "iso_8859-4"@
        || s == "iso_8859-4:1988"@
        || s == "l4"@
        || s == "latin4"@
}

/// Is `v` a label of ISO_8859_4?
fn check_iso_8859_4_label(v: &Vec<char>) -> (r: bool)
    ensures
        r == is_iso_8859_4_label(v@),
{
    chars_eq(v, "csisolatin4")
        || chars_eq(v, "iso-8859-4")
        || chars_eq(v, "iso-ir-110")
        || chars_eq(v, "iso8859-4")
        || chars_eq(v, "iso88594")
        || chars_eq(v, "iso_8859-4")
        || chars_eq(v, "iso_8859-4:1988")
        || chars_eq(v, "l4")
        || chars_eq(v, "latin4")
}

/// The labels of ISO_8859_5.
pub open spec fn is_iso_8859_5_label(s: Seq<char>) -> bool {
    s == "csisolatincyrillic"@
        || s == "cyrillic"@
        || s == "iso-8859-5"@
        || s == "iso-ir-144"@
        || s == "iso8859-5"@
        || s == "iso88595"@
        || s == "iso_8859-5"@
        || s == "iso_8859-5:1988"@
}

/// Is `v` a label of ISO_8859_5?
fn check_iso_8859_5_label(v: &Vec<char>) -> (r: bool)
    ensures
        r == is_iso_8859_5_label(v@),
{
    chars_eq(v, "csisolatincyrillic")
        || chars_eq(v, "cyrillic")
        || chars_eq(v, "iso-8859-5")
        || chars_eq(v, "iso-ir-144")
        || chars_eq(v, "iso8859-5")
        || chars_eq(v, "iso88595")
        || chars_eq(v, "iso_8859-5")
        || chars_eq(v, "iso_8859-5:1988")
}

/// The labels of ISO_8859_6.
pub open spec fn is_iso_8859_6_label(s: Seq<char>) -> bool {
    s == "arabic"@
        || s == "asmo-708"@
        || s == "csiso88596e"@
        || s == "csiso88596i"@
        || s == "csisolatinarabic"@
        || s == "ecma-114"@
        || s == "iso-8859-6"@
        || s == "iso-8859-6-e"@
        || s == "iso-8859-6-i"@
        || s == "iso-ir-127"@
        || s == "iso8859-6"@
        || s == "iso88596"@
        || s == "iso_8859-6"@
        || s == "iso_8859-6:1987"@
}

/// Is `v` a label of ISO_8859_6?
fn check_iso_8859_6_label(v: &Vec<char>) -> (r: bool)
    ensures
        r == is_iso_8859_6_label(v@),
{
    chars_eq(v, "arabic")
        || chars_eq(v, "asmo-708")
        || chars_eq(v, "csiso88596e")
        || chars_eq(v, "csiso88596i")
        || chars_eq(v, "csisolatinarabic")
        || chars_eq(v, "ecma-114")
        || chars_eq(v, "iso-8859-6")
        || chars_eq(v, "iso-8859-6-e")
        || chars_eq(v, "iso-8859-6-i")
        || chars_eq(v, "iso-ir-127")
        || chars_eq(v, "iso8859-6")
        || chars_eq(v, "iso88596")
        || chars_eq(v, "iso_8859-6")
        || chars_eq(v, "iso_8859-6:1987")
}

/// The labels of ISO_8859_7.
pub open spec fn is_iso_8859_7_label(s: Seq<char>) -> bool {
    s == "csisolatingreek"@
        || s == "ecma-118"@
        || s == "elot_928"@
        || s == "greek"@
        || s == "greek8"@
        || s == "iso-8859-7"@
        || s == "iso-ir-126"@
        || s == "iso8859-7"@
        || s == "iso88597"@
        || s == "iso_8859-7"@
        || s == "iso_8859-7:1987"@
        || s == "sun_eu_greek"@
}

/// Is `v` a label of ISO_8859_7?
fn check_iso_8859_7_label(v: &Vec<char>) -> (r: bool)
    ensures
        r == is_iso_8859_7_label(v@),
{
    chars_eq(v, "csisolatingreek")
        || chars_eq(v, "ecma-118")
        || chars_eq(v, "elot_928")
        || chars_eq(v, "greek")
        || chars_eq(v, "greek8")
        || chars_eq(v, "iso-8859-7")
        || chars_eq(v, "iso-ir-126")
        || chars_eq(v, "iso8859-7")
        || chars_eq(v, "iso88597")
        || chars_eq(v, "iso_8859-7")
        || chars_eq(v, "iso_8859-7:1987")
        || chars_eq(v, "sun_eu_greek")
}

/// The labels of ISO_8859_8.
pub open spec fn is_iso_8859_8_label(s: Seq<char>) -> bool {
    s == "csiso88598e"@
        || s == "csisolatinhebrew"@
        || s == "hebrew"@
        || s == "iso-8859-8"@
        || s == "iso-8859-8-e"@
        || s == "iso-ir-138"@
        || s == "iso8859-8"@
        || s == "iso88598"@
        || s == "iso_8859-8"@
        || s == "iso_8859-8:1988"@
        || s == "visual"@
}

/// Is `v` a label of ISO_8859_8?
fn check_iso_8859_8_label(v: &Vec<char>) -> (r: bool)
    ensures
        r == is_iso_8859_8_label(v@),
{
    chars_eq(v, "csiso88598e")
        || chars_eq(v, "csisolatinhebrew")
        || chars_eq(v, "hebrew")
        || chars_eq(v, "iso-8859-8")
        || chars_eq(v, "iso-8859-8-e")
        || chars_eq(v, "iso-ir-138")
        || chars_eq(v, "iso8859-8")
        || chars_eq(v, "iso88598")
        || chars_eq(v, "iso_8859-8")
        || chars_eq(v, "iso_8859-8:1988")
        || chars_eq(v, "visual")
}

/// The labels of ISO_8859_8_I.
pub open spec fn is_iso_8859_8_i_label(s: Seq<char>) -> bool {
    s == "csiso88598i"@
        || s == "iso-8859-8-i"@
        || s == "logical"@
}

/// Is `v` a label of ISO_8859_8_I?
fn check_iso_8859_8_i_label(v: &Vec<char>) -> (r: bool)
    ensures
        r == is_iso_8859_8_i_label(v@),
{
    chars_eq(v, "csiso88598i")
        || chars_eq(v, "iso-8859-8-i")
        || chars_eq(v, "logical")
}

/// The labels of ISO_8859_10.
pub open spec fn is_iso_8859_10_label(s: Seq<char>) -> bool {
    s == "csisolatin6"@
        || s == "iso-8859-10"@
        || s == "iso-ir-157"@
        || s == "iso8859-10"@
        || s == "iso885910"@
        || s == "l6"@
        || s == "latin6"@
}

/// Is `v` a label of ISO_8859_10?
fn check_iso_8859_10_label(v: &Vec<char>) -> (r: bool)
    ensures
        r == is_iso_8859_10_label(v@),
{
    chars_eq(v, "csisolatin6")
        || chars_eq(v, "iso-8859-10")
        || chars_eq(v, "iso-ir-157")
        || chars_eq(v, "iso8859-10")
        || chars_eq(v, "iso885910")
        || chars_eq(v, "l6")
        || chars_eq(v, "latin6")
}

/// The labels of ISO_8859_13.
pub open spec fn is_iso_8859_13_label(s: Seq<char>) -> bool {
    s == "iso-8859-13"@
        || s == "iso8859-13"@
        || s == "iso885913"@
}

/// Is `v` a label of ISO_8859_13?
fn check_iso_8859_13_label(v: &Vec<char>) -> (r: bool)
    ensures
        r == is_iso_8859_13_label(v@),
{
    chars_eq(v, "iso-8859-13")
        || chars_eq(v, "iso8859-13")
        || chars_eq(v, "iso885913")
}

/// The labels of ISO_8859_14.
pub open spec fn is_iso_8859_14_label(s: Seq<char>) -> bool {
    s == "iso-8859-14"@
        || s == "iso8859-14"@
        || s == "iso885914"@
}

/// Is `v` a label of ISO_8859_14?
fn check_iso_8859_14_label(v: &Vec<char>) -> (r: bool)
    ensures
        r == is_iso_8859_14_label(v@),
{
    chars_eq(v, "iso-8859-14")
        || chars_eq(v, "iso8859-14")
        || chars_eq(v, "iso885914")
}

/// The labels of ISO_8859_15.
pub open spec fn is_iso_8859_15_label(s: Seq<char>) -> bool {
    s == "csisolatin9"@
        || s == "iso-8859-15"@
        || s == "iso8859-15"@
        || s == "iso885915"@
        || s == "iso_8859-15"@
        || s == "l9"@
}

/// Is `v` a label of ISO_8859_15?
fn check_iso_8859_15_label(v: &Vec<char>) -> (r: bool)
    ensures
        r == is_iso_8859_15_label(v@),
{
    chars_eq(v, "csisolatin9")
        || chars_eq(v, "iso-8859-15")
        || chars_eq(v, "iso8859-15")
        || chars_eq(v, "iso885915")
        || chars_eq(v, "iso_8859-15")
        || chars_eq(v, "l9")
}

/// The labels of ISO_8859_16.
pub open spec fn is_iso_8859_16_label(s: Seq<char>) -> bool {
    s == "iso-8859-16"@
}

/// Is `v` a label of ISO_8859_16?
fn check_iso_8859_16_label(v: &Vec<char>) -> (r: bool)
    ensures
        r == is_iso_8859_16_label(v@),
{
    chars_eq(v, "iso-8859-16")
}

/// The labels of KOI8_R.
pub open spec fn is_koi8_r_label(s: Seq<char>) -> bool {
    s == "cskoi8r"@
        || s == "koi"@
        || s == "koi8"@
        || s == "koi8-r"@
        || s == "koi8_r"@
}

/// Is `v` a label of KOI8_R?
fn check_koi8_r_label(v: &Vec<char>) -> (r: bool)
    ensures
        r == is_koi8_r_label(v@),
{
    chars_eq(v, "cskoi8r")
        || chars_eq(v, "koi")
        || chars_eq(v, "koi8")
        || chars_eq(v, "koi8-r")
        || chars_eq(v, "koi8_r")
}

/// The labels of KOI8_U.
pub open spec fn is_koi8_u_label(s: Seq<char>) -> bool {
    s == "koi8-u"@
}

/// Is `v` a label of KOI8_U?
fn check_koi8_u_label(v: &Vec<char>) -> (r: bool)
    ensures
        r == is_koi8_u_label(v@),
{
    chars_eq(v, "koi8-u")
}

/// The labels of MAC_ROMAN.
pub open spec fn is_mac_roman_label(s: Seq<char>) -> bool {
    s == "csmacintosh"@
        || s == "mac"@
        || s == "macintosh"@
        || s == "x-mac-roman"@
}

/// Is `v` a label of MAC_ROMAN?
fn check_mac_roman_label(v: &Vec<char>) -> (r: bool)
    ensures
        r == is_mac_roman_label(v@),
{
    chars_eq(v, "csmacintosh")
        || chars_eq(v, "mac")
        || chars_eq(v, "macintosh")
        || chars_eq(v, "x-mac-roman")
}

/// The labels of WINDOWS_874.
pub open spec fn is_windows_874_label(s: Seq<char>) -> bool {
    s == "dos-874"@
        || s == "iso-8859-11"@
        || s == "iso8859-11"@
        || s == "iso885911"@
        || s == "tis-620"@
        || s == "windows-874"@
}

/// Is `v` a label of WINDOWS_874?
fn check_windows_874_label(v: &Vec<char>) -> (r: bool)
    ensures
        r == is_windows_874_label(v@),
{
    chars_eq(v, "dos-874")
        || chars_eq(v, "iso-8859-11")
        || chars_eq(v, "iso8859-11")
        || chars_eq(v, "iso885911")
        || chars_eq(v, "tis-620")
        || chars_eq(v, "windows-874")
}

/// The labels of WINDOWS_1250.
pub open spec fn is_windows_1250_label(s: Seq<char>) -> bool {
    s == "cp1250"@
        || s == "windows-1250"@
        || s == "x-cp1250"@
}

/// Is `v` a label of WINDOWS_1250?
fn check_windows_1250_label(v: &Vec<char>) -> (r: bool)
    ensures
        r == is_windows_1250_label(v@),
{
    chars_eq(v, "cp1250")
        || chars_eq(v, "windows-1250")
        || chars_eq(v, "x-cp1250")
}

/// The labels of WINDOWS_1251.
pub open spec fn is_windows_1251_label(s: Seq<char>) -> bool {
    s == "cp1251"@
        || s == "windows-1251"@
        || s == "x-cp1251"@
}

/// Is `v` a label of WINDOWS_1251?
fn check_windows_1251_label(v: &Vec<char>) -> (r: bool)
    ensures
        r == is_windows_1251_label(v@),
{
    chars_eq(v, "cp1251")
        || chars_eq(v, "windows-1251")
        || chars_eq(v, "x-cp1251")
}

/// The labels of WINDOWS_1252.
pub open spec fn is_windows_1252_label(s: Seq<char>) -> bool {
    s == "ansi_x3.4-1968"@
        || s == "ascii"@
        || s == "cp1252"@
        || s == "cp819"@
        || s == "csisolatin1"@
        || s == "ibm819"@
        || s == "iso-8859-1"@
        || s == "iso-ir-100"@
        || s == "iso8859-1"@
        || s == "iso88591"@
        || s == "iso_8859-1"@
        || s == "iso_8859-1:1987"@
        || s == "l1"@
        || s == "latin1"@
        || s == "us-ascii"@
        || s == "windows-1252"@
        || s == "x-cp1252"@
}

/// Is `v` a label of WINDOWS_1252?
fn check_windows_1252_label(v: &Vec<char>) -> (r: bool)
    ensures
        r == is_windows_1252_label(v@),
{
    chars_eq(v, "ansi_x3.4-1968")
        || chars_eq(v, "ascii")
        || chars_eq(v, "cp1252")
        || chars_eq(v, "cp819")
        || chars_eq(v, "csisolatin1")
        || chars_eq(v, "ibm819")
        || chars_eq(v, "iso-8859-1")
        || chars_eq(v, "iso-ir-100")
        || chars_eq(v, "iso8859-1")
        || chars_eq(v, "iso88591")
        || chars_eq(v, "iso_8859-1")
        || chars_eq(v, "iso_8859-1:1987")
        || chars_eq(v, "l1")
        || chars_eq(v, "latin1")
        || chars_eq(v, "us-ascii")
        || chars_eq(v, "windows-1252")
        || chars_eq(v, "x-cp1252")
}

/// The labels of WINDOWS_1253.
pub open spec fn is_windows_1253_label(s: Seq<char>) -> bool {
    s == "cp1253"@
        || s == "windows-1253"@
        || s == "x-cp1253"@
}

/// Is `v` a label of WINDOWS_1253?
fn check_windows_1253_label(v: &Vec<char>) -> (r: bool)
    ensures
        r == is_windows_1253_label(v@),
{
    chars_eq(v, "cp1253")
        || chars_eq(v, "windows-1253")
        || chars_eq(v, "x-cp1253")
}

/// The labels of WINDOWS_1254.
pub open spec fn is_windows_1254_label(s: Seq<char>) -> bool {
    s == "cp1254"@
        || s == "csisolatin5"@
        || s == "iso-8859-9"@
        || s == "iso-ir-148"@
        || s == "iso8859-9"@
        || s == "iso88599"@
        || s == "iso_8859-9"@
        || s == "iso_8859-9:1989"@
        || s == "l5"@
        || s == "latin5"@
        || s == "windows-1254"@
        || s == "x-cp1254"@
}

/// Is `v` a label of WINDOWS_1254?
fn check_windows_1254_label(v: &Vec<char>) -> (r: bool)
    ensures
        r == is_windows_1254_label(v@),
{
    chars_eq(v, "cp1254")
        || chars_eq(v, "csisolatin5")
        || chars_eq(v, "iso-8859-9")
        || chars_eq(v, "iso-ir-148")
        || chars_eq(v, "iso8859-9")
        || chars_eq(v, "iso88599")
        || chars_eq(v, "iso_8859-9")
        || chars_eq(v, "iso_8859-9:1989")
        || chars_eq(v, "l5")
        || chars_eq(v, "latin5")
        || chars_eq(v, "windows-1254")
        || chars_eq(v, "x-cp1254")
}

/// The labels of WINDOWS_1255.
pub open spec fn is_windows_1255_label(s: Seq<char>) -> bool {
    s == "cp1255"@
        || s == "windows-1255"@
        || s == "x-cp1255"@
}

/// Is `v` a label of WINDOWS_1255?
fn check_windows_1255_label(v: &Vec<char>) -> (r: bool)
    ensures
        r == is_windows_1255_label(v@),
{
    chars_eq(v, "cp1255")
        || chars_eq(v, "windows-1255")
        || chars_eq(v, "x-cp1255")
}

/// The labels of WINDOWS_1256.
pub open spec fn is_windows_1256_label(s: Seq<char>) -> bool {
    s == "cp1256"@
        || s == "windows-1256"@
        || s == "x-cp1256"@
}

/// Is `v` a label of WINDOWS_1256?
fn check_windows_1256_label(v: &Vec<char>) -> (r: bool)
    ensures
        r == is_windows_1256_label(v@),
{
    chars_eq(v, "cp1256")
        || chars_eq(v, "windows-1256")
        || chars_eq(v, "x-cp1256")
}

/// The labels of WINDOWS_1257.
pub open spec fn is_windows_1257_label(s: Seq<char>) -> bool {
    s == "cp1257"@
        || s == "windows-1257"@
        || s == "x-cp1257"@
}

/// Is `v` a label of WINDOWS_1257?
fn check_windows_1257_label(v: &Vec<char>) -> (r: bool)
    ensures
        r == is_windows_1257_label(v@),
{
    chars_eq(v, "cp1257")
        || chars_eq(v, "windows-1257")
        || chars_eq(v, "x-cp1257")
}

/// The labels of WINDOWS_1258.
pub open spec fn is_windows_1258_label(s: Seq<char>) -> bool {
    s == "cp1258"@
        || s == "windows-1258"@
        || s == "x-cp1258"@
}

/// Is `v` a label of WINDOWS_1258?
fn check_windows_1258_label(v: &Vec<char>) -> (r: bool)
    ensures
        r == is_windows_1258_label(v@),
{
    chars_eq(v, "cp1258")
        || chars_eq(v, "windows-1258")
        || chars_eq(v, "x-cp1258")
}

/// The labels of MAC_CYRILLIC.
pub open spec fn is_mac_cyrillic_label(s: Seq<char>) -> bool {
    s == "x-mac-cyrillic"@
        || s == "x-mac-ukrainian"@
}

/// Is `v` a label of MAC_CYRILLIC?
fn check_mac_cyrillic_label(v: &Vec<char>) -> (r: bool)
    ensures
        r == is_mac_cyrillic_label(v@),
{
    chars_eq(v, "x-mac-cyrillic")
        || chars_eq(v, "x-mac-ukrainian")
}

/// The labels of GB18030.
pub open spec fn is_gb18030_label(s: Seq<char>) -> bool {
    s == "chinese"@
        || s == "csgb2312"@
        || s == "csiso58gb231280"@
        || s == "gb18030"@
        || s == "gb2312"@
        || s == "gb_2312"@
        || s == "gb_2312-80"@
        || s == "gbk"@
        || s == "iso-ir-58"@
        || s == "x-gbk"@
}

/// Is `v` a label of GB18030?
fn check_gb18030_label(v: &Vec<char>) -> (r: bool)
    ensures
        r == is_gb18030_label(v@),
{
    chars_eq(v, "chinese")
        || chars_eq(v, "csgb2312")
        || chars_eq(v, "csiso58gb231280")
        || chars_eq(v, "gb18030")
        || chars_eq(v, "gb2312")
        || chars_eq(v, "gb_2312")
        || chars_eq(v, "gb_2312-80")
        || chars_eq(v, "gbk")
        || chars_eq(v, "iso-ir-58")
        || chars_eq(v, "x-gbk")
}

/// The labels of HZ.
pub open spec fn is_hz_label(s: Seq<char>) -> bool {
    s == "hz-gb-2312"@
}

/// Is `v` a label of HZ?
fn check_hz_label(v: &Vec<char>) -> (r: bool)
    ensures
        r == is_hz_label(v@),
{
    chars_eq(v, "hz-gb-2312")
}

/// The labels of BIG5_2003.
pub open spec fn is_big5_2003_label(s: Seq<char>) -> bool {
    s == "big5"@
        || s == "big5-hkscs"@
        || s == "cn-big5"@
        || s == "csbig5"@
        || s == "x-x-big5"@
}

/// Is `v` a label of BIG5_2003?
fn check_big5_2003_label(v: &Vec<char>) -> (r: bool)
    ensures
        r == is_big5_2003_label(v@),
{
    chars_eq(v, "big5")
        || chars_eq(v, "big5-hkscs")
        || chars_eq(v, "cn-big5")
        || chars_eq(v, "csbig5")
        || chars_eq(v, "x-x-big5")
}

/// The labels of EUC_JP.
pub open spec fn is_euc_jp_label(s: Seq<char>) -> bool {
    s == "cseucpkdfmtjapanese"@
        || s == "euc-jp"@
        || s == "x-euc-jp"@
}

/// Is `v` a label of EUC_JP?
fn check_euc_jp_label(v: &Vec<char>) -> (r: bool)
    ensures
        r == is_euc_jp_label(v@),
{
    chars_eq(v, "cseucpkdfmtjapanese")
        || chars_eq(v, "euc-jp")
        || chars_eq(v, "x-euc-jp")
}

/// The labels of ISO_2022_JP.
pub open spec fn is_iso_2022_jp_label(s: Seq<char>) -> bool {
    s == "csiso2022jp"@
        || s == "iso-2022-jp"@
}

/// Is `v` a label of ISO_2022_JP?
fn check_iso_2022_jp_label(v: &Vec<char>) -> (r: bool)
    ensures
        r == is_iso_2022_jp_label(v@),
{
    chars_eq(v, "csiso2022jp")
        || chars_eq(v, "iso-2022-jp")
}

/// The labels of WINDOWS_31J.
pub open spec fn is_windows_31j_label(s: Seq<char>) -> bool {
    s == "csshiftjis"@
        || s == "ms_kanji"@
        || s == "shift-jis"@
        || s == "shift_jis"@
        || s == "sjis"@
        || s == "windows-31j"@
        || s == "x-sjis"@
}

/// Is `v` a label of WINDOWS_31J?
fn check_windows_31j_label(v: &Vec<char>) -> (r: bool)
    ensures
        r == is_windows_31j_label(v@),
{
    chars_eq(v, "csshiftjis")
        || chars_eq(v, "ms_kanji")
        || chars_eq(v, "shift-jis")
        || chars_eq(v, "shift_jis")
        || chars_eq(v, "sjis")
        || chars_eq(v, "windows-31j")
        || chars_eq(v, "x-sjis")
}

/// The labels of WINDOWS_949.
pub open spec fn is_windows_949_label(s: Seq<char>) -> bool {
    s == "cseuckr"@
        || s == "csksc56011987"@
        || s == "euc-kr"@
        || s == "iso-ir-149"@
        || s == "korean"@
        || s == "ks_c_5601-1987"@
        || s == "ks_c_5601-1989"@
        || s == "ksc5601"@
        || s == "ksc_5601"@
        || s == "windows-949"@
}

/// Is `v` a label of WINDOWS_949?
fn check_windows_949_label(v: &Vec<char>) -> (r: bool)
    ensures
        r == is_windows_949_label(v@),
{
    chars_eq(v, "cseuckr")
        || chars_eq(v, "csksc56011987")
        || chars_eq(v, "euc-kr")
        || chars_eq(v, "iso-ir-149")
        || chars_eq(v, "korean")
        || chars_eq(v, "ks_c_5601-1987")
        || chars_eq(v, "ks_c_5601-1989")
        || chars_eq(v, "ksc5601")
        || chars_eq(v, "ksc_5601")
        || chars_eq(v, "windows-949")
}

/// The labels of REPLACEMENT.
pub open spec fn is_replacement_label(s: Seq<char>) -> bool {
    s == "csiso2022kr"@
        || s == "iso-2022-kr"@
        || s == "iso-2022-cn"@
        || s == "iso-2022-cn-ext"@
}

/// Is `v` a label of REPLACEMENT?
fn check_replacement_label(v: &Vec<char>) -> (r: bool)
    ensures
        r == is_replacement_label(v@),
{
    chars_eq(v, "csiso2022kr")
        || chars_eq(v, "iso-2022-kr")
        || chars_eq(v, "iso-2022-cn")
        || chars_eq(v, "iso-2022-cn-ext")
}

/// The labels of UTF_16BE.
pub open spec fn is_utf_16be_label(s: Seq<char>) -> bool {
    s == "utf-16be"@
}

/// Is `v` a label of UTF_16BE?
fn check_utf_16be_label(v: &Vec<char>) -> (r: bool)
    ensures
        r == is_utf_16be_label(v@),
{
    chars_eq(v, "utf-16be")
}

/// The labels of UTF_16LE.
pub open spec fn is_utf_16le_label(s: Seq<char>) -> bool {
    s == "utf-16"@
        || s == "utf-16le"@
}

/// Is `v` a label of UTF_16LE?
fn check_utf_16le_label(v: &Vec<char>) -> (r: bool)
    ensures
        r == is_utf_16le_label(v@),
{
    chars_eq(v, "utf-16")
        || chars_eq(v, "utf-16le")
}

/// The labels of X_USER_DEFINED.
pub open spec fn is_x_user_defined_label(s: Seq<char>) -> bool {
    s == "x-user-defined"@
}

/// Is `v` a label of X_USER_DEFINED?
fn check_x_user_defined_label(v: &Vec<char>) -> (r: bool)
    ensures
        r == is_x_user_defined_label(v@),
{
    chars_eq(v, "x-user-defined")
}

/// The encoding that a normalized label names, if any.
pub open spec fn whatwg_label_encoding(s: Seq<char>) -> Option<EncodingRef> {
    if is_utf_8_label(s) {
        Some(EncodingRef::UTF8(all::UTF_8))
    } else if is_ibm866_label(s) {
        Some(EncodingRef::SingleByte(all::IBM866))
    } else if is_iso_8859_2_label(s) {
        Some(EncodingRef::SingleByte(all::ISO_8859_2))
    } else if is_iso_8859_3_label(s) {
        Some(EncodingRef::SingleByte(all::ISO_8859_3))
    } else if is_iso_8859_4_label(s) {
        Some(EncodingRef::SingleByte(all::ISO_8859_4))
    } else if is_iso_8859_5_label(s) {
        Some(EncodingRef::SingleByte(all::ISO_8859_5))
    } else if is_iso_8859_6_label(s) {
        Some(EncodingRef::SingleByte(all::ISO_8859_6))
    } else if is_iso_8859_7_label(s) {
        Some(EncodingRef::SingleByte(all::ISO_8859_7))
    } else if is_iso_8859_8_label(s) {
        Some(EncodingRef::SingleByte(all::ISO_8859_8))
    } else if is_iso_8859_8_i_label(s) {
        Some(EncodingRef::SingleByte(all::whatwg::ISO_8859_8_I))
    } else if is_iso_8859_10_label(s) {
        Some(EncodingRef::SingleByte(all::ISO_8859_10))
    } else if is_iso_8859_13_label(s) {
        Some(EncodingRef::SingleByte(all::ISO_8859_13))
    } else if is_iso_8859_14_label(s) {
        Some(EncodingRef::SingleByte(all::ISO_8859_14))
    } else if is_iso_8859_15_label(s) {
        Some(EncodingRef::SingleByte(all::ISO_8859_15))
    } else if is_iso_8859_16_label(s) {
        Some(EncodingRef::SingleByte(all::ISO_8859_16))
    } else if is_koi8_r_label(s) {
        Some(EncodingRef::SingleByte(all::KOI8_R))
    } else if is_koi8_u_label(s) {
        Some(EncodingRef::SingleByte(all::KOI8_U))
    } else if is_mac_roman_label(s) {
        Some(EncodingRef::SingleByte(all::MAC_ROMAN))
    } else if is_windows_874_label(s) {
        Some(EncodingRef::SingleByte(all::WINDOWS_874))
    } else if is_windows_1250_label(s) {
        Some(EncodingRef::SingleByte(all::WINDOWS_1250))
    } else if is_windows_1251_label(s) {
        Some(EncodingRef::SingleByte(all::WINDOWS_1251))
    } else if is_windows_1252_label(s) {
        Some(EncodingRef::SingleByte(all::WINDOWS_1252))
    } else if is_windows_1253_label(s) {
        Some(EncodingRef::SingleByte(all::WINDOWS_1253))
    } else if is_windows_1254_label(s) {
        Some(EncodingRef::SingleByte(all::WINDOWS_1254))
    } else if is_windows_1255_label(s) {
        Some(EncodingRef::SingleByte(all::WINDOWS_1255))
    } else if is_windows_1256_label(s) {
        Some(EncodingRef::SingleByte(all::WINDOWS_1256))
    } else if is_windows_1257_label(s) {
        Some(EncodingRef::SingleByte(all::WINDOWS_1257))
    } else if is_windows_1258_label(s) {
        Some(EncodingRef::SingleByte(all::WINDOWS_1258))
    } else if is_mac_cyrillic_label(s) {
        Some(EncodingRef::SingleByte(all::MAC_CYRILLIC))
    } else if is_gb18030_label(s) {
        Some(EncodingRef::GB18030(all::GB18030))
    } else if is_hz_label(s) {
        Some(EncodingRef::HZ(all::HZ))
    } else if is_big5_2003_label(s) {
        Some(EncodingRef::BigFive2003(all::BIG5_2003))
    } else if is_euc_jp_label(s) {
        Some(EncodingRef::EUCJP(all::EUC_JP))
    } else if is_iso_2022_jp_label(s) {
        Some(EncodingRef::ISO2022JP(all::ISO_2022_JP))
    } else if is_windows_31j_label(s) {
        Some(EncodingRef::Windows31J(all::WINDOWS_31J))
    } else if is_windows_949_label(s) {
        Some(EncodingRef::Windows949(all::WINDOWS_949))
    } else if is_replacement_label(s) {
        Some(EncodingRef::Replacement(all::whatwg::REPLACEMENT))
    } else if is_utf_16be_label(s) {
        Some(EncodingRef::UTF16BE(all::UTF_16BE))
    } else if is_utf_16le_label(s) {
        Some(EncodingRef::UTF16LE(all::UTF_16LE))
    } else if is_x_user_defined_label(s) {
        Some(EncodingRef::SingleByte(all::whatwg::X_USER_DEFINED))
    } else {
        None
    }
}

/// Returns an encoding from given label, defined in the WHATWG Encoding standard, if any.
/// Implements "get an encoding" algorithm: http://encoding.spec.whatwg.org/#decode
pub fn encoding_from_whatwg_label(label: &str) -> (r: Option<EncodingRef>)
    ensures
        r == whatwg_label_encoding(normalize_label(label@)),
{
    let v = normalize(label);
    if check_utf_8_label(&v) {
        Some(EncodingRef::UTF8(all::UTF_8))
    } else if check_ibm866_label(&v) {
        Some(EncodingRef::SingleByte(all::IBM866))
    } else if check_iso_8859_2_label(&v) {
        Some(EncodingRef::SingleByte(all::ISO_8859_2))
    } else if check_iso_8859_3_label(&v) {
        Some(EncodingRef::SingleByte(all::ISO_8859_3))
    } else if check_iso_8859_4_label(&v) {
        Some(EncodingRef::SingleByte(all::ISO_8859_4))
    } else if check_iso_8859_5_label(&v) {
        Some(EncodingRef::SingleByte(all::ISO_8859_5))
    } else if check_iso_8859_6_label(&v) {
        Some(EncodingRef::SingleByte(all::ISO_8859_6))
    } else if check_iso_8859_7_label(&v) {
        Some(EncodingRef::SingleByte(all::ISO_8859_7))
    } else if check_iso_8859_8_label(&v) {
        Some(EncodingRef::SingleByte(all::ISO_8859_8))
    } else if check_iso_8859_8_i_label(&v) {
        Some(EncodingRef::SingleByte(all::whatwg::ISO_8859_8_I))
    } else if check_iso_8859_10_label(&v) {
        Some(EncodingRef::SingleByte(all::ISO_8859_10))
    } else if check_iso_8859_13_label(&v) {
        Some(EncodingRef::SingleByte(all::ISO_8859_13))
    } else if check_iso_8859_14_label(&v) {
        Some(EncodingRef::SingleByte(all::ISO_8859_14))
    } else if check_iso_8859_15_label(&v) {
        Some(EncodingRef::SingleByte(all::ISO_8859_15))
    } else if check_iso_8859_16_label(&v) {
        Some(EncodingRef::SingleByte(all::ISO_8859_16))
    } else if check_koi8_r_label(&v) {
        Some(EncodingRef::SingleByte(all::KOI8_R))
    } else if check_koi8_u_label(&v) {
        Some(EncodingRef::SingleByte(all::KOI8_U))
    } else if check_mac_roman_label(&v) {
        Some(EncodingRef::SingleByte(all::MAC_ROMAN))
    } else if check_windows_874_label(&v) {
        Some(EncodingRef::SingleByte(all::WINDOWS_874))
    } else if check_windows_1250_label(&v) {
        Some(EncodingRef::SingleByte(all::WINDOWS_1250))
    } else if check_windows_1251_label(&v) {
        Some(EncodingRef::SingleByte(all::WINDOWS_1251))
    } else if check_windows_1252_label(&v) {
        Some(EncodingRef::SingleByte(all::WINDOWS_1252))
    } else if check_windows_1253_label(&v) {
        Some(EncodingRef::SingleByte(all::WINDOWS_1253))
    } else if check_windows_1254_label(&v) {
        Some(EncodingRef::SingleByte(all::WINDOWS_1254))
    } else if check_windows_1255_label(&v) {
        Some(EncodingRef::SingleByte(all::WINDOWS_1255))
    } else if check_windows_1256_label(&v) {
        Some(EncodingRef::SingleByte(all::WINDOWS_1256))
    } else if check_windows_1257_label(&v) {
        Some(EncodingRef::SingleByte(all::WINDOWS_1257))
    } else if check_windows_1258_label(&v) {
        Some(EncodingRef::SingleByte(all::WINDOWS_1258))
    } else if check_mac_cyrillic_label(&v) {
        Some(EncodingRef::SingleByte(all::MAC_CYRILLIC))
    } else if check_gb18030_label(&v) {
        Some(EncodingRef::GB18030(all::GB18030))
    } else if check_hz_label(&v) {
        Some(EncodingRef::HZ(all::HZ))
    } else if check_big5_2003_label(&v) {
        Some(EncodingRef::BigFive2003(all::BIG5_2003))
    } else if check_euc_jp_label(&v) {
        Some(EncodingRef::EUCJP(all::EUC_JP))
    } else if check_iso_2022_jp_label(&v) {
        Some(EncodingRef::ISO2022JP(all::ISO_2022_JP))
    } else if check_windows_31j_label(&v) {
        Some(EncodingRef::Windows31J(all::WINDOWS_31J))
    } else if check_windows_949_label(&v) {
        Some(EncodingRef::Windows949(all::WINDOWS_949))
    } else if check_replacement_label(&v) {
        Some(EncodingRef::Replacement(all::whatwg::REPLACEMENT))
    } else if check_utf_16be_label(&v) {
        Some(EncodingRef::UTF16BE(all::UTF_16BE))
    } else if check_utf_16le_label(&v) {
        Some(EncodingRef::UTF16LE(all::UTF_16LE))
    } else if check_x_user_defined_label(&v) {
        Some(EncodingRef::SingleByte(all::whatwg::X_USER_DEFINED))
    } else {
        None
    }
}

/// The encoding for a Windows code page number, if any.
pub open spec fn windows_code_page_encoding(cp: usize) -> Option<EncodingRef> {
    if cp == 65001 {
        Some(EncodingRef::UTF8(all::UTF_8))
    } else if cp == 866 {
        Some(EncodingRef::SingleByte(all::IBM866))
    } else if cp == 28591 {
        Some(EncodingRef::SingleByte(all::ISO_8859_1))
    } else if cp == 28592 {
        Some(EncodingRef::SingleByte(all::ISO_8859_2))
    } else if cp == 28593 {
        Some(EncodingRef::SingleByte(all::ISO_8859_3))
    } else if cp == 28594 {
        Some(EncodingRef::SingleByte(all::ISO_8859_4))
    } else if cp == 28595 {
        Some(EncodingRef::SingleByte(all::ISO_8859_5))
    } else if cp == 28596 {
        Some(EncodingRef::SingleByte(all::ISO_8859_6))
    } else if cp == 28597 {
        Some(EncodingRef::SingleByte(all::ISO_8859_7))
    } else if cp == 28598 {
        Some(EncodingRef::SingleByte(all::ISO_8859_8))
    } else if cp == 38598 {
        Some(EncodingRef::SingleByte(all::whatwg::ISO_8859_8_I))
    } else if cp == 28603 {
        Some(EncodingRef::SingleByte(all::ISO_8859_13))
    } else if cp == 28605 {
        Some(EncodingRef::SingleByte(all::ISO_8859_15))
    } else if cp == 20866 {
        Some(EncodingRef::SingleByte(all::KOI8_R))
    } else if cp == 21866 {
        Some(EncodingRef::SingleByte(all::KOI8_U))
    } else if cp == 10000 {
        Some(EncodingRef::SingleByte(all::MAC_ROMAN))
    } else if cp == 874 {
        Some(EncodingRef::SingleByte(all::WINDOWS_874))
    } else if cp == 1250 {
        Some(EncodingRef::SingleByte(all::WINDOWS_1250))
    } else if cp == 1251 {
        Some(EncodingRef::SingleByte(all::WINDOWS_1251))
    } else if cp == 1252 {
        Some(EncodingRef::SingleByte(all::WINDOWS_1252))
    } else if cp == 1253 {
        Some(EncodingRef::SingleByte(all::WINDOWS_1253))
    } else if cp == 1254 {
        Some(EncodingRef::SingleByte(all::WINDOWS_1254))
    } else if cp == 1255 {
        Some(EncodingRef::SingleByte(all::WINDOWS_1255))
    } else if cp == 1256 {
        Some(EncodingRef::SingleByte(all::WINDOWS_1256))
    } else if cp == 1257 {
        Some(EncodingRef::SingleByte(all::WINDOWS_1257))
    } else if cp == 1258 {
        Some(EncodingRef::SingleByte(all::WINDOWS_1258))
    } else if cp == 1259 {
        Some(EncodingRef::SingleByte(all::MAC_CYRILLIC))
    } else if cp == 936 || cp == 54936 {
        Some(EncodingRef::GB18030(all::GB18030))
    } else if cp == 52936 {
        Some(EncodingRef::HZ(all::HZ))
    } else if cp == 950 {
        Some(EncodingRef::BigFive2003(all::BIG5_2003))
    } else if cp == 20932 {
        Some(EncodingRef::EUCJP(all::EUC_JP))
    } else if cp == 50220 {
        Some(EncodingRef::ISO2022JP(all::ISO_2022_JP))
    } else if cp == 932 {
        Some(EncodingRef::Windows31J(all::WINDOWS_31J))
    } else if cp == 949 {
        Some(EncodingRef::Windows949(all::WINDOWS_949))
    } else if cp == 1201 {
        Some(EncodingRef::UTF16BE(all::UTF_16BE))
    } else if cp == 1200 {
        Some(EncodingRef::UTF16LE(all::UTF_16LE))
    } else {
        None
    }
}

/// Returns an encoding from Windows code page number.
/// http://msdn.microsoft.com/en-us/library/windows/desktop/dd317756%28v=vs.85%29.aspx
/// Sometimes it can return a *superset* of the requested encoding, e.g. for several CJK encodings.
pub fn encoding_from_windows_code_page(cp: usize) -> (r: Option<EncodingRef>)
    ensures
        r == windows_code_page_encoding(cp),
{
    if cp == 65001 {
        Some(EncodingRef::UTF8(all::UTF_8))
    } else if cp == 866 {
        Some(EncodingRef::SingleByte(all::IBM866))
    } else if cp == 28591 {
        Some(EncodingRef::SingleByte(all::ISO_8859_1))
    } else if cp == 28592 {
        Some(EncodingRef::SingleByte(all::ISO_8859_2))
    } else if cp == 28593 {
        Some(EncodingRef::SingleByte(all::ISO_8859_3))
    } else if cp == 28594 {
        Some(EncodingRef::SingleByte(all::ISO_8859_4))
    } else if cp == 28595 {
        Some(EncodingRef::SingleByte(all::ISO_8859_5))
    } else if cp == 28596 {
        Some(EncodingRef::SingleByte(all::ISO_8859_6))
    } else if cp == 28597 {
        Some(EncodingRef::SingleByte(all::ISO_8859_7))
    } else if cp == 28598 {
        Some(EncodingRef::SingleByte(all::ISO_8859_8))
    } else if cp == 38598 {
        Some(EncodingRef::SingleByte(all::whatwg::ISO_8859_8_I))
    } else if cp == 28603 {
        Some(EncodingRef::SingleByte(all::ISO_8859_13))
    } else if cp == 28605 {
        Some(EncodingRef::SingleByte(all::ISO_8859_15))
    } else if cp == 20866 {
        Some(EncodingRef::SingleByte(all::KOI8_R))
    } else if cp == 21866 {
        Some(EncodingRef::SingleByte(all::KOI8_U))
    } else if cp == 10000 {
        Some(EncodingRef::SingleByte(all::MAC_ROMAN))
    } else if cp == 874 {
        Some(EncodingRef::SingleByte(all::WINDOWS_874))
    } else if cp == 1250 {
        Some(EncodingRef::SingleByte(all::WINDOWS_1250))
    } else if cp == 1251 {
        Some(EncodingRef::SingleByte(all::WINDOWS_1251))
    } else if cp == 1252 {
        Some(EncodingRef::SingleByte(all::WINDOWS_1252))
    } else if cp == 1253 {
        Some(EncodingRef::SingleByte(all::WINDOWS_1253))
    } else if cp == 1254 {
        Some(EncodingRef::SingleByte(all::WINDOWS_1254))
    } else if cp == 1255 {
        Some(EncodingRef::SingleByte(all::WINDOWS_1255))
    } else if cp == 1256 {
        Some(EncodingRef::SingleByte(all::WINDOWS_1256))
    } else if cp == 1257 {
        Some(EncodingRef::SingleByte(all::WINDOWS_1257))
    } else if cp == 1258 {
        Some(EncodingRef::SingleByte(all::WINDOWS_1258))
    } else if cp == 1259 {
        Some(EncodingRef::SingleByte(all::MAC_CYRILLIC))
    } else if cp == 936 || cp == 54936 {
        Some(EncodingRef::GB18030(all::GB18030))
    } else if cp == 52936 {
        Some(EncodingRef::HZ(all::HZ))
    } else if cp == 950 {
        Some(EncodingRef::BigFive2003(all::BIG5_2003))
    } else if cp == 20932 {
        Some(EncodingRef::EUCJP(all::EUC_JP))
    } else if cp == 50220 {
        Some(EncodingRef::ISO2022JP(all::ISO_2022_JP))
    } else if cp == 932 {
        Some(EncodingRef::Windows31J(all::WINDOWS_31J))
    } else if cp == 949 {
        Some(EncodingRef::Windows949(all::WINDOWS_949))
    } else if cp == 1201 {
        Some(EncodingRef::UTF16BE(all::UTF_16BE))
    } else if cp == 1200 {
        Some(EncodingRef::UTF16LE(all::UTF_16LE))
    } else {
        None
    }
}

/// The WHATWG name of each encoding that a label finds is a normalized label of that
/// encoding.
#[verifier::rlimit(100)]
#[verifier::spinoff_prover]
proof fn lemma_whatwg_names_found()
    ensures
        normalize_label("utf-8"@) == "utf-8"@,
        whatwg_label_encoding("utf-8"@) == Some(EncodingRef::UTF8(all::UTF_8)),
        normalize_label("ibm866"@) == "ibm866"@,
        whatwg_label_encoding("ibm866"@) == Some(EncodingRef::SingleByte(all::IBM866)),
        normalize_label("iso-8859-2"@) == "iso-8859-2"@,
        whatwg_label_encoding("iso-8859-2"@) == Some(EncodingRef::SingleByte(all::ISO_8859_2)),
        normalize_label("iso-8859-3"@) == "iso-8859-3"@,
        whatwg_label_encoding("iso-8859-3"@) == Some(EncodingRef::SingleByte(all::ISO_8859_3)),
        normalize_label("iso-8859-4"@) == "iso-8859-4"@,
        whatwg_label_encoding("iso-8859-4"@) == Some(EncodingRef::SingleByte(all::ISO_8859_4)),
        normalize_label("iso-8859-5"@) == "iso-8859-5"@,
        whatwg_label_encoding("iso-8859-5"@) == Some(EncodingRef::SingleByte(all::ISO_8859_5)),
        normalize_label("iso-8859-6"@) == "iso-8859-6"@,
        whatwg_label_encoding("iso-8859-6"@) == Some(EncodingRef::SingleByte(all::ISO_8859_6)),
        normalize_label("iso-8859-7"@) == "iso-8859-7"@,
        whatwg_label_encoding("iso-8859-7"@) == Some(EncodingRef::SingleByte(all::ISO_8859_7)),
        normalize_label("iso-8859-8"@) == "iso-8859-8"@,
        whatwg_label_encoding("iso-8859-8"@) == Some(EncodingRef::SingleByte(all::ISO_8859_8)),
        normalize_label("iso-8859-8-i"@) == "iso-8859-8-i"@,
        whatwg_label_encoding("iso-8859-8-i"@) == Some(EncodingRef::SingleByte(all::whatwg::ISO_8859_8_I)),
        normalize_label("iso-8859-10"@) == "iso-8859-10"@,
        whatwg_label_encoding("iso-8859-10"@) == Some(EncodingRef::SingleByte(all::ISO_8859_10)),
        normalize_label("iso-8859-13"@) == "iso-8859-13"@,
        whatwg_label_encoding("iso-8859-13"@) == Some(EncodingRef::SingleByte(all::ISO_8859_13)),
        normalize_label("iso-8859-14"@) == "iso-8859-14"@,
        whatwg_label_encoding("iso-8859-14"@) == Some(EncodingRef::SingleByte(all::ISO_8859_14)),
        normalize_label("iso-8859-15"@) == "iso-8859-15"@,
        whatwg_label_encoding("iso-8859-15"@) == Some(EncodingRef::SingleByte(all::ISO_8859_15)),
        normalize_label("iso-8859-16"@) == "iso-8859-16"@,
        whatwg_label_encoding("iso-8859-16"@) == Some(EncodingRef::SingleByte(all::ISO_8859_16)),
        normalize_label("koi8-r"@) == "koi8-r"@,
        whatwg_label_encoding("koi8-r"@) == Some(EncodingRef::SingleByte(all::KOI8_R)),
        normalize_label("koi8-u"@) == "koi8-u"@,
        whatwg_label_encoding("koi8-u"@) == Some(EncodingRef::SingleByte(all::KOI8_U)),
        normalize_label("macintosh"@) == "macintosh"@,
        whatwg_label_encoding("macintosh"@) == Some(EncodingRef::SingleByte(all::MAC_ROMAN)),
        normalize_label("windows-874"@) == "windows-874"@,
        whatwg_label_encoding("windows-874"@) == Some(EncodingRef::SingleByte(all::WINDOWS_874)),
        normalize_label("windows-1250"@) == "windows-1250"@,
        whatwg_label_encoding("windows-1250"@) == Some(EncodingRef::SingleByte(all::WINDOWS_1250)),
        normalize_label("windows-1251"@) == "windows-1251"@,
        whatwg_label_encoding("windows-1251"@) == Some(EncodingRef::SingleByte(all::WINDOWS_1251)),
        normalize_label("windows-1252"@) == "windows-1252"@,
        whatwg_label_encoding("windows-1252"@) == Some(EncodingRef::SingleByte(all::WINDOWS_1252)),
        normalize_label("windows-1253"@) == "windows-1253"@,
        whatwg_label_encoding("windows-1253"@) == Some(EncodingRef::SingleByte(all::WINDOWS_1253)),
        normalize_label("windows-1254"@) == "windows-1254"@,
        whatwg_label_encoding("windows-1254"@) == Some(EncodingRef::SingleByte(all::WINDOWS_1254)),
        normalize_label("windows-1255"@) == "windows-1255"@,
        whatwg_label_encoding("windows-1255"@) == Some(EncodingRef::SingleByte(all::WINDOWS_1255)),
        normalize_label("windows-1256"@) == "windows-1256"@,
        whatwg_label_encoding("windows-1256"@) == Some(EncodingRef::SingleByte(all::WINDOWS_1256)),
        normalize_label("windows-1257"@) == "windows-1257"@,
        whatwg_label_encoding("windows-1257"@) == Some(EncodingRef::SingleByte(all::WINDOWS_1257)),
        normalize_label("windows-1258"@) == "windows-1258"@,
        whatwg_label_encoding("windows-1258"@) == Some(EncodingRef::SingleByte(all::WINDOWS_1258)),
        normalize_label("x-mac-cyrillic"@) == "x-mac-cyrillic"@,
        whatwg_label_encoding("x-mac-cyrillic"@) == Some(EncodingRef::SingleByte(all::MAC_CYRILLIC)),
        normalize_label("gb18030"@) == "gb18030"@,
        whatwg_label_encoding("gb18030"@) == Some(EncodingRef::GB18030(all::GB18030)),
        normalize_label("hz-gb-2312"@) == "hz-gb-2312"@,
        whatwg_label_encoding("hz-gb-2312"@) == Some(EncodingRef::HZ(all::HZ)),
        normalize_label("big5"@) == "big5"@,
        whatwg_label_encoding("big5"@) == Some(EncodingRef::BigFive2003(all::BIG5_2003)),
        normalize_label("euc-jp"@) == "euc-jp"@,
        whatwg_label_encoding("euc-jp"@) == Some(EncodingRef::EUCJP(all::EUC_JP)),
        normalize_label("iso-2022-jp"@) == "iso-2022-jp"@,
        whatwg_label_encoding("iso-2022-jp"@) == Some(EncodingRef::ISO2022JP(all::ISO_2022_JP)),
        normalize_label("shift_jis"@) == "shift_jis"@,
        whatwg_label_encoding("shift_jis"@) == Some(EncodingRef::Windows31J(all::WINDOWS_31J)),
        normalize_label("euc-kr"@) == "euc-kr"@,
        whatwg_label_encoding("euc-kr"@) == Some(EncodingRef::Windows949(all::WINDOWS_949)),
        normalize_label("utf-16be"@) == "utf-16be"@,
        whatwg_label_encoding("utf-16be"@) == Some(EncodingRef::UTF16BE(all::UTF_16BE)),
        normalize_label("utf-16"@) == "utf-16"@,
        whatwg_label_encoding("utf-16"@) == Some(EncodingRef::UTF16LE(all::UTF_16LE)),
        normalize_label("x-user-defined"@) == "x-user-defined"@,
        whatwg_label_encoding("x-user-defined"@) == Some(EncodingRef::SingleByte(all::whatwg::X_USER_DEFINED)),
{
    reveal_strlit("866");
    reveal_strlit("ansi_x3.4-1968");
    reveal_strlit("arabic");
    reveal_strlit("ascii");
    reveal_strlit("asmo-708");
    reveal_strlit("big5");
    reveal_strlit("big5-hkscs");
    reveal_strlit("chinese");
    reveal_strlit("cn-big5");
    reveal_strlit("cp1250");
    reveal_strlit("cp1251");
    reveal_strlit("cp1252");
    reveal_strlit("cp1253");
    reveal_strlit("cp1254");
    reveal_strlit("cp1255");
    reveal_strlit("cp1256");
    reveal_strlit("cp1257");
    reveal_strlit("cp1258");
    reveal_strlit("cp819");
    reveal_strlit("cp866");
    reveal_strlit("csbig5");
    reveal_strlit("cseuckr");
    reveal_strlit("cseucpkdfmtjapanese");
    reveal_strlit("csgb2312");
    reveal_strlit("csibm866");
    reveal_strlit("csiso2022jp");
    reveal_strlit("csiso2022kr");
    reveal_strlit("csiso58gb231280");
    reveal_strlit("csiso88596e");
    reveal_strlit("csiso88596i");
    reveal_strlit("csiso88598e");
    reveal_strlit("csiso88598i");
    reveal_strlit("csisolatin1");
    reveal_strlit("csisolatin2");
    reveal_strlit("csisolatin3");
    reveal_strlit("csisolatin4");
    reveal_strlit("csisolatin5");
    reveal_strlit("csisolatin6");
    reveal_strlit("csisolatin9");
    reveal_strlit("csisolatinarabic");
    reveal_strlit("csisolatincyrillic");
    reveal_strlit("csisolatingreek");
    reveal_strlit("csisolatinhebrew");
    reveal_strlit("cskoi8r");
    reveal_strlit("csksc56011987");
    reveal_strlit("csmacintosh");
    reveal_strlit("csshiftjis");
    reveal_strlit("cyrillic");
    reveal_strlit("dos-874");
    reveal_strlit("ecma-114");
    reveal_strlit("ecma-118");
    reveal_strlit("elot_928");
    reveal_strlit("euc-jp");
    reveal_strlit("euc-kr");
    reveal_strlit("gb18030");
    reveal_strlit("gb2312");
    reveal_strlit("gb_2312");
    reveal_strlit("gb_2312-80");
    reveal_strlit("gbk");
    reveal_strlit("greek");
    reveal_strlit("greek8");
    reveal_strlit("hebrew");
    reveal_strlit("hz-gb-2312");
    reveal_strlit("ibm819");
    reveal_strlit("ibm866");
    reveal_strlit("iso-2022-cn");
    reveal_strlit("iso-2022-cn-ext");
    reveal_strlit("iso-2022-jp");
    reveal_strlit("iso-2022-kr");
    reveal_strlit("iso-8859-1");
    reveal_strlit("iso-8859-10");
    reveal_strlit("iso-8859-11");
    reveal_strlit("iso-8859-13");
    reveal_strlit("iso-8859-14");
    reveal_strlit("iso-8859-15");
    reveal_strlit("iso-8859-16");
    reveal_strlit("iso-8859-2");
    reveal_strlit("iso-8859-3");
    reveal_strlit("iso-8859-4");
    reveal_strlit("iso-8859-5");
    reveal_strlit("iso-8859-6");
    reveal_strlit("iso-8859-6-e");
    reveal_strlit("iso-8859-6-i");
    reveal_strlit("iso-8859-7");
    reveal_strlit("iso-8859-8");
    reveal_strlit("iso-8859-8-e");
    reveal_strlit("iso-8859-8-i");
    reveal_strlit("iso-8859-9");
    reveal_strlit("iso-ir-100");
    reveal_strlit("iso-ir-101");
    reveal_strlit("iso-ir-109");
    reveal_strlit("iso-ir-110");
    reveal_strlit("iso-ir-126");
    reveal_strlit("iso-ir-127");
    reveal_strlit("iso-ir-138");
    reveal_strlit("iso-ir-144");
    reveal_strlit("iso-ir-148");
    reveal_strlit("iso-ir-149");
    reveal_strlit("iso-ir-157");
    reveal_strlit("iso-ir-58");
    reveal_strlit("iso8859-1");
    reveal_strlit("iso8859-10");
    reveal_strlit("iso8859-11");
    reveal_strlit("iso8859-13");
    reveal_strlit("iso8859-14");
    reveal_strlit("iso8859-15");
    reveal_strlit("iso8859-2");
    reveal_strlit("iso8859-3");
    reveal_strlit("iso8859-4");
    reveal_strlit("iso8859-5");
    reveal_strlit("iso8859-6");
    reveal_strlit("iso8859-7");
    reveal_strlit("iso8859-8");
    reveal_strlit("iso8859-9");
    reveal_strlit("iso88591");
    reveal_strlit("iso885910");
    reveal_strlit("iso885911");
    reveal_strlit("iso885913");
    reveal_strlit("iso885914");
    reveal_strlit("iso885915");
    reveal_strlit("iso88592");
    reveal_strlit("iso88593");
    reveal_strlit("iso88594");
    reveal_strlit("iso88595");
    reveal_strlit("iso88596");
    reveal_strlit("iso88597");
    reveal_strlit("iso88598");
    reveal_strlit("iso88599");
    reveal_strlit("iso_8859-1");
    reveal_strlit("iso_8859-15");
    reveal_strlit("iso_8859-1:1987");
    reveal_strlit("iso_8859-2");
    reveal_strlit("iso_8859-2:1987");
    reveal_strlit("iso_8859-3");
    reveal_strlit("iso_8859-3:1988");
    reveal_strlit("iso_8859-4");
    reveal_strlit("iso_8859-4:1988");
    reveal_strlit("iso_8859-5");
    reveal_strlit("iso_8859-5:1988");
    reveal_strlit("iso_8859-6");
    reveal_strlit("iso_8859-6:1987");
    reveal_strlit("iso_8859-7");
    reveal_strlit("iso_8859-7:1987");
    reveal_strlit("iso_8859-8");
    reveal_strlit("iso_8859-8:1988");
    reveal_strlit("iso_8859-9");
    reveal_strlit("iso_8859-9:1989");
    reveal_strlit("koi");
    reveal_strlit("koi8");
    reveal_strlit("koi8-r");
    reveal_strlit("koi8-u");
    reveal_strlit("koi8_r");
    reveal_strlit("korean");
    reveal_strlit("ks_c_5601-1987");
    reveal_strlit("ks_c_5601-1989");
    reveal_strlit("ksc5601");
    reveal_strlit("ksc_5601");
    reveal_strlit("l1");
    reveal_strlit("l2");
    reveal_strlit("l3");
    reveal_strlit("l4");
    reveal_strlit("l5");
    reveal_strlit("l6");
    reveal_strlit("l9");
    reveal_strlit("latin1");
    reveal_strlit("latin2");
    reveal_strlit("latin3");
    reveal_strlit("latin4");
    reveal_strlit("latin5");
    reveal_strlit("latin6");
    reveal_strlit("logical");
    reveal_strlit("mac");
    reveal_strlit("macintosh");
    reveal_strlit("ms_kanji");
    reveal_strlit("shift-jis");
    reveal_strlit("shift_jis");
    reveal_strlit("sjis");
    reveal_strlit("sun_eu_greek");
    reveal_strlit("tis-620");
    reveal_strlit("unicode-1-1-utf-8");
    reveal_strlit("us-ascii");
    reveal_strlit("utf-16");
    reveal_strlit("utf-16be");
    reveal_strlit("utf-16le");
    reveal_strlit("utf-8");
    reveal_strlit("utf8");
    reveal_strlit("visual");
    reveal_strlit("windows-1250");
    reveal_strlit("windows-1251");
    reveal_strlit("windows-1252");
    reveal_strlit("windows-1253");
    reveal_strlit("windows-1254");
    reveal_strlit("windows-1255");
    reveal_strlit("windows-1256");
    reveal_strlit("windows-1257");
    reveal_strlit("windows-1258");
    reveal_strlit("windows-31j");
    reveal_strlit("windows-874");
    reveal_strlit("windows-949");
    reveal_strlit("x-cp1250");
    reveal_strlit("x-cp1251");
    reveal_strlit("x-cp1252");
    reveal_strlit("x-cp1253");
    reveal_strlit("x-cp1254");
    reveal_strlit("x-cp1255");
    reveal_strlit("x-cp1256");
    reveal_strlit("x-cp1257");
    reveal_strlit("x-cp1258");
    reveal_strlit("x-euc-jp");
    reveal_strlit("x-gbk");
    reveal_strlit("x-mac-cyrillic");
    reveal_strlit("x-mac-roman");
    reveal_strlit("x-mac-ukrainian");
    reveal_strlit("x-sjis");
    reveal_strlit("x-user-defined");
    reveal_strlit("x-x-big5");
    assert("866"@.len() == 3);
    assert("ansi_x3.4-1968"@.len() == 14);
    assert("arabic"@.len() == 6);
    assert("ascii"@.len() == 5);
    assert("asmo-708"@.len() == 8);
    assert("big5"@.len() == 4);
    assert("big5-hkscs"@.len() == 10);
    assert("chinese"@.len() == 7);
    assert("cn-big5"@.len() == 7);
    assert("cp1250"@.len() == 6);
    assert("cp1251"@.len() == 6);
    assert("cp1252"@.len() == 6);
    assert("cp1253"@.len() == 6);
    assert("cp1254"@.len() == 6);
    assert("cp1255"@.len() == 6);
    assert("cp1256"@.len() == 6);
    assert("cp1257"@.len() == 6);
    assert("cp1258"@.len() == 6);
    assert("cp819"@.len() == 5);
    assert("cp866"@.len() == 5);
    assert("csbig5"@.len() == 6);
    assert("cseuckr"@.len() == 7);
    assert("cseucpkdfmtjapanese"@.len() == 19);
    assert("csgb2312"@.len() == 8);
    assert("csibm866"@.len() == 8);
    assert("csiso2022jp"@.len() == 11);
    assert("csiso2022kr"@.len() == 11);
    assert("csiso58gb231280"@.len() == 15);
    assert("csiso88596e"@.len() == 11);
    assert("csiso88596i"@.len() == 11);
    assert("csiso88598e"@.len() == 11);
    assert("csiso88598i"@.len() == 11);
    assert("csisolatin1"@.len() == 11);
    assert("csisolatin2"@.len() == 11);
    assert("csisolatin3"@.len() == 11);
    assert("csisolatin4"@.len() == 11);
    assert("csisolatin5"@.len() == 11);
    assert("csisolatin6"@.len() == 11);
    assert("csisolatin9"@.len() == 11);
    assert("csisolatinarabic"@.len() == 16);
    assert("csisolatincyrillic"@.len() == 18);
    assert("csisolatingreek"@.len() == 15);
    assert("csisolatinhebrew"@.len() == 16);
    assert("cskoi8r"@.len() == 7);
    assert("csksc56011987"@.len() == 13);
    assert("csmacintosh"@.len() == 11);
    assert("csshiftjis"@.len() == 10);
    assert("cyrillic"@.len() == 8);
    assert("dos-874"@.len() == 7);
    assert("ecma-114"@.len() == 8);
    assert("ecma-118"@.len() == 8);
    assert("elot_928"@.len() == 8);
    assert("euc-jp"@.len() == 6);
    assert("euc-kr"@.len() == 6);
    assert("gb18030"@.len() == 7);
    assert("gb2312"@.len() == 6);
    assert("gb_2312"@.len() == 7);
    assert("gb_2312-80"@.len() == 10);
    assert("gbk"@.len() == 3);
    assert("greek"@.len() == 5);
    assert("greek8"@.len() == 6);
    assert("hebrew"@.len() == 6);
    assert("hz-gb-2312"@.len() == 10);
    assert("ibm819"@.len() == 6);
    assert("ibm866"@.len() == 6);
    assert("iso-2022-cn"@.len() == 11);
    assert("iso-2022-cn-ext"@.len() == 15);
    assert("iso-2022-jp"@.len() == 11);
    assert("iso-2022-kr"@.len() == 11);
    assert("iso-8859-1"@.len() == 10);
    assert("iso-8859-10"@.len() == 11);
    assert("iso-8859-11"@.len() == 11);
    assert("iso-8859-13"@.len() == 11);
    assert("iso-8859-14"@.len() == 11);
    assert("iso-8859-15"@.len() == 11);
    assert("iso-8859-16"@.len() == 11);
    assert("iso-8859-2"@.len() == 10);
    assert("iso-8859-3"@.len() == 10);
    assert("iso-8859-4"@.len() == 10);
    assert("iso-8859-5"@.len() == 10);
    assert("iso-8859-6"@.len() == 10);
    assert("iso-8859-6-e"@.len() == 12);
    assert("iso-8859-6-i"@.len() == 12);
    assert("iso-8859-7"@.len() == 10);
    assert("iso-8859-8"@.len() == 10);
    assert("iso-8859-8-e"@.len() == 12);
    assert("iso-8859-8-i"@.len() == 12);
    assert("iso-8859-9"@.len() == 10);
    assert("iso-ir-100"@.len() == 10);
    assert("iso-ir-101"@.len() == 10);
    assert("iso-ir-109"@.len() == 10);
    assert("iso-ir-110"@.len() == 10);
    assert("iso-ir-126"@.len() == 10);
    assert("iso-ir-127"@.len() == 10);
    assert("iso-ir-138"@.len() == 10);
    assert("iso-ir-144"@.len() == 10);
    assert("iso-ir-148"@.len() == 10);
    assert("iso-ir-149"@.len() == 10);
    assert("iso-ir-157"@.len() == 10);
    assert("iso-ir-58"@.len() == 9);
    assert("iso8859-1"@.len() == 9);
    assert("iso8859-10"@.len() == 10);
    assert("iso8859-11"@.len() == 10);
    assert("iso8859-13"@.len() == 10);
    assert("iso8859-14"@.len() == 10);
    assert("iso8859-15"@.len() == 10);
    assert("iso8859-2"@.len() == 9);
    assert("iso8859-3"@.len() == 9);
    assert("iso8859-4"@.len() == 9);
    assert("iso8859-5"@.len() == 9);
    assert("iso8859-6"@.len() == 9);
    assert("iso8859-7"@.len() == 9);
    assert("iso8859-8"@.len() == 9);
    assert("iso8859-9"@.len() == 9);
    assert("iso88591"@.len() == 8);
    assert("iso885910"@.len() == 9);
    assert("iso885911"@.len() == 9);
    assert("iso885913"@.len() == 9);
    assert("iso885914"@.len() == 9);
    assert("iso885915"@.len() == 9);
    assert("iso88592"@.len() == 8);
    assert("iso88593"@.len() == 8);
    assert("iso88594"@.len() == 8);
    assert("iso88595"@.len() == 8);
    assert("iso88596"@.len() == 8);
    assert("iso88597"@.len() == 8);
    assert("iso88598"@.len() == 8);
    assert("iso88599"@.len() == 8);
    assert("iso_8859-1"@.len() == 10);
    assert("iso_8859-15"@.len() == 11);
    assert("iso_8859-1:1987"@.len() == 15);
    assert("iso_8859-2"@.len() == 10);
    assert("iso_8859-2:1987"@.len() == 15);
    assert("iso_8859-3"@.len() == 10);
    assert("iso_8859-3:1988"@.len() == 15);
    assert("iso_8859-4"@.len() == 10);
    assert("iso_8859-4:1988"@.len() == 15);
    assert("iso_8859-5"@.len() == 10);
    assert("iso_8859-5:1988"@.len() == 15);
    assert("iso_8859-6"@.len() == 10);
    assert("iso_8859-6:1987"@.len() == 15);
    assert("iso_8859-7"@.len() == 10);
    assert("iso_8859-7:1987"@.len() == 15);
    assert("iso_8859-8"@.len() == 10);
    assert("iso_8859-8:1988"@.len() == 15);
    assert("iso_8859-9"@.len() == 10);
    assert("iso_8859-9:1989"@.len() == 15);
    assert("koi"@.len() == 3);
    assert("koi8"@.len() == 4);
    assert("koi8-r"@.len() == 6);
    assert("koi8-u"@.len() == 6);
    assert("koi8_r"@.len() == 6);
    assert("korean"@.len() == 6);
    assert("ks_c_5601-1987"@.len() == 14);
    assert("ks_c_5601-1989"@.len() == 14);
    assert("ksc5601"@.len() == 7);
    assert("ksc_5601"@.len() == 8);
    assert("l1"@.len() == 2);
    assert("l2"@.len() == 2);
    assert("l3"@.len() == 2);
    assert("l4"@.len() == 2);
    assert("l5"@.len() == 2);
    assert("l6"@.len() == 2);
    assert("l9"@.len() == 2);
    assert("latin1"@.len() == 6);
    assert("latin2"@.len() == 6);
    assert("latin3"@.len() == 6);
    assert("latin4"@.len() == 6);
    assert("latin5"@.len() == 6);
    assert("latin6"@.len() == 6);
    assert("logical"@.len() == 7);
    assert("mac"@.len() == 3);
    assert("macintosh"@.len() == 9);
    assert("ms_kanji"@.len() == 8);
    assert("shift-jis"@.len() == 9);
    assert("shift_jis"@.len() == 9);
    assert("sjis"@.len() == 4);
    assert("sun_eu_greek"@.len() == 12);
    assert("tis-620"@.len() == 7);
    assert("unicode-1-1-utf-8"@.len() == 17);
    assert("us-ascii"@.len() == 8);
    assert("utf-16"@.len() == 6);
    assert("utf-16be"@.len() == 8);
    assert("utf-16le"@.len() == 8);
    assert("utf-8"@.len() == 5);
    assert("utf8"@.len() == 4);
    assert("visual"@.len() == 6);
    assert("windows-1250"@.len() == 12);
    assert("windows-1251"@.len() == 12);
    assert("windows-1252"@.len() == 12);
    assert("windows-1253"@.len() == 12);
    assert("windows-1254"@.len() == 12);
    assert("windows-1255"@.len() == 12);
    assert("windows-1256"@.len() == 12);
    assert("windows-1257"@.len() == 12);
    assert("windows-1258"@.len() == 12);
    assert("windows-31j"@.len() == 11);
    assert("windows-874"@.len() == 11);
    assert("windows-949"@.len() == 11);
    assert("x-cp1250"@.len() == 8);
    assert("x-cp1251"@.len() == 8);
    assert("x-cp1252"@.len() == 8);
    assert("x-cp1253"@.len() == 8);
    assert("x-cp1254"@.len() == 8);
    assert("x-cp1255"@.len() == 8);
    assert("x-cp1256"@.len() == 8);
    assert("x-cp1257"@.len() == 8);
    assert("x-cp1258"@.len() == 8);
    assert("x-euc-jp"@.len() == 8);
    assert("x-gbk"@.len() == 5);
    assert("x-mac-cyrillic"@.len() == 14);
    assert("x-mac-roman"@.len() == 11);
    assert("x-mac-ukrainian"@.len() == 15);
    assert("x-sjis"@.len() == 6);
    assert("x-user-defined"@.len() == 14);
    assert("x-x-big5"@.len() == 8);
    assert("ansi_x3.4-1968"@[0] == 'a');
    assert("arabic"@[0] == 'a');
    assert("asmo-708"@[0] == 'a');
    assert("big5"@[0] == 'b');
    assert("chinese"@[0] == 'c');
    assert("cp1250"@[0] == 'c');
    assert("cp1251"@[0] == 'c');
    assert("cp1252"@[0] == 'c');
    assert("cp1253"@[0] == 'c');
    assert("cp1254"@[0] == 'c');
    assert("cp1255"@[0] == 'c');
    assert("cp1256"@[0] == 'c');
    assert("cp1257"@[0] == 'c');
    assert("cp1258"@[0] == 'c');
    assert("csbig5"@[0] == 'c');
    assert("csgb2312"@[0] == 'c');
    assert("csibm866"@[0] == 'c');
    assert("csiso2022jp"@[0] == 'c');
    assert("csiso88596e"@[0] == 'c');
    assert("csiso88596i"@[0] == 'c');
    assert("csiso88598e"@[0] == 'c');
    assert("csiso88598i"@[0] == 'c');
    assert("csisolatin1"@[0] == 'c');
    assert("csisolatin2"@[0] == 'c');
    assert("csisolatin3"@[0] == 'c');
    assert("csisolatin4"@[0] == 'c');
    assert("csisolatin5"@[0] == 'c');
    assert("csisolatin6"@[0] == 'c');
    assert("csisolatin9"@[0] == 'c');
    assert("cskoi8r"@[0] == 'c');
    assert("csmacintosh"@[0] == 'c');
    assert("cyrillic"@[0] == 'c');
    assert("dos-874"@[0] == 'd');
    assert("ecma-114"@[0] == 'e');
    assert("ecma-118"@[0] == 'e');
    assert("elot_928"@[0] == 'e');
    assert("euc-jp"@[0] == 'e');
    assert("euc-jp"@[4] == 'j');
    assert("euc-kr"@[0] == 'e');
    assert("euc-kr"@[4] == 'k');
    assert("gb18030"@[0] == 'g');
    assert("gb18030"@[2] == '1');
    assert("gb2312"@[0] == 'g');
    assert("gb_2312"@[2] == '_');
    assert("gb_2312-80"@[0] == 'g');
    assert("greek8"@[0] == 'g');
    assert("hebrew"@[0] == 'h');
    assert("hz-gb-2312"@[0] == 'h');
    assert("ibm819"@[0] == 'i');
    assert("ibm866"@[0] == 'i');
    assert("iso-2022-jp"@[0] == 'i');
    assert("iso-2022-jp"@[3] == '-');
    assert("iso-2022-jp"@[4] == '2');
    assert("iso-8859-1"@[0] == 'i');
    assert("iso-8859-10"@[0] == 'i');
    assert("iso-8859-10"@[4] == '8');
    assert("iso-8859-10"@[10] == '0');
    assert("iso-8859-11"@[0] == 'i');
    assert("iso-8859-11"@[4] == '8');
    assert("iso-8859-13"@[0] == 'i');
    assert("iso-8859-13"@[4] == '8');
    assert("iso-8859-13"@[10] == '3');
    assert("iso-8859-14"@[0] == 'i');
    assert("iso-8859-14"@[4] == '8');
    assert("iso-8859-14"@[10] == '4');
    assert("iso-8859-15"@[0] == 'i');
    assert("iso-8859-15"@[3] == '-');
    assert("iso-8859-15"@[4] == '8');
    assert("iso-8859-15"@[10] == '5');
    assert("iso-8859-16"@[0] == 'i');
    assert("iso-8859-16"@[3] == '-');
    assert("iso-8859-16"@[4] == '8');
    assert("iso-8859-16"@[10] == '6');
    assert("iso-8859-2"@[0] == 'i');
    assert("iso-8859-2"@[3] == '-');
    assert("iso-8859-2"@[4] == '8');
    assert("iso-8859-2"@[9] == '2');
    assert("iso-8859-3"@[0] == 'i');
    assert("iso-8859-3"@[3] == '-');
    assert("iso-8859-3"@[4] == '8');
    assert("iso-8859-3"@[9] == '3');
    assert("iso-8859-4"@[0] == 'i');
    assert("iso-8859-4"@[3] == '-');
    assert("iso-8859-4"@[4] == '8');
    assert("iso-8859-4"@[9] == '4');
    assert("iso-8859-5"@[0] == 'i');
    assert("iso-8859-5"@[3] == '-');
    assert("iso-8859-5"@[4] == '8');
    assert("iso-8859-5"@[9] == '5');
    assert("iso-8859-6"@[0] == 'i');
    assert("iso-8859-6"@[3] == '-');
    assert("iso-8859-6"@[4] == '8');
    assert("iso-8859-6"@[9] == '6');
    assert("iso-8859-6-e"@[0] == 'i');
    assert("iso-8859-6-e"@[9] == '6');
    assert("iso-8859-6-i"@[0] == 'i');
    assert("iso-8859-6-i"@[9] == '6');
    assert("iso-8859-7"@[0] == 'i');
    assert("iso-8859-7"@[3] == '-');
    assert("iso-8859-7"@[4] == '8');
    assert("iso-8859-7"@[9] == '7');
    assert("iso-8859-8"@[0] == 'i');
    assert("iso-8859-8"@[3] == '-');
    assert("iso-8859-8"@[4] == '8');
    assert("iso-8859-8"@[9] == '8');
    assert("iso-8859-8-e"@[0] == 'i');
    assert("iso-8859-8-e"@[11] == 'e');
    assert("iso-8859-8-i"@[0] == 'i');
    assert("iso-8859-8-i"@[9] == '8');
    assert("iso-8859-8-i"@[11] == 'i');
    assert("iso-8859-9"@[0] == 'i');
    assert("iso-ir-100"@[0] == 'i');
    assert("iso-ir-101"@[0] == 'i');
    assert("iso-ir-101"@[4] == 'i');
    assert("iso-ir-109"@[0] == 'i');
    assert("iso-ir-109"@[4] == 'i');
    assert("iso-ir-110"@[0] == 'i');
    assert("iso-ir-110"@[4] == 'i');
    assert("iso-ir-126"@[0] == 'i');
    assert("iso-ir-126"@[4] == 'i');
    assert("iso-ir-127"@[0] == 'i');
    assert("iso-ir-127"@[4] == 'i');
    assert("iso-ir-138"@[0] == 'i');
    assert("iso-ir-138"@[4] == 'i');
    assert("iso-ir-144"@[0] == 'i');
    assert("iso-ir-144"@[4] == 'i');
    assert("iso-ir-148"@[0] == 'i');
    assert("iso-ir-157"@[0] == 'i');
    assert("iso-ir-58"@[0] == 'i');
    assert("iso8859-1"@[0] == 'i');
    assert("iso8859-10"@[0] == 'i');
    assert("iso8859-11"@[0] == 'i');
    assert("iso8859-13"@[0] == 'i');
    assert("iso8859-14"@[0] == 'i');
    assert("iso8859-15"@[0] == 'i');
    assert("iso8859-2"@[0] == 'i');
    assert("iso8859-3"@[0] == 'i');
    assert("iso8859-4"@[0] == 'i');
    assert("iso8859-5"@[0] == 'i');
    assert("iso8859-6"@[0] == 'i');
    assert("iso8859-7"@[0] == 'i');
    assert("iso8859-8"@[0] == 'i');
    assert("iso8859-9"@[0] == 'i');
    assert("iso88591"@[0] == 'i');
    assert("iso885910"@[0] == 'i');
    assert("iso885911"@[0] == 'i');
    assert("iso885913"@[0] == 'i');
    assert("iso885914"@[0] == 'i');
    assert("iso885915"@[0] == 'i');
    assert("iso88592"@[0] == 'i');
    assert("iso88593"@[0] == 'i');
    assert("iso88594"@[0] == 'i');
    assert("iso88595"@[0] == 'i');
    assert("iso88596"@[0] == 'i');
    assert("iso88597"@[0] == 'i');
    assert("iso88598"@[0] == 'i');
    assert("iso88599"@[0] == 'i');
    assert("iso_8859-1"@[0] == 'i');
    assert("iso_8859-15"@[0] == 'i');
    assert("iso_8859-15"@[3] == '_');
    assert("iso_8859-2"@[0] == 'i');
    assert("iso_8859-2"@[3] == '_');
    assert("iso_8859-3"@[0] == 'i');
    assert("iso_8859-3"@[3] == '_');
    assert("iso_8859-4"@[0] == 'i');
    assert("iso_8859-4"@[3] == '_');
    assert("iso_8859-5"@[0] == 'i');
    assert("iso_8859-5"@[3] == '_');
    assert("iso_8859-6"@[0] == 'i');
    assert("iso_8859-6"@[3] == '_');
    assert("iso_8859-7"@[0] == 'i');
    assert("iso_8859-7"@[3] == '_');
    assert("iso_8859-8"@[0] == 'i');
    assert("iso_8859-8"@[3] == '_');
    assert("iso_8859-9"@[0] == 'i');
    assert("koi8"@[0] == 'k');
    assert("koi8-r"@[0] == 'k');
    assert("koi8-r"@[4] == '-');
    assert("koi8-r"@[5] == 'r');
    assert("koi8-u"@[0] == 'k');
    assert("koi8-u"@[4] == '-');
    assert("koi8-u"@[5] == 'u');
    assert("koi8_r"@[0] == 'k');
    assert("koi8_r"@[4] == '_');
    assert("korean"@[0] == 'k');
    assert("ks_c_5601-1987"@[0] == 'k');
    assert("ks_c_5601-1989"@[0] == 'k');
    assert("ksc_5601"@[0] == 'k');
    assert("latin1"@[0] == 'l');
    assert("latin2"@[0] == 'l');
    assert("latin3"@[0] == 'l');
    assert("latin4"@[0] == 'l');
    assert("latin5"@[0] == 'l');
    assert("latin6"@[0] == 'l');
    assert("logical"@[0] == 'l');
    assert("macintosh"@[0] == 'm');
    assert("ms_kanji"@[0] == 'm');
    assert("shift-jis"@[5] == '-');
    assert("shift_jis"@[0] == 's');
    assert("shift_jis"@[5] == '_');
    assert("sun_eu_greek"@[0] == 's');
    assert("tis-620"@[0] == 't');
    assert("us-ascii"@[1] == 's');
    assert("utf-16"@[0] == 'u');
    assert("utf-16be"@[0] == 'u');
    assert("utf-16be"@[1] == 't');
    assert("utf8"@[0] == 'u');
    assert("visual"@[0] == 'v');
    assert("windows-1250"@[0] == 'w');
    assert("windows-1250"@[11] == '0');
    assert("windows-1251"@[0] == 'w');
    assert("windows-1251"@[11] == '1');
    assert("windows-1252"@[0] == 'w');
    assert("windows-1252"@[11] == '2');
    assert("windows-1253"@[0] == 'w');
    assert("windows-1253"@[11] == '3');
    assert("windows-1254"@[0] == 'w');
    assert("windows-1254"@[11] == '4');
    assert("windows-1255"@[0] == 'w');
    assert("windows-1255"@[11] == '5');
    assert("windows-1256"@[0] == 'w');
    assert("windows-1256"@[11] == '6');
    assert("windows-1257"@[0] == 'w');
    assert("windows-1257"@[11] == '7');
    assert("windows-1258"@[0] == 'w');
    assert("windows-1258"@[11] == '8');
    assert("windows-874"@[0] == 'w');
    assert("x-cp1250"@[0] == 'x');
    assert("x-cp1251"@[0] == 'x');
    assert("x-cp1252"@[0] == 'x');
    assert("x-cp1253"@[0] == 'x');
    assert("x-cp1254"@[0] == 'x');
    assert("x-cp1255"@[0] == 'x');
    assert("x-cp1256"@[0] == 'x');
    assert("x-cp1257"@[0] == 'x');
    assert("x-cp1258"@[0] == 'x');
    assert("x-euc-jp"@[0] == 'x');
    assert("x-mac-cyrillic"@[0] == 'x');
    assert("x-mac-cyrillic"@[2] == 'm');
    assert("x-mac-roman"@[0] == 'x');
    assert("x-sjis"@[0] == 'x');
    assert("x-user-defined"@[0] == 'x');
    assert("x-user-defined"@[2] == 'u');
    assert("x-x-big5"@[0] == 'x');
    assert(normalize_label("utf-8"@) =~= "utf-8"@);
    assert(normalize_label("ibm866"@) =~= "ibm866"@);
    assert(normalize_label("iso-8859-2"@) =~= "iso-8859-2"@);
    assert(normalize_label("iso-8859-3"@) =~= "iso-8859-3"@);
    assert(normalize_label("iso-8859-4"@) =~= "iso-8859-4"@);
    assert(normalize_label("iso-8859-5"@) =~= "iso-8859-5"@);
    assert(normalize_label("iso-8859-6"@) =~= "iso-8859-6"@);
    assert(normalize_label("iso-8859-7"@) =~= "iso-8859-7"@);
    assert(normalize_label("iso-8859-8"@) =~= "iso-8859-8"@);
    assert(normalize_label("iso-8859-8-i"@) =~= "iso-8859-8-i"@);
    assert(normalize_label("iso-8859-10"@) =~= "iso-8859-10"@);
    assert(normalize_label("iso-8859-13"@) =~= "iso-8859-13"@);
    assert(normalize_label("iso-8859-14"@) =~= "iso-8859-14"@);
    assert(normalize_label("iso-8859-15"@) =~= "iso-8859-15"@);
    assert(normalize_label("iso-8859-16"@) =~= "iso-8859-16"@);
    assert(normalize_label("koi8-r"@) =~= "koi8-r"@);
    assert(normalize_label("koi8-u"@) =~= "koi8-u"@);
    assert(normalize_label("macintosh"@) =~= "macintosh"@);
    assert(normalize_label("windows-874"@) =~= "windows-874"@);
    assert(normalize_label("windows-1250"@) =~= "windows-1250"@);
    assert(normalize_label("windows-1251"@) =~= "windows-1251"@);
    assert(normalize_label("windows-1252"@) =~= "windows-1252"@);
    assert(normalize_label("windows-1253"@) =~= "windows-1253"@);
    assert(normalize_label("windows-1254"@) =~= "windows-1254"@);
    assert(normalize_label("windows-1255"@) =~= "windows-1255"@);
    assert(normalize_label("windows-1256"@) =~= "windows-1256"@);
    assert(normalize_label("windows-1257"@) =~= "windows-1257"@);
    assert(normalize_label("windows-1258"@) =~= "windows-1258"@);
    assert(normalize_label("x-mac-cyrillic"@) =~= "x-mac-cyrillic"@);
    assert(normalize_label("gb18030"@) =~= "gb18030"@);
    assert(normalize_label("hz-gb-2312"@) =~= "hz-gb-2312"@);
    assert(normalize_label("big5"@) =~= "big5"@);
    assert(normalize_label("euc-jp"@) =~= "euc-jp"@);
    assert(normalize_label("iso-2022-jp"@) =~= "iso-2022-jp"@);
    assert(normalize_label("shift_jis"@) =~= "shift_jis"@);
    assert(normalize_label("euc-kr"@) =~= "euc-kr"@);
    assert(normalize_label("utf-16be"@) =~= "utf-16be"@);
    assert(normalize_label("utf-16"@) =~= "utf-16"@);
    assert(normalize_label("x-user-defined"@) =~= "x-user-defined"@);
}

/// The WHATWG name of an encoding that a label finds, other than that of the replacement
/// encoding (which is no label of it), is itself a label of that same encoding.
pub proof fn lemma_whatwg_name_is_label(label: Seq<char>)
    requires
        whatwg_label_encoding(normalize_label(label)) matches Some(e) && e.spec_whatwg_name() matches Some(
            w,
        ) && w@ != "replacement"@,
    ensures
        whatwg_label_encoding(normalize_label(
            whatwg_label_encoding(normalize_label(label)).unwrap().spec_whatwg_name().unwrap()@,
        )) == whatwg_label_encoding(normalize_label(label)),
{
    lemma_whatwg_names_found();
}

} // verus!
