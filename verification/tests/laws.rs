use encoding::all;
use encoding::codec::simpchinese::{map_four_bytes, map_two_bytes};
use encoding::codec::singlebyte::{index_backward, index_forward, iso_8859_1, SingleByteIndex};
use encoding::codec::singlebyte::SingleByteEncoding as S;
use encoding::codec::korean;
use encoding::codec::tradchinese;
use encoding::encoding_ref::EncodingRef;
use encoding::index::whatwg_x_user_defined;
use encoding::label::{encoding_from_whatwg_label, encoding_from_windows_code_page};
use encoding::types::{
    feed_decoder, feed_encoder, finish_decoder, DecoderTrap, Encoding, EncoderTrap, RawDecoder,
    RawEncoder, INCOMPLETE_SEQUENCE, INVALID_SEQUENCE, UNREPRESENTABLE,
};

const SAMPLES: [&str; 5] = [
    "",
    "ASCII only",
    "caf\u{e9} \u{20ac} \u{7ff}\u{800}",
    "\u{d7ff}\u{e000}\u{ffff}\u{10000}\u{10ffff}",
    "\u{c6b0}\u{c640} \u{65e5}\u{672c} \u{1f600}",
];

#[test]
fn utf8_roundtrip_samples() {
    for s in SAMPLES.iter() {
        let bytes = all::UTF_8.encode(s, EncoderTrap::Strict).unwrap();
        assert_eq!(bytes, s.as_bytes());
        assert_eq!(all::UTF_8.decode(&bytes, DecoderTrap::Strict), Ok(String::from(*s)));
    }
}

#[test]
fn utf16_roundtrip_samples() {
    for s in SAMPLES.iter() {
        let le = all::UTF_16LE.encode(s, EncoderTrap::Strict).unwrap();
        let be = all::UTF_16BE.encode(s, EncoderTrap::Strict).unwrap();
        let units: Vec<u16> = s.encode_utf16().collect();
        let expected_le: Vec<u8> = units.iter().flat_map(|u| u.to_le_bytes()).collect();
        let expected_be: Vec<u8> = units.iter().flat_map(|u| u.to_be_bytes()).collect();
        assert_eq!(le, expected_le);
        assert_eq!(be, expected_be);
        assert_eq!(all::UTF_16LE.decode(&le, DecoderTrap::Strict), Ok(String::from(*s)));
        assert_eq!(all::UTF_16BE.decode(&be, DecoderTrap::Strict), Ok(String::from(*s)));
    }
}

#[test]
fn decode_split_at_stable_point() {
    let whole: &[u8] = &[0x41, 0xc3, 0xa9, 0xe2, 0x82, 0xac, 0xf0, 0x9f, 0x98, 0x80, 0x42];
    for cut in [0usize, 1, 3, 6, 10, 11].iter() {
        let mut d = all::UTF_8.raw_decoder();
        let mut out = String::new();
        let (p1, e1) = feed_decoder(&mut d, &whole[..*cut], &mut out);
        let (p2, e2) = feed_decoder(&mut d, &whole[*cut..], &mut out);
        assert!(e1.is_none() && e2.is_none());
        assert_eq!(p1, *cut);
        assert_eq!(p2, whole.len() - cut);
        assert_eq!(out, "A\u{e9}\u{20ac}\u{1f600}B");
    }
}

#[test]
fn decode_split_error_position_shifts() {
    // an invalid start byte after a complete first part
    let mut d = all::UTF_8.raw_decoder();
    let mut out = String::new();
    let (p1, e1) = feed_decoder(&mut d, &[0x41, 0x42], &mut out);
    assert_eq!((p1, e1.is_none()), (2, true));
    let (p2, e2) = feed_decoder(&mut d, &[0x43, 0xff, 0x44], &mut out);
    assert_eq!(p2, 1);
    assert_eq!(e2.unwrap().upto, 2);
    let mut d = all::UTF_8.raw_decoder();
    let mut out2 = String::new();
    let (p, e) = feed_decoder(&mut d, &[0x41, 0x42, 0x43, 0xff, 0x44], &mut out2);
    assert_eq!(p, 3);
    assert_eq!(e.unwrap().upto, 4);
    assert_eq!(out, out2);
}

#[test]
fn encode_split() {
    let mut e = all::WINDOWS_949.raw_encoder();
    let mut out = Vec::new();
    let (p1, e1) = feed_encoder(&mut e, "A\u{ac00}", &mut out);
    let (p2, e2) = feed_encoder(&mut e, "B\u{ffff}C", &mut out);
    assert_eq!((p1, e1.is_none()), (4, true));
    assert_eq!(p2, 1);
    assert_eq!(e2.unwrap().upto, 4);
    let mut e = all::WINDOWS_949.raw_encoder();
    let mut out2 = Vec::new();
    let (p, err) = feed_encoder(&mut e, "A\u{ac00}B\u{ffff}C", &mut out2);
    assert_eq!(p, 5);
    assert_eq!(err.unwrap().upto, 8);
    assert_eq!(out, out2);
    assert_eq!(out, vec![0x41, 0xb0, 0xa1, 0x42]);
}

#[test]
fn replacing_traps_never_fail() {
    let garbage: &[u8] = &[0xff, 0x80, 0xc3, 0x28, 0xe2, 0x82, 0x41, 0xfe, 0xf0];
    let encodings = [
        EncodingRef::UTF8(all::UTF_8),
        EncodingRef::UTF16LE(all::UTF_16LE),
        EncodingRef::Windows949(all::WINDOWS_949),
        EncodingRef::EUCJP(all::EUC_JP),
        EncodingRef::ISO2022JP(all::ISO_2022_JP),
        EncodingRef::GB18030(all::GB18030),
        EncodingRef::HZ(all::HZ),
        EncodingRef::BigFive2003(all::BIG5_2003),
        EncodingRef::ASCII(all::ASCII),
        EncodingRef::Error(all::ERROR),
    ];
    for enc in encodings.iter() {
        assert!(enc.decode(garbage, DecoderTrap::Replace).is_ok(), "{}", enc.name());
        assert!(enc.decode(garbage, DecoderTrap::Ignore).is_ok(), "{}", enc.name());
    }
    assert_eq!(
        all::UTF_8.decode(garbage, DecoderTrap::Replace),
        Ok(String::from("\u{fffd}\u{fffd}\u{fffd}(\u{fffd}A\u{fffd}\u{fffd}"))
    );
    assert_eq!(all::UTF_8.decode(garbage, DecoderTrap::Ignore), Ok(String::from("(A")));
    assert_eq!(all::UTF_8.decode(garbage, DecoderTrap::Strict), Err(INVALID_SEQUENCE));
}

#[test]
fn encoder_traps() {
    let s = "Hello, \u{4e16}\u{754c}!";
    assert_eq!(all::ASCII.encode(s, EncoderTrap::Strict), Err(UNREPRESENTABLE));
    assert_eq!(all::ASCII.encode(s, EncoderTrap::Replace), Ok(b"Hello, ??!".to_vec()));
    assert_eq!(all::ASCII.encode(s, EncoderTrap::Ignore), Ok(b"Hello, !".to_vec()));
    assert_eq!(
        all::ASCII.encode(s, EncoderTrap::NcrEscape),
        Ok(b"Hello, &#19990;&#30028;!".to_vec())
    );
    // a non-ASCII-compatible encoder re-encodes the replacement
    assert_eq!(
        all::HZ.encode("\u{ffff}", EncoderTrap::Replace),
        Ok(b"?".to_vec())
    );
    assert_eq!(
        all::UTF_16BE.encode("a", EncoderTrap::Strict),
        Ok(vec![0x00, 0x61])
    );
}

#[test]
fn ascii_compatible_decoders_and_encoders() {
    let ascii: Vec<u8> = (0u8..0x80).collect();
    let text: String = ascii.iter().map(|&b| b as char).collect();
    let encodings = [
        EncodingRef::UTF8(all::UTF_8),
        EncodingRef::SingleByte(all::WINDOWS_1252),
        EncodingRef::SingleByte(all::KOI8_R),
        EncodingRef::Windows949(all::WINDOWS_949),
        EncodingRef::EUCJP(all::EUC_JP),
        EncodingRef::Windows31J(all::WINDOWS_31J),
        EncodingRef::GB18030(all::GB18030),
        EncodingRef::GBK18030(all::GBK18030),
        EncodingRef::BigFive2003(all::BIG5_2003),
        EncodingRef::ASCII(all::ASCII),
    ];
    for enc in encodings.iter() {
        assert!(enc.raw_decoder().is_ascii_compatible());
        assert!(enc.raw_encoder().is_ascii_compatible());
        assert_eq!(enc.decode(&ascii, DecoderTrap::Strict), Ok(text.clone()), "{}", enc.name());
        assert_eq!(enc.encode(&text, EncoderTrap::Strict), Ok(ascii.clone()), "{}", enc.name());
    }
    assert!(!all::UTF_16LE.raw_decoder().is_ascii_compatible());
    assert!(!all::HZ.raw_encoder().is_ascii_compatible());
    assert!(!all::ISO_2022_JP.raw_encoder().is_ascii_compatible());
    // a replacement written while JIS X 0208 is in use goes back to ASCII first
    assert_eq!(
        all::ISO_2022_JP.encode("\u{30cd}\u{e9}", EncoderTrap::Replace),
        Ok(vec![0x1b, 0x24, 0x42, 0x25, 0x4d, 0x1b, 0x28, 0x42, 0x3f])
    );
    assert_eq!(
        all::ISO_2022_JP.encode("\u{30cd}\u{e9}", EncoderTrap::NcrEscape),
        Ok(vec![0x1b, 0x24, 0x42, 0x25, 0x4d, 0x1b, 0x28, 0x42, b'&', b'#', b'2', b'3', b'3', b';'])
    );
}

#[test]
fn finish_resets_and_reports_incomplete() {
    let mut d = all::UTF_8.raw_decoder();
    let mut out = String::new();
    let _ = feed_decoder(&mut d, &[0xe2, 0x82], &mut out);
    let err = finish_decoder(&mut d, &mut out).unwrap();
    assert_eq!(err.upto, 0);
    assert_eq!(err.cause, INCOMPLETE_SEQUENCE);
    assert!(d.is_stable());
    assert!(finish_decoder(&mut d, &mut out).is_none());
    assert_eq!(out, "");
}

#[test]
fn labels_and_code_pages() {
    assert_eq!(encoding_from_whatwg_label(" LATIN1 ").unwrap().name(), "windows-1252");
    assert_eq!(encoding_from_whatwg_label("x-user-defined").unwrap().name(), "pua-mapped-binary");
    assert_eq!(encoding_from_whatwg_label("Shift_JIS").unwrap().name(), "windows-31j");
    assert_eq!(encoding_from_whatwg_label("iso-2022-kr").unwrap().whatwg_name(), Some("replacement"));
    assert_eq!(encoding_from_whatwg_label("logical").unwrap().name(), "iso-8859-8-i");
    assert!(encoding_from_whatwg_label("").is_none());
    assert!(encoding_from_whatwg_label("utf-8 x").is_none());
    assert_eq!(encoding_from_windows_code_page(65001).unwrap().name(), "utf-8");
    assert_eq!(encoding_from_windows_code_page(949).unwrap().name(), "windows-949");
    assert_eq!(encoding_from_windows_code_page(54936).unwrap().name(), "gb18030");
    assert_eq!(encoding_from_windows_code_page(28591).unwrap().whatwg_name(), None);
    assert!(encoding_from_windows_code_page(1).is_none());
}

#[test]
fn replacement_encoding() {
    let r = encoding_from_whatwg_label("csiso2022kr").unwrap();
    assert_eq!(r.encode("\u{e9}", EncoderTrap::Strict), Ok(vec![0xc3, 0xa9]));
    assert_eq!(r.decode(&[0x41], DecoderTrap::Strict), Err(INVALID_SEQUENCE));
    assert_eq!(r.decode(&[0x41, 0x42], DecoderTrap::Replace), Ok(String::from("\u{fffd}\u{fffd}")));
}

#[test]
fn index_lookups() {
    assert_eq!(korean::map_two_bytes(0xb0, 0xa1), 0xac00);
    assert_eq!(korean::map_two_bytes(0x80, 0xa1), 0xffff);
    assert_eq!(map_two_bytes(0xd6, 0xd0), 0x4e2d);
    assert_eq!(map_two_bytes(0x81, 0x20), 0xffff);
    assert_eq!(map_four_bytes(0x81, 0x30, 0x81, 0x30), 0x80);
    assert_eq!(tradchinese::map_two_bytes(0xa4, 0x40), 0x4e00);
    assert_eq!(tradchinese::map_two_bytes(0x88, 0x62), 0);
    assert_eq!(
        all::BIG5_2003.decode(&[0x88, 0x62, 0x88, 0x64], DecoderTrap::Strict),
        Ok(String::from("\u{ca}\u{304}\u{ca}\u{30c}"))
    );
    assert_eq!(index_forward(SingleByteIndex::Iso8859_2, 0xa1), 0x104);
    assert_eq!(index_backward(SingleByteIndex::Iso8859_2, 0x104), 0xa1);
    assert_eq!(index_backward(SingleByteIndex::Iso8859_2, 0x4e00), 0);
    assert_eq!(index_forward(SingleByteIndex::XUserDefined, 0x80), 0xf780);
    assert_eq!(index_backward(SingleByteIndex::XUserDefined, 0xf7ff), 0xff);
    assert_eq!(iso_8859_1::forward(0xe9), 0xe9);
    assert_eq!(iso_8859_1::backward(0xe9), 0xe9);
    assert_eq!(iso_8859_1::backward(0x41), 0);
    assert_eq!(iso_8859_1::backward(0x100), 0);
    assert_eq!(whatwg_x_user_defined::forward(0x7f), 0xf7ff);
    assert_eq!(whatwg_x_user_defined::backward(0xf780), 0);
    assert_eq!(whatwg_x_user_defined::backward(0xf800), 0xff);
    assert_eq!(
        all::GB18030.encode("\u{80}\u{10ffff}", EncoderTrap::Strict),
        Ok(vec![0x81, 0x30, 0x81, 0x30, 0xe3, 0x32, 0x9a, 0x35])
    );
}

#[test]
fn stateful_encoders_keep_state_on_error() {
    let mut e = all::ISO_2022_JP.raw_encoder();
    let mut out = Vec::new();
    let (_, err) = feed_encoder(&mut e, "\u{ff88}\u{ffff}", &mut out);
    assert!(err.is_some());
    let (_, err) = feed_encoder(&mut e, "\u{ff88}", &mut out);
    assert!(err.is_none());
    assert_eq!(out, vec![0x1b, 0x28, 0x49, 0x48, 0x48]);

    let mut e = all::HZ.raw_encoder();
    let mut out = Vec::new();
    let _ = feed_encoder(&mut e, "\u{4e00}", &mut out);
    let (_, err) = feed_encoder(&mut e, "\u{3007}", &mut out);
    assert!(err.is_some());
    let _ = feed_encoder(&mut e, "a~", &mut out);
    assert_eq!(out, b"~{R;~}a~~".to_vec());
}

#[test]
fn x_user_defined_roundtrip() {
    let bytes: Vec<u8> = (0u8..=0xff).collect();
    let s = all::whatwg::X_USER_DEFINED.decode(&bytes, DecoderTrap::Strict).unwrap();
    assert_eq!(s.chars().nth(0x80), Some('\u{f780}'));
    assert_eq!(all::whatwg::X_USER_DEFINED.encode(&s, EncoderTrap::Strict), Ok(bytes));
}

#[test]
fn encoding_names_are_distinct() {
    let singles = [
        S::Ibm866, S::Iso8859_1, S::Iso8859_2, S::Iso8859_3, S::Iso8859_4, S::Iso8859_5,
        S::Iso8859_6, S::Iso8859_7, S::Iso8859_8, S::Iso8859_10, S::Iso8859_13, S::Iso8859_14,
        S::Iso8859_15, S::Iso8859_16, S::Koi8R, S::Koi8U, S::MacRoman, S::Windows874,
        S::Windows1250, S::Windows1251, S::Windows1252, S::Windows1253, S::Windows1254,
        S::Windows1255, S::Windows1256, S::Windows1257, S::Windows1258, S::MacCyrillic,
        S::Iso8859_8I, S::XUserDefined,
    ];
    let mut names: Vec<&str> = singles.iter().map(|s| EncodingRef::SingleByte(*s).name()).collect();
    names.extend([
        EncodingRef::Error(all::ERROR).name(),
        EncodingRef::ASCII(all::ASCII).name(),
        EncodingRef::UTF8(all::UTF_8).name(),
        EncodingRef::UTF16LE(all::UTF_16LE).name(),
        EncodingRef::UTF16BE(all::UTF_16BE).name(),
        EncodingRef::Windows949(all::WINDOWS_949).name(),
        EncodingRef::EUCJP(all::EUC_JP).name(),
        EncodingRef::Windows31J(all::WINDOWS_31J).name(),
        EncodingRef::ISO2022JP(all::ISO_2022_JP).name(),
        EncodingRef::ShiftJIS(encoding::codec::japanese::ShiftJISEncoding).name(),
        EncodingRef::GB18030(all::GB18030).name(),
        EncodingRef::GBK18030(all::GBK18030).name(),
        EncodingRef::HZ(all::HZ).name(),
        EncodingRef::BigFive2003(all::BIG5_2003).name(),
        EncodingRef::Replacement(encoding::codec::whatwg::EncoderOnlyUTF8Encoding).name(),
    ]);
    let mut sorted = names.clone();
    sorted.sort();
    sorted.dedup();
    assert_eq!(names.len(), 45);
    assert_eq!(sorted.len(), names.len());
}

#[test]
fn chunked_feeding_equals_whole_input() {
    let input: &[u8] = &[0x41, 0x81, 0x30, 0x81, 0x30, 0xb0, 0xa1, 0x42, 0x81];
    let mut whole = all::GB18030.raw_decoder();
    let mut out_whole = String::new();
    let (_, err) = whole.raw_feed(input, &mut out_whole);
    assert!(err.is_none());
    for size in 1..input.len() {
        let mut d = all::GB18030.raw_decoder();
        let mut out = String::new();
        for chunk in input.chunks(size) {
            let (_, e) = d.raw_feed(chunk, &mut out);
            assert!(e.is_none());
        }
        assert_eq!(out, out_whole);
        assert_eq!(out, "A\u{80}\u{554a}B");
        let mut o1 = String::new();
        let mut o2 = String::new();
        let mut w = all::GB18030.raw_decoder();
        w.raw_feed(input, &mut o2);
        assert_eq!(d.raw_finish(&mut o1).map(|e| e.cause), w.raw_finish(&mut o2).map(|e| e.cause));
    }
}

#[test]
fn reported_offsets_stay_inside_the_input() {
    let mut d = all::GBK18030.raw_decoder();
    let mut out = String::new();
    let (p, e) = d.raw_feed(&[0x41, 0x81], &mut out);
    assert_eq!((p, e.is_none()), (1, true));
    let (p, e) = d.raw_feed(&[0x20, 0x42], &mut out);
    let e = e.unwrap();
    assert_eq!((p, e.upto, e.cause), (0, 0, INVALID_SEQUENCE));
    assert!(p as isize <= e.upto && e.upto <= 2);
    let (p, e) = d.raw_feed(&[0x20, 0x42, 0xff], &mut out);
    let e = e.unwrap();
    assert_eq!((p, e.upto), (2, 3));
}

#[test]
fn lookup_uses_the_normalized_label() {
    for label in ["UTF-8", " \tLatin1\r\n", "\x0cSHIFT_JIS ", "Big5", "x-User-Defined"] {
        let normalized = label
            .trim_matches(|c| c == ' ' || c == '\t' || c == '\n' || c == '\r' || c == '\x0C')
            .to_ascii_lowercase();
        let a = encoding_from_whatwg_label(label).map(|e| e.name());
        let b = encoding_from_whatwg_label(&normalized).map(|e| e.name());
        assert!(a.is_some());
        assert_eq!(a, b);
    }
}

#[test]
fn whatwg_names_are_labels() {
    for label in ["utf8", "latin1", "sjis", "gbk", "big5-hkscs", "csiso2022jp", "x-mac-cyrillic",
                  "logical", "x-user-defined", "utf-16", "koi8", "euc-kr", "hz-gb-2312"] {
        let e = encoding_from_whatwg_label(label).unwrap();
        let w = e.whatwg_name().unwrap();
        assert_eq!(encoding_from_whatwg_label(w).map(|x| x.name()), Some(e.name()), "{}", label);
    }
}

#[test]
fn gb18030_encodes_every_character() {
    let mut e = all::GB18030.raw_encoder();
    let mut out = Vec::new();
    let (p, err) = e.raw_feed("\u{80}\u{ffff}\u{10ffff}\u{d7ff}\u{e000}", &mut out);
    assert!(err.is_none());
    assert_eq!(p, 15);
    assert_eq!(&out[..12], &[0x81, 0x30, 0x81, 0x30, 0x84, 0x31, 0xa4, 0x39, 0xe3, 0x32, 0x9a, 0x35]);
    let all_chars: String = (0x80u32..0x110000).filter_map(char::from_u32).collect();
    let mut e = all::GB18030.raw_encoder();
    let mut out = Vec::new();
    assert!(e.raw_feed(&all_chars, &mut out).1.is_none());
}
