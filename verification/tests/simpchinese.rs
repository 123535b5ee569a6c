use encoding::codec::simpchinese::{GB18030Encoding, GBK18030Encoding, HZEncoding};
use encoding::types::{
    feed_decoder, feed_encoder, finish_decoder, Encoding, RawDecoder, RawEncoder,
};

fn dec_feed_ok<D: RawDecoder>(d: &mut D, processed: &[u8], unprocessed: &[u8], output: &str) {
    let mut input = processed.to_vec();
    input.extend_from_slice(unprocessed);
    let mut buf = String::new();
    let (n, err) = feed_decoder(d, &input, &mut buf);
    assert_eq!(n, processed.len(), "processed bytes of {:?}", input);
    assert!(err.is_none(), "unexpected error on {:?}", input);
    assert_eq!(buf, output);
}

fn dec_feed_err<D: RawDecoder>(
    d: &mut D,
    processed: &[u8],
    problem: &[u8],
    remaining: &[u8],
    output: &str,
) {
    let mut input = processed.to_vec();
    input.extend_from_slice(problem);
    input.extend_from_slice(remaining);
    let mut buf = String::new();
    let (n, err) = feed_decoder(d, &input, &mut buf);
    assert_eq!(n, processed.len(), "processed bytes of {:?}", input);
    let err = err.expect("an error");
    assert_eq!(err.upto, (processed.len() + problem.len()) as isize, "upto of {:?}", input);
    assert_eq!(buf, output);
}

fn dec_finish_ok<D: RawDecoder>(d: &mut D, output: &str) {
    let mut buf = String::new();
    let err = finish_decoder(d, &mut buf);
    assert!(err.is_none());
    assert_eq!(buf, output);
}

fn dec_finish_err<D: RawDecoder>(d: &mut D, output: &str) {
    let mut buf = String::new();
    let err = finish_decoder(d, &mut buf);
    assert_eq!(err.expect("an error").upto, 0);
    assert_eq!(buf, output);
}

fn enc_feed_ok<E: RawEncoder>(e: &mut E, processed: &str, unprocessed: &str, output: &[u8]) {
    let input = format!("{}{}", processed, unprocessed);
    let mut buf: Vec<u8> = Vec::new();
    let (n, err) = feed_encoder(e, &input, &mut buf);
    assert_eq!(n, processed.len(), "processed bytes of {:?}", input);
    assert!(err.is_none(), "unexpected error on {:?}", input);
    assert_eq!(buf, output);
}

fn enc_feed_err<E: RawEncoder>(
    e: &mut E,
    processed: &str,
    problem: &str,
    remaining: &str,
    output: &[u8],
) {
    let input = format!("{}{}{}", processed, problem, remaining);
    let mut buf: Vec<u8> = Vec::new();
    let (n, err) = feed_encoder(e, &input, &mut buf);
    assert_eq!(n, processed.len(), "processed bytes of {:?}", input);
    let err = err.expect("an error");
    assert_eq!(err.upto, (processed.len() + problem.len()) as isize, "upto of {:?}", input);
    assert_eq!(buf, output);
}

fn enc_finish_ok<E: RawEncoder>(e: &mut E, output: &[u8]) {
    let mut buf: Vec<u8> = Vec::new();
    let err = e.raw_finish(&mut buf);
    assert!(err.is_none());
    assert_eq!(buf, output);
}

#[test]
fn simpchinese_test_encoder_valid() {
    {
        let mut e = GB18030Encoding.raw_encoder();
        enc_feed_ok(&mut e, "A", "", &[0x41]);
        enc_feed_ok(&mut e, "BC", "", &[0x42, 0x43]);
        enc_feed_ok(&mut e, "", "", &[]);
        enc_feed_ok(&mut e, "\u{4e2d}\u{534e}\u{4eba}\u{6c11}\u{5171}\u{548c}\u{56fd}", "", &[0xd6, 0xd0, 0xbb, 0xaa, 0xc8, 0xcb, 0xc3, 0xf1,
                         0xb9, 0xb2, 0xba, 0xcd, 0xb9, 0xfa]);
        enc_feed_ok(&mut e, "1\u{20ac}/m", "", &[0x31, 0xa2, 0xe3, 0x2f, 0x6d]);
        enc_feed_ok(&mut e, "\u{ff21}\u{ff22}\u{ff23}", "", &[0xa3, 0xc1, 0xa3, 0xc2, 0xa3, 0xc3]);
        enc_feed_ok(&mut e, "\u{80}", "", &[0x81, 0x30, 0x81, 0x30]);
        enc_feed_ok(&mut e, "\u{81}", "", &[0x81, 0x30, 0x81, 0x31]);
        enc_feed_ok(&mut e, "\u{a3}", "", &[0x81, 0x30, 0x84, 0x35]);
        enc_feed_ok(&mut e, "\u{a4}", "", &[0xa1, 0xe8]);
        enc_feed_ok(&mut e, "\u{a5}", "", &[0x81, 0x30, 0x84, 0x36]);
        enc_feed_ok(&mut e, "\u{10ffff}", "", &[0xe3, 0x32, 0x9a, 0x35]);
        enc_feed_ok(&mut e, "\u{2a6a5}\u{3007}", "", &[0x98, 0x35, 0xee, 0x37, 0xa9, 0x96]);
        enc_finish_ok(&mut e, &[]);
    }
    {
        let mut e = HZEncoding.raw_encoder();
        enc_feed_ok(&mut e, "A", "", b"A");
        enc_feed_ok(&mut e, "BC", "", b"BC");
        enc_feed_ok(&mut e, "", "", b"");
        enc_feed_ok(&mut e, "\u{4e2d}\u{534e}\u{4eba}\u{6c11}\u{5171}\u{548c}\u{56fd}", "", b"~{VP;*HKCq92:M9z");
        enc_feed_ok(&mut e, "\u{ff21}\u{ff22}\u{ff23}", "", b"#A#B#C");
        enc_feed_ok(&mut e, "1\u{20ac}/m", "", b"~}1~{\"c~}/m");
        enc_feed_ok(&mut e, "~<\u{a4}~\u{a4}>~", "", b"~~<~{!h~}~~~{!h~}>~~");
        enc_finish_ok(&mut e, &[]);
    }
    {
        let mut e = GBK18030Encoding.raw_encoder();
        enc_feed_ok(&mut e, "A", "", &[0x41]);
        enc_feed_ok(&mut e, "BC", "", &[0x42, 0x43]);
        enc_feed_ok(&mut e, "", "", &[]);
        enc_feed_ok(&mut e, "\u{4e2d}\u{534e}\u{4eba}\u{6c11}\u{5171}\u{548c}\u{56fd}", "", &[0xd6, 0xd0, 0xbb, 0xaa, 0xc8, 0xcb, 0xc3, 0xf1,
                         0xb9, 0xb2, 0xba, 0xcd, 0xb9, 0xfa]);
        enc_feed_ok(&mut e, "1\u{20ac}/m", "", &[0x31, 0xa2, 0xe3, 0x2f, 0x6d]);
        enc_feed_ok(&mut e, "\u{ff21}\u{ff22}\u{ff23}", "", &[0xa3, 0xc1, 0xa3, 0xc2, 0xa3, 0xc3]);
        enc_finish_ok(&mut e, &[]);
    }
    {
        let mut e = GB18030Encoding.raw_encoder();
        enc_feed_ok(&mut e, "A", "", &[0x41]);
        enc_feed_ok(&mut e, "BC", "", &[0x42, 0x43]);
        enc_feed_ok(&mut e, "", "", &[]);
        enc_feed_ok(&mut e, "\u{4e2d}\u{534e}\u{4eba}\u{6c11}\u{5171}\u{548c}\u{56fd}", "", &[0xd6, 0xd0, 0xbb, 0xaa, 0xc8, 0xcb, 0xc3, 0xf1,
                         0xb9, 0xb2, 0xba, 0xcd, 0xb9, 0xfa]);
        enc_feed_ok(&mut e, "1\u{20ac}/m", "", &[0x31, 0xa2, 0xe3, 0x2f, 0x6d]);
        enc_feed_ok(&mut e, "\u{ff21}\u{ff22}\u{ff23}", "", &[0xa3, 0xc1, 0xa3, 0xc2, 0xa3, 0xc3]);
        enc_feed_ok(&mut e, "\u{80}", "", &[0x81, 0x30, 0x81, 0x30]);
        enc_feed_ok(&mut e, "\u{81}", "", &[0x81, 0x30, 0x81, 0x31]);
        enc_feed_ok(&mut e, "\u{a3}", "", &[0x81, 0x30, 0x84, 0x35]);
        enc_feed_ok(&mut e, "\u{a4}", "", &[0xa1, 0xe8]);
        enc_feed_ok(&mut e, "\u{a5}", "", &[0x81, 0x30, 0x84, 0x36]);
        enc_feed_ok(&mut e, "\u{10ffff}", "", &[0xe3, 0x32, 0x9a, 0x35]);
        enc_feed_ok(&mut e, "\u{2a6a5}\u{3007}", "", &[0x98, 0x35, 0xee, 0x37, 0xa9, 0x96]);
        enc_finish_ok(&mut e, &[]);
    }
}

#[test]
fn simpchinese_test_decoder_valid() {
    {
        let mut d = GB18030Encoding.raw_decoder();
        dec_feed_ok(&mut d, &[0x41], &[], "A");
        dec_feed_ok(&mut d, &[0x42, 0x43], &[], "BC");
        dec_feed_ok(&mut d, &[], &[], "");
        dec_feed_ok(&mut d, &[0xd6, 0xd0, 0xbb, 0xaa, 0xc8, 0xcb, 0xc3, 0xf1,
                            0xb9, 0xb2, 0xba, 0xcd, 0xb9, 0xfa], &[], "\u{4e2d}\u{534e}\u{4eba}\u{6c11}\u{5171}\u{548c}\u{56fd}");
        dec_feed_ok(&mut d, &[0x31, 0x80, 0x2f, 0x6d], &[], "1\u{20ac}/m");
        dec_feed_ok(&mut d, &[0xa3, 0xc1, 0xa3, 0xc2, 0xa3, 0xc3], &[], "\u{ff21}\u{ff22}\u{ff23}");
        dec_feed_ok(&mut d, &[0x81, 0x30, 0x81, 0x30], &[], "\u{80}");
        dec_feed_ok(&mut d, &[0x81, 0x30, 0x81, 0x31], &[], "\u{81}");
        dec_feed_ok(&mut d, &[0x81, 0x30, 0x84, 0x35], &[], "\u{a3}");
        dec_feed_ok(&mut d, &[0xa1, 0xe8], &[], "\u{a4}");
        dec_feed_ok(&mut d, &[0x81, 0x30, 0x84, 0x36], &[], "\u{a5}");
        dec_feed_ok(&mut d, &[0xe3, 0x32, 0x9a, 0x35], &[], "\u{10ffff}");
        dec_feed_ok(&mut d, &[0x98, 0x35, 0xee, 0x37, 0xa9, 0x96], &[], "\u{2a6a5}\u{3007}");
        dec_finish_ok(&mut d, "");
    }
    {
        let mut d = HZEncoding.raw_decoder();
        dec_feed_ok(&mut d, b"A", b"", "A");
        dec_feed_ok(&mut d, b"BC", b"", "BC");
        dec_feed_ok(&mut d, b"D~~E", b"~", "D~E");
        dec_feed_ok(&mut d, b"~F~\nG", b"~", "~FG");
        dec_feed_ok(&mut d, b"", b"", "");
        dec_feed_ok(&mut d, b"\nH", b"~", "H");
        dec_feed_ok(&mut d, b"{VP~}~{;*HKCq92:M9z", b"", "\u{4e2d}\u{534e}\u{4eba}\u{6c11}\u{5171}\u{548c}\u{56fd}");
        dec_feed_ok(&mut d, b"", b"#", "");
        dec_feed_ok(&mut d, b"A", b"~", "\u{ff21}");
        dec_feed_ok(&mut d, b"~#B~~#C", b"~", "~\u{ff22}~\u{ff23}");
        dec_feed_ok(&mut d, b"", b"", "");
        dec_feed_ok(&mut d, b"\n#D~{#E~\n#F~{#G", b"~", "#D\u{ff25}#F\u{ff27}");
        dec_feed_ok(&mut d, b"}X~}YZ", b"", "XYZ");
        dec_finish_ok(&mut d, "");
    }
    {
        let mut d = GBK18030Encoding.raw_decoder();
        dec_feed_ok(&mut d, &[0x41], &[], "A");
        dec_feed_ok(&mut d, &[0x42, 0x43], &[], "BC");
        dec_feed_ok(&mut d, &[], &[], "");
        dec_feed_ok(&mut d, &[0xd6, 0xd0, 0xbb, 0xaa, 0xc8, 0xcb, 0xc3, 0xf1,
                            0xb9, 0xb2, 0xba, 0xcd, 0xb9, 0xfa], &[], "\u{4e2d}\u{534e}\u{4eba}\u{6c11}\u{5171}\u{548c}\u{56fd}");
        dec_feed_ok(&mut d, &[0x31, 0x80, 0x2f, 0x6d], &[], "1\u{20ac}/m");
        dec_feed_ok(&mut d, &[0xa3, 0xc1, 0xa3, 0xc2, 0xa3, 0xc3], &[], "\u{ff21}\u{ff22}\u{ff23}");
        dec_finish_ok(&mut d, "");
    }
    {
        let mut d = GB18030Encoding.raw_decoder();
        dec_feed_ok(&mut d, &[0x41], &[], "A");
        dec_feed_ok(&mut d, &[0x42, 0x43], &[], "BC");
        dec_feed_ok(&mut d, &[], &[], "");
        dec_feed_ok(&mut d, &[0xd6, 0xd0, 0xbb, 0xaa, 0xc8, 0xcb, 0xc3, 0xf1,
                            0xb9, 0xb2, 0xba, 0xcd, 0xb9, 0xfa], &[], "\u{4e2d}\u{534e}\u{4eba}\u{6c11}\u{5171}\u{548c}\u{56fd}");
        dec_feed_ok(&mut d, &[0x31, 0x80, 0x2f, 0x6d], &[], "1\u{20ac}/m");
        dec_feed_ok(&mut d, &[0xa3, 0xc1, 0xa3, 0xc2, 0xa3, 0xc3], &[], "\u{ff21}\u{ff22}\u{ff23}");
        dec_feed_ok(&mut d, &[0x81, 0x30, 0x81, 0x30], &[], "\u{80}");
        dec_feed_ok(&mut d, &[0x81, 0x30, 0x81, 0x31], &[], "\u{81}");
        dec_feed_ok(&mut d, &[0x81, 0x30, 0x84, 0x35], &[], "\u{a3}");
        dec_feed_ok(&mut d, &[0xa1, 0xe8], &[], "\u{a4}");
        dec_feed_ok(&mut d, &[0x81, 0x30, 0x84, 0x36], &[], "\u{a5}");
        dec_feed_ok(&mut d, &[0xe3, 0x32, 0x9a, 0x35], &[], "\u{10ffff}");
        dec_feed_ok(&mut d, &[0x98, 0x35, 0xee, 0x37, 0xa9, 0x96], &[], "\u{2a6a5}\u{3007}");
        dec_finish_ok(&mut d, "");
    }
}

#[test]
fn simpchinese_test_decoder_invalid_boundary() {
    {
        // U+10FFFF (E3 32 9A 35) is the last Unicode codepoint, E3 32 9A 36 is invalid.
        // note that since the 2nd to 4th bytes may coincide with ASCII, bytes 32 9A 36 is
        // not considered to be in the problem. this is compatible to WHATWG Encoding standard.
        let mut d = GB18030Encoding.raw_decoder();
        dec_feed_ok(&mut d, &[], &[0xe3], "");
        dec_feed_err(&mut d, &[], &[], &[0x32, 0x9a, 0x36], "");
        dec_finish_ok(&mut d, "");

        let mut d = GB18030Encoding.raw_decoder();
        dec_feed_ok(&mut d, &[], &[0xe3], "");
        dec_feed_ok(&mut d, &[], &[0x32, 0x9a], "");
        dec_feed_err(&mut d, &[], &[], &[0x36], ""); // the error position falls before 32 9A, which is counted in the problem
        dec_finish_ok(&mut d, "");
    }
    {
        // U+10FFFF (E3 32 9A 35) is the last Unicode codepoint, E3 32 9A 36 is invalid.
        // note that since the 2nd to 4th bytes may coincide with ASCII, bytes 32 9A 36 is
        // not considered to be in the problem. this is compatible to WHATWG Encoding standard.
        let mut d = GB18030Encoding.raw_decoder();
        dec_feed_ok(&mut d, &[], &[0xe3], "");
        dec_feed_err(&mut d, &[], &[], &[0x32, 0x9a, 0x36], "");
        dec_finish_ok(&mut d, "");

        let mut d = GB18030Encoding.raw_decoder();
        dec_feed_ok(&mut d, &[], &[0xe3], "");
        dec_feed_ok(&mut d, &[], &[0x32, 0x9a], "");
        dec_feed_err(&mut d, &[], &[], &[0x36], ""); // the error position falls before 32 9A, which is counted in the problem
        dec_finish_ok(&mut d, "");
    }
}

#[test]
fn simpchinese_test_decoder_feed_after_finish() {
    {
        let mut d = GB18030Encoding.raw_decoder();
        dec_feed_ok(&mut d, &[0xd2, 0xbb], &[0xd2], "\u{4e00}");
        dec_finish_err(&mut d, "");
        dec_feed_ok(&mut d, &[0xd2, 0xbb], &[], "\u{4e00}");
        dec_finish_ok(&mut d, "");

        let mut d = GB18030Encoding.raw_decoder();
        dec_feed_ok(&mut d, &[0x98, 0x35, 0xee, 0x37], &[0x98, 0x35, 0xee], "\u{2a6a5}");
        dec_finish_err(&mut d, "");
        dec_feed_ok(&mut d, &[0x98, 0x35, 0xee, 0x37], &[0x98, 0x35], "\u{2a6a5}");
        dec_finish_err(&mut d, "");
        dec_feed_ok(&mut d, &[0x98, 0x35, 0xee, 0x37], &[0x98], "\u{2a6a5}");
        dec_finish_err(&mut d, "");
        dec_feed_ok(&mut d, &[0x98, 0x35, 0xee, 0x37], &[], "\u{2a6a5}");
        dec_finish_ok(&mut d, "");
    }
    {
        let mut d = HZEncoding.raw_decoder();
        dec_feed_ok(&mut d, b"R;~{R;", b"R", "R;\u{4e00}");
        dec_finish_err(&mut d, "");
        dec_feed_ok(&mut d, b"R;~{R;", b"", "R;\u{4e00}");
        dec_finish_ok(&mut d, "");
    }
    {
        let mut d = GBK18030Encoding.raw_decoder();
        dec_feed_ok(&mut d, &[0xd2, 0xbb], &[0xd2], "\u{4e00}");
        dec_finish_err(&mut d, "");
        dec_feed_ok(&mut d, &[0xd2, 0xbb], &[], "\u{4e00}");
        dec_finish_ok(&mut d, "");
    }
    {
        let mut d = GB18030Encoding.raw_decoder();
        dec_feed_ok(&mut d, &[0xd2, 0xbb], &[0xd2], "\u{4e00}");
        dec_finish_err(&mut d, "");
        dec_feed_ok(&mut d, &[0xd2, 0xbb], &[], "\u{4e00}");
        dec_finish_ok(&mut d, "");

        let mut d = GB18030Encoding.raw_decoder();
        dec_feed_ok(&mut d, &[0x98, 0x35, 0xee, 0x37], &[0x98, 0x35, 0xee], "\u{2a6a5}");
        dec_finish_err(&mut d, "");
        dec_feed_ok(&mut d, &[0x98, 0x35, 0xee, 0x37], &[0x98, 0x35], "\u{2a6a5}");
        dec_finish_err(&mut d, "");
        dec_feed_ok(&mut d, &[0x98, 0x35, 0xee, 0x37], &[0x98], "\u{2a6a5}");
        dec_finish_err(&mut d, "");
        dec_feed_ok(&mut d, &[0x98, 0x35, 0xee, 0x37], &[], "\u{2a6a5}");
        dec_finish_ok(&mut d, "");
    }
}

#[test]
fn simpchinese_test_encoder_invalid() {
    {
        let mut e = HZEncoding.raw_encoder();
        enc_feed_err(&mut e, "", "\u{ffff}", "", &[]);
        enc_feed_err(&mut e, "?", "\u{ffff}", "!", &[0x3f]);
        // no support for GBK extension
        enc_feed_err(&mut e, "", "\u{3007}", "", &[]);
        enc_finish_ok(&mut e, &[]);
    }
    {
        let mut e = GBK18030Encoding.raw_encoder();
        enc_feed_err(&mut e, "", "\u{ffff}", "", &[]);
        enc_feed_err(&mut e, "?", "\u{ffff}", "!", &[0x3f]);
        enc_feed_err(&mut e, "", "\u{2a6a5}", "\u{3007}", &[]);
        enc_finish_ok(&mut e, &[]);
    }
}
