use encoding::codec::japanese::{EUCJPEncoding, ISO2022JPEncoding, ShiftJISEncoding, Windows31JEncoding};
use encoding::types::{
    feed_decoder, feed_encoder, finish_decoder, Encoding, RawDecoder, RawEncoder,
};

fn dec_feed_ok<D: RawDecoder>(d: &mut D, processed: &[u8], unprocessed: &[u8], output: &str) {
    let mut input = processed.to_vec();
    input.extend_from_slice(unprocessed);
    let mut buf = String::new();
    let (n, err) = feed_decoder(d, &input, &mut buf);
    assert_eq!(n, processed.len(), "processed bytes of {:?}", input);
    assert!(err.is_none(), "unexpected error on {:?}", input);
    assert_eq!(buf, output);
}

fn dec_feed_err<D: RawDecoder>(
    d: &mut D,
    processed: &[u8],
    problem: &[u8],
    remaining: &[u8],
    output: &str,
) {
    let mut input = processed.to_vec();
    input.extend_from_slice(problem);
    input.extend_from_slice(remaining);
    let mut buf = String::new();
    let (n, err) = feed_decoder(d, &input, &mut buf);
    assert_eq!(n, processed.len(), "processed bytes of {:?}", input);
    let err = err.expect("an error");
    assert_eq!(err.upto, (processed.len() + problem.len()) as isize, "upto of {:?}", input);
    assert_eq!(buf, output);
}

fn dec_finish_ok<D: RawDecoder>(d: &mut D, output: &str) {
    let mut buf = String::new();
    let err = finish_decoder(d, &mut buf);
    assert!(err.is_none());
    assert_eq!(buf, output);
}

fn dec_finish_err<D: RawDecoder>(d: &mut D, output: &str) {
    let mut buf = String::new();
    let err = finish_decoder(d, &mut buf);
    assert_eq!(err.expect("an error").upto, 0);
    assert_eq!(buf, output);
}

fn enc_feed_ok<E: RawEncoder>(e: &mut E, processed: &str, unprocessed: &str, output: &[u8]) {
    let input = format!("{}{}", processed, unprocessed);
    let mut buf: Vec<u8> = Vec::new();
    let (n, err) = feed_encoder(e, &input, &mut buf);
    assert_eq!(n, processed.len(), "processed bytes of {:?}", input);
    assert!(err.is_none(), "unexpected error on {:?}", input);
    assert_eq!(buf, output);
}

fn enc_feed_err<E: RawEncoder>(
    e: &mut E,
    processed: &str,
    problem: &str,
    remaining: &str,
    output: &[u8],
) {
    let input = format!("{}{}{}", processed, problem, remaining);
    let mut buf: Vec<u8> = Vec::new();
    let (n, err) = feed_encoder(e, &input, &mut buf);
    assert_eq!(n, processed.len(), "processed bytes of {:?}", input);
    let err = err.expect("an error");
    assert_eq!(err.upto, (processed.len() + problem.len()) as isize, "upto of {:?}", input);
    assert_eq!(buf, output);
}

fn enc_finish_ok<E: RawEncoder>(e: &mut E, output: &[u8]) {
    let mut buf: Vec<u8> = Vec::new();
    let err = e.raw_finish(&mut buf);
    assert!(err.is_none());
    assert_eq!(buf, output);
}

#[test]
fn japanese_test_encoder_valid() {
    {
        let mut e = EUCJPEncoding.raw_encoder();
        enc_feed_ok(&mut e, "A", "", &[0x41]);
        enc_feed_ok(&mut e, "BC", "", &[0x42, 0x43]);
        enc_feed_ok(&mut e, "", "", &[]);
        enc_feed_ok(&mut e, "\u{a5}", "", &[0x5c]);
        enc_feed_ok(&mut e, "\u{203e}", "", &[0x7e]);
        enc_feed_ok(&mut e, "\u{306b}\u{307b}\u{3093}", "", &[0xa4, 0xcb, 0xa4, 0xdb, 0xa4, 0xf3]);
        enc_feed_ok(&mut e, "\u{ff86}\u{ff8e}\u{ff9d}", "", &[0x8e, 0xc6, 0x8e, 0xce, 0x8e, 0xdd]);
        enc_feed_ok(&mut e, "\u{65e5}\u{672c}", "", &[0xc6, 0xfc, 0xcb, 0xdc]);
        enc_finish_ok(&mut e, &[]);
    }
    {
        let mut e = Windows31JEncoding.raw_encoder();
        enc_feed_ok(&mut e, "A", "", &[0x41]);
        enc_feed_ok(&mut e, "BC", "", &[0x42, 0x43]);
        enc_feed_ok(&mut e, "", "", &[]);
        enc_feed_ok(&mut e, "\u{a5}", "", &[0x5c]);
        enc_feed_ok(&mut e, "\u{203e}", "", &[0x7e]);
        enc_feed_ok(&mut e, "\u{306b}\u{307b}\u{3093}", "", &[0x82, 0xc9, 0x82, 0xd9, 0x82, 0xf1]);
        enc_feed_ok(&mut e, "\u{ff86}\u{ff8e}\u{ff9d}", "", &[0xc6, 0xce, 0xdd]);
        enc_feed_ok(&mut e, "\u{65e5}\u{672c}", "", &[0x93, 0xfa, 0x96, 0x7b]);
        enc_finish_ok(&mut e, &[]);
    }
    {
        let mut e = ISO2022JPEncoding.raw_encoder();
        enc_feed_ok(&mut e, "A", "", &[0x41]);
        enc_feed_ok(&mut e, "BC", "", &[0x42, 0x43]);
        enc_feed_ok(&mut e, "", "", &[]);
        enc_feed_ok(&mut e, "\u{a5}", "", &[0x5c]);
        enc_feed_ok(&mut e, "\u{203e}", "", &[0x7e]);
        enc_feed_ok(&mut e, "\u{306b}\u{307b}\u{3093}", "", &[0x1b, 0x24, 0x42,
                                                      0x24, 0x4b, 0x24, 0x5b, 0x24, 0x73]);
        enc_feed_ok(&mut e, "\u{65e5}\u{672c}", "", &[0x46, 0x7c, 0x4b, 0x5c]);
        enc_feed_ok(&mut e, "\u{ff86}\u{ff8e}\u{ff9d}", "", &[0x1b, 0x28, 0x49,
                                                      0x46, 0x4e, 0x5d]);
        enc_feed_ok(&mut e, "XYZ", "", &[0x1b, 0x28, 0x42,
                                       0x58, 0x59, 0x5a]);
        enc_finish_ok(&mut e, &[]);

        // one ASCII character and two similarly looking characters:
        // - A: U+0020 SPACE (requires ASCII state)
        // - B: U+30CD KATAKANA LETTER NE (requires JIS X 0208 Lead state)
        // - C: U+FF88 HALFWIDTH KATAKANA LETTER NE (requires Katakana state)
        // - D is omitted as the encoder does not support JIS X 0212.
        // a (3,2) De Bruijn near-sequence "ABCACBA" is used to test all possible cases.
        let Ad: &str = "\u{20}";
        let Bd: &str = "\u{30cd}";
        let Cd: &str = "\u{ff88}";
        let Ae: &[u8] = &[0x1b, 0x28, 0x42, 0x20];
        let Be: &[u8] = &[0x1b, 0x24, 0x42, 0x25, 0x4d];
        let Ce: &[u8] = &[0x1b, 0x28, 0x49, 0x48];
        let mut e = ISO2022JPEncoding.raw_encoder();
        let decoded = [ "\u{20}", Bd, Cd, Ad, Cd, Bd, Ad].concat();
        let encoded = [&[0x20], Be, Ce, Ae, Ce, Be, Ae].concat();
        enc_feed_ok(&mut e, &decoded, "", &encoded);
        enc_finish_ok(&mut e, &[]);
    }
    {
        let mut e = ShiftJISEncoding.raw_encoder();
        enc_feed_ok(&mut e, "A", "", &[0x41]);
        enc_feed_ok(&mut e, "BC", "", &[0x42, 0x43]);
        enc_feed_ok(&mut e, "", "", &[]);
        enc_feed_ok(&mut e, "\u{a5}", "", &[0x5c]);
        enc_feed_ok(&mut e, "\u{203e}", "", &[0x7e]);
        enc_feed_ok(&mut e, "\u{306b}\u{307b}\u{3093}", "", &[0x82, 0xc9, 0x82, 0xd9, 0x82, 0xf1]);
        enc_feed_ok(&mut e, "\u{ff86}\u{ff8e}\u{ff9d}", "", &[0xc6, 0xce, 0xdd]);
        enc_feed_ok(&mut e, "\u{65e5}\u{672c}", "", &[0x93, 0xfa, 0x96, 0x7b]);
        enc_finish_ok(&mut e, &[]);
    }
}

#[test]
fn japanese_test_encoder_double_mapped() {
    {
        // these characters are double-mapped to both EUDC area and Shift_JIS extension area
        // but only the former should be used. (note that U+FFE2 is triple-mapped!)
        let mut e = EUCJPEncoding.raw_encoder();
        enc_feed_ok(&mut e, "\u{9ed1}\u{2170}\u{ffe2}", "", &[0xfc, 0xee, 0xfc, 0xf1, 0xa2, 0xcc]);
        enc_finish_ok(&mut e, &[]);
    }
    {
        // these characters are double-mapped to both EUDC area and Shift_JIS extension area
        // but only the latter should be used. (note that U+FFE2 is triple-mapped!)
        let mut e = Windows31JEncoding.raw_encoder();
        enc_feed_ok(&mut e, "\u{9ed1}\u{2170}\u{ffe2}", "", &[0xfc, 0x4b, 0xfa, 0x40, 0x81, 0xca]);
        enc_finish_ok(&mut e, &[]);
    }
}

#[test]
fn japanese_test_encoder_invalid() {
    {
        let mut e = EUCJPEncoding.raw_encoder();
        enc_feed_err(&mut e, "", "\u{ffff}", "", &[]);
        enc_feed_err(&mut e, "?", "\u{ffff}", "!", &[0x3f]);
        // JIS X 0212 is not supported in the encoder
        enc_feed_err(&mut e, "", "\u{736c}", "\u{8c78}", &[]);
        enc_finish_ok(&mut e, &[]);
    }
    {
        let mut e = Windows31JEncoding.raw_encoder();
        enc_feed_err(&mut e, "", "\u{ffff}", "", &[]);
        enc_feed_err(&mut e, "?", "\u{ffff}", "!", &[0x3f]);
        enc_feed_err(&mut e, "", "\u{736c}", "\u{8c78}", &[]);
        enc_finish_ok(&mut e, &[]);
    }
    {
        let mut e = ISO2022JPEncoding.raw_encoder();
        enc_feed_err(&mut e, "", "\u{ffff}", "", &[]);
        enc_feed_err(&mut e, "?", "\u{ffff}", "!", &[0x3f]);
        // JIS X 0212 is not supported in the encoder
        enc_feed_err(&mut e, "", "\u{736c}", "\u{8c78}", &[]);
        enc_finish_ok(&mut e, &[]);
    }
    {
        let mut e = ShiftJISEncoding.raw_encoder();
        enc_feed_err(&mut e, "", "\u{ffff}", "", &[]);
        enc_feed_err(&mut e, "?", "\u{ffff}", "!", &[0x3f]);
        enc_feed_err(&mut e, "", "\u{736c}", "\u{8c78}", &[]);
        enc_finish_ok(&mut e, &[]);
    }
}

#[test]
fn japanese_test_decoder_valid() {
    {
        let mut d = EUCJPEncoding.raw_decoder();
        dec_feed_ok(&mut d, &[0x41], &[], "A");
        dec_feed_ok(&mut d, &[0x42, 0x43], &[], "BC");
        dec_feed_ok(&mut d, &[], &[], "");
        dec_feed_ok(&mut d, &[0x5c], &[], "\\");
        dec_feed_ok(&mut d, &[0x7e], &[], "~");
        dec_feed_ok(&mut d, &[0xa4, 0xcb, 0xa4, 0xdb, 0xa4, 0xf3], &[], "\u{306b}\u{307b}\u{3093}");
        dec_feed_ok(&mut d, &[0x8e, 0xc6, 0x8e, 0xce, 0x8e, 0xdd], &[], "\u{ff86}\u{ff8e}\u{ff9d}");
        dec_feed_ok(&mut d, &[0xc6, 0xfc, 0xcb, 0xdc], &[], "\u{65e5}\u{672c}");
        dec_feed_ok(&mut d, &[0x8f, 0xcb, 0xc6, 0xec, 0xb8], &[], "\u{736c}\u{8c78}");
        dec_finish_ok(&mut d, "");
    }
    {
        let mut d = Windows31JEncoding.raw_decoder();
        dec_feed_ok(&mut d, &[0x41], &[], "A");
        dec_feed_ok(&mut d, &[0x42, 0x43], &[], "BC");
        dec_feed_ok(&mut d, &[], &[], "");
        dec_feed_ok(&mut d, &[0x5c], &[], "\\");
        dec_feed_ok(&mut d, &[0x7e], &[], "~");
        dec_feed_ok(&mut d, &[0x82, 0xc9, 0x82, 0xd9, 0x82, 0xf1], &[], "\u{306b}\u{307b}\u{3093}");
        dec_feed_ok(&mut d, &[0xc6, 0xce, 0xdd], &[], "\u{ff86}\u{ff8e}\u{ff9d}");
        dec_feed_ok(&mut d, &[0x93, 0xfa, 0x96, 0x7b], &[], "\u{65e5}\u{672c}");
        dec_finish_ok(&mut d, "");
    }
    {
        let mut d = ISO2022JPEncoding.raw_decoder();
        dec_feed_ok(&mut d, &[0x41], &[], "A");
        dec_feed_ok(&mut d, &[0x42, 0x43], &[], "BC");
        dec_feed_ok(&mut d, &[0x1b, 0x28, 0x4a,
                            0x44, 0x45, 0x46], &[], "DEF");
        dec_feed_ok(&mut d, &[], &[], "");
        dec_feed_ok(&mut d, &[0x5c], &[], "\\");
        dec_feed_ok(&mut d, &[0x7e], &[], "~");
        dec_feed_ok(&mut d, &[0x1b, 0x24, 0x42,
                            0x24, 0x4b,
                            0x1b, 0x24, 0x42,
                            0x24, 0x5b, 0x24, 0x73], &[], "\u{306b}\u{307b}\u{3093}");
        dec_feed_ok(&mut d, &[0x46, 0x7c, 0x4b, 0x5c], &[], "\u{65e5}\u{672c}");
        dec_feed_ok(&mut d, &[0x1b, 0x28, 0x49,
                            0x46, 0x4e, 0x5d], &[], "\u{ff86}\u{ff8e}\u{ff9d}");
        dec_feed_ok(&mut d, &[0x1b, 0x24, 0x28, 0x44,
                            0x4b, 0x46,
                            0x1b, 0x24, 0x40,
                            0x6c, 0x38], &[], "\u{736c}\u{8c78}");
        dec_feed_ok(&mut d, &[0x1b, 0x28, 0x42,
                            0x58, 0x59, 0x5a], &[], "XYZ");
        dec_finish_ok(&mut d, "");

        let mut d = ISO2022JPEncoding.raw_decoder();
        dec_feed_ok(&mut d, &[0x1b, 0x24, 0x42,
                            0x24, 0x4b, 0x24, 0x5b, 0x24, 0x73], &[], "\u{306b}\u{307b}\u{3093}");
        dec_finish_ok(&mut d, "");

        let mut d = ISO2022JPEncoding.raw_decoder();
        dec_feed_ok(&mut d, &[0x1b, 0x28, 0x49,
                            0x46, 0x4e, 0x5d], &[], "\u{ff86}\u{ff8e}\u{ff9d}");
        dec_finish_ok(&mut d, "");

        let mut d = ISO2022JPEncoding.raw_decoder();
        dec_feed_ok(&mut d, &[0x1b, 0x24, 0x28, 0x44,
                            0x4b, 0x46], &[], "\u{736c}");
        dec_finish_ok(&mut d, "");

        // one ASCII character and three similarly looking characters:
        // - A: U+0020 SPACE (requires ASCII state)
        // - B: U+30CD KATAKANA LETTER NE (requires JIS X 0208 Lead state)
        // - C: U+FF88 HALFWIDTH KATAKANA LETTER NE (requires Katakana state)
        // - D: U+793B CJK UNIFIED IDEOGRAPH-793B (requires JIS X 0212 Lead state)
        // a (4,2) De Bruijn sequence "AABBCCACBADDBDCDA" is used to test all possible cases.
        let Ad: &str = "\u{20}";
        let Bd: &str = "\u{30cd}";
        let Cd: &str = "\u{ff88}";
        let Dd: &str = "\u{793b}";
        let Ae: &[u8] = &[0x1b, 0x28, 0x42,       0x20];
        let Be: &[u8] = &[0x1b, 0x24, 0x42,       0x25, 0x4d];
        let Ce: &[u8] = &[0x1b, 0x28, 0x49,       0x48];
        let De: &[u8] = &[0x1b, 0x24, 0x28, 0x44, 0x50, 0x4b];
        let mut d = ISO2022JPEncoding.raw_decoder();
        let decoded = [ "\u{20}",Ad,Bd,Bd,Cd,Cd,Ad,Cd,Bd,Ad,Dd,Dd,Bd,Dd,Cd,Dd,Ad].concat();
        let encoded = [&[0x20],Ae,Be,Be,Ce,Ce,Ae,Ce,Be,Ae,De,De,Be,De,Ce,De,Ae].concat();
        dec_feed_ok(&mut d, &encoded, &[], &decoded);
        dec_finish_ok(&mut d, "");
    }
    {
        let mut d = ShiftJISEncoding.raw_decoder();
        dec_feed_ok(&mut d, &[0x41], &[], "A");
        dec_feed_ok(&mut d, &[0x42, 0x43], &[], "BC");
        dec_feed_ok(&mut d, &[], &[], "");
        dec_feed_ok(&mut d, &[0x5c], &[], "\\");
        dec_feed_ok(&mut d, &[0x7e], &[], "~");
        dec_feed_ok(&mut d, &[0x82, 0xc9, 0x82, 0xd9, 0x82, 0xf1], &[], "\u{306b}\u{307b}\u{3093}");
        dec_feed_ok(&mut d, &[0xc6, 0xce, 0xdd], &[], "\u{ff86}\u{ff8e}\u{ff9d}");
        dec_feed_ok(&mut d, &[0x93, 0xfa, 0x96, 0x7b], &[], "\u{65e5}\u{672c}");
        dec_finish_ok(&mut d, "");
    }
}

#[test]
fn japanese_test_decoder_feed_after_finish() {
    {
        let mut d = EUCJPEncoding.raw_decoder();
        dec_feed_ok(&mut d, &[0xa4, 0xa2], &[0xa4], "\u{3042}");
        dec_finish_err(&mut d, "");
        dec_feed_ok(&mut d, &[0xa4, 0xa2], &[], "\u{3042}");
        dec_finish_ok(&mut d, "");
    }
    {
        let mut d = Windows31JEncoding.raw_decoder();
        dec_feed_ok(&mut d, &[0x82, 0xa0], &[0x82], "\u{3042}");
        dec_finish_err(&mut d, "");
        dec_feed_ok(&mut d, &[0x82, 0xa0], &[], "\u{3042}");
        dec_finish_ok(&mut d, "");
    }
    {
        let mut d = ISO2022JPEncoding.raw_decoder();
        dec_feed_ok(&mut d, &[0x24, 0x22,
                            0x1b, 0x24, 0x42,
                            0x24, 0x22], &[0x24], "\u{24}\u{22}\u{3042}");
        dec_finish_err(&mut d, "");
        dec_feed_ok(&mut d, &[0x24, 0x22,
                            0x1b, 0x24, 0x42,
                            0x24, 0x22], &[], "\u{24}\u{22}\u{3042}");
        dec_finish_ok(&mut d, "");
    }
}

#[test]
fn test_encoder_no_eudc() {
        let mut e = Windows31JEncoding.raw_encoder();
        enc_feed_err(&mut e, "", "\u{e000}", "", &[]);
        enc_feed_err(&mut e, "", "\u{e757}", "", &[]);
        enc_feed_err(&mut e, "", "\u{e758}", "", &[]);
        enc_finish_ok(&mut e, &[]);
}

#[test]
fn test_decoder_eudc() {
        let mut d = Windows31JEncoding.raw_decoder();
        dec_feed_ok(&mut d, &[], &[0xf0], "");
        dec_feed_ok(&mut d, &[0x40], &[], "\u{e000}");
        dec_feed_ok(&mut d, &[0xf9, 0xfc], &[], "\u{e757}");
        dec_feed_err(&mut d, &[], &[0xf0], &[0x00], "");
        dec_feed_err(&mut d, &[], &[0xf0], &[0xff], "");
        dec_finish_ok(&mut d, "");
}
