use encoding::codec::tradchinese::BigFive2003Encoding;
use encoding::types::{
    feed_decoder, feed_encoder, finish_decoder, Encoding, RawDecoder, RawEncoder,
};

fn dec_feed_ok<D: RawDecoder>(d: &mut D, processed: &[u8], unprocessed: &[u8], output: &str) {
    let mut input = processed.to_vec();
    input.extend_from_slice(unprocessed);
    let mut buf = String::new();
    let (n, err) = feed_decoder(d, &input, &mut buf);
    assert_eq!(n, processed.len(), "processed bytes of {:?}", input);
    assert!(err.is_none(), "unexpected error on {:?}", input);
    assert_eq!(buf, output);
}

fn dec_feed_err<D: RawDecoder>(
    d: &mut D,
    processed: &[u8],
    problem: &[u8],
    remaining: &[u8],
    output: &str,
) {
    let mut input = processed.to_vec();
    input.extend_from_slice(problem);
    input.extend_from_slice(remaining);
    let mut buf = String::new();
    let (n, err) = feed_decoder(d, &input, &mut buf);
    assert_eq!(n, processed.len(), "processed bytes of {:?}", input);
    let err = err.expect("an error");
    assert_eq!(err.upto, (processed.len() + problem.len()) as isize, "upto of {:?}", input);
    assert_eq!(buf, output);
}

fn dec_finish_ok<D: RawDecoder>(d: &mut D, output: &str) {
    let mut buf = String::new();
    let err = finish_decoder(d, &mut buf);
    assert!(err.is_none());
    assert_eq!(buf, output);
}

fn dec_finish_err<D: RawDecoder>(d: &mut D, output: &str) {
    let mut buf = String::new();
    let err = finish_decoder(d, &mut buf);
    assert_eq!(err.expect("an error").upto, 0);
    assert_eq!(buf, output);
}

fn enc_feed_ok<E: RawEncoder>(e: &mut E, processed: &str, unprocessed: &str, output: &[u8]) {
    let input = format!("{}{}", processed, unprocessed);
    let mut buf: Vec<u8> = Vec::new();
    let (n, err) = feed_encoder(e, &input, &mut buf);
    assert_eq!(n, processed.len(), "processed bytes of {:?}", input);
    assert!(err.is_none(), "unexpected error on {:?}", input);
    assert_eq!(buf, output);
}

fn enc_feed_err<E: RawEncoder>(
    e: &mut E,
    processed: &str,
    problem: &str,
    remaining: &str,
    output: &[u8],
) {
    let input = format!("{}{}{}", processed, problem, remaining);
    let mut buf: Vec<u8> = Vec::new();
    let (n, err) = feed_encoder(e, &input, &mut buf);
    assert_eq!(n, processed.len(), "processed bytes of {:?}", input);
    let err = err.expect("an error");
    assert_eq!(err.upto, (processed.len() + problem.len()) as isize, "upto of {:?}", input);
    assert_eq!(buf, output);
}

fn enc_finish_ok<E: RawEncoder>(e: &mut E, output: &[u8]) {
    let mut buf: Vec<u8> = Vec::new();
    let err = e.raw_finish(&mut buf);
    assert!(err.is_none());
    assert_eq!(buf, output);
}

#[test]
fn tradchinese_test_encoder_valid() {
        let mut e = BigFive2003Encoding.raw_encoder();
        enc_feed_ok(&mut e, "A", "", &[0x41]);
        enc_feed_ok(&mut e, "BC", "", &[0x42, 0x43]);
        enc_feed_ok(&mut e, "", "", &[]);
        enc_feed_ok(&mut e, "\u{4e2d}\u{83ef}\u{6c11}\u{570b}", "", &[0xa4, 0xa4, 0xb5, 0xd8, 0xa5, 0xc1, 0xb0, 0xea]);
        enc_feed_ok(&mut e, "1\u{20ac}/m", "", &[0x31, 0xa3, 0xe1, 0x2f, 0x6d]);
        enc_feed_ok(&mut e, "\u{ffed}", "", &[0xf9, 0xfe]);
        enc_finish_ok(&mut e, &[]);
}

#[test]
fn tradchinese_test_encoder_invalid() {
        let mut e = BigFive2003Encoding.raw_encoder();
        enc_feed_err(&mut e, "", "\u{ffff}", "", &[]);
        enc_feed_err(&mut e, "?", "\u{ffff}", "!", &[0x3f]);
        enc_feed_err(&mut e, "", "\u{3eec}", "\u{4e00}", &[]); // HKSCS-2008 addition
        enc_finish_ok(&mut e, &[]);
}

#[test]
fn tradchinese_test_decoder_valid() {
        let mut d = BigFive2003Encoding.raw_decoder();
        dec_feed_ok(&mut d, &[0x41], &[], "A");
        dec_feed_ok(&mut d, &[0x42, 0x43], &[], "BC");
        dec_feed_ok(&mut d, &[], &[], "");
        dec_feed_ok(&mut d, &[0xa4, 0xa4, 0xb5, 0xd8, 0xa5, 0xc1, 0xb0, 0xea], &[], "\u{4e2d}\u{83ef}\u{6c11}\u{570b}");
        dec_feed_ok(&mut d, &[0x31, 0xa3, 0xe1, 0x2f, 0x6d], &[], "1\u{20ac}/m");
        dec_feed_ok(&mut d, &[0xf9, 0xfe], &[], "\u{ffed}");
        dec_feed_ok(&mut d, &[0x87, 0x7e], &[], "\u{3eec}"); // HKSCS-2008 addition
        dec_finish_ok(&mut d, "");
}

#[test]
fn test_decoder_invalid_trail() {
        // unlike most other cases, valid lead + invalid MSB-set trail are entirely consumed.
        // https://www.w3.org/Bugs/Public/show_bug.cgi?id=16771
        let mut d = BigFive2003Encoding.raw_decoder();
        dec_feed_err(&mut d, &[], &[0xf0], &[0x30, 0x30], "");
        dec_feed_err(&mut d, &[], &[0xf0, 0x80], &[0x30], "");
        dec_finish_ok(&mut d, "");
}

#[test]
fn tradchinese_test_decoder_feed_after_finish() {
        let mut d = BigFive2003Encoding.raw_decoder();
        dec_feed_ok(&mut d, &[0xa4, 0x40], &[0xa4], "\u{4e00}");
        dec_finish_err(&mut d, "");
        dec_feed_ok(&mut d, &[0xa4, 0x40], &[], "\u{4e00}");
        dec_finish_ok(&mut d, "");
}
