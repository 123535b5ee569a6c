use encoding::codec::utf_16::UTF16BEEncoding;
use encoding::types::{
    feed_decoder, feed_encoder, finish_decoder, Encoding, RawDecoder, RawEncoder,
};

fn dec_feed_ok<D: RawDecoder>(d: &mut D, processed: &[u8], unprocessed: &[u8], output: &str) {
    let mut input = processed.to_vec();
    input.extend_from_slice(unprocessed);
    let mut buf = String::new();
    let (n, err) = feed_decoder(d, &input, &mut buf);
    assert_eq!(n, processed.len(), "processed bytes of {:?}", input);
    assert!(err.is_none(), "unexpected error on {:?}", input);
    assert_eq!(buf, output);
}

fn dec_feed_err<D: RawDecoder>(
    d: &mut D,
    processed: &[u8],
    problem: &[u8],
    remaining: &[u8],
    output: &str,
) {
    let mut input = processed.to_vec();
    input.extend_from_slice(problem);
    input.extend_from_slice(remaining);
    let mut buf = String::new();
    let (n, err) = feed_decoder(d, &input, &mut buf);
    assert_eq!(n, processed.len(), "processed bytes of {:?}", input);
    let err = err.expect("an error");
    assert_eq!(err.upto, (processed.len() + problem.len()) as isize, "upto of {:?}", input);
    assert_eq!(buf, output);
}

fn dec_finish_ok<D: RawDecoder>(d: &mut D, output: &str) {
    let mut buf = String::new();
    let err = finish_decoder(d, &mut buf);
    assert!(err.is_none());
    assert_eq!(buf, output);
}

fn dec_finish_err<D: RawDecoder>(d: &mut D, output: &str) {
    let mut buf = String::new();
    let err = finish_decoder(d, &mut buf);
    assert_eq!(err.expect("an error").upto, 0);
    assert_eq!(buf, output);
}

fn enc_feed_ok<E: RawEncoder>(e: &mut E, processed: &str, unprocessed: &str, output: &[u8]) {
    let input = format!("{}{}", processed, unprocessed);
    let mut buf: Vec<u8> = Vec::new();
    let (n, err) = feed_encoder(e, &input, &mut buf);
    assert_eq!(n, processed.len(), "processed bytes of {:?}", input);
    assert!(err.is_none(), "unexpected error on {:?}", input);
    assert_eq!(buf, output);
}

fn enc_feed_err<E: RawEncoder>(
    e: &mut E,
    processed: &str,
    problem: &str,
    remaining: &str,
    output: &[u8],
) {
    let input = format!("{}{}{}", processed, problem, remaining);
    let mut buf: Vec<u8> = Vec::new();
    let (n, err) = feed_encoder(e, &input, &mut buf);
    assert_eq!(n, processed.len(), "processed bytes of {:?}", input);
    let err = err.expect("an error");
    assert_eq!(err.upto, (processed.len() + problem.len()) as isize, "upto of {:?}", input);
    assert_eq!(buf, output);
}

fn enc_finish_ok<E: RawEncoder>(e: &mut E, output: &[u8]) {
    let mut buf: Vec<u8> = Vec::new();
    let err = e.raw_finish(&mut buf);
    assert!(err.is_none());
    assert_eq!(buf, output);
}

#[test]
fn utf_16_test_encoder_valid() {
        let mut e = UTF16BEEncoding.raw_encoder();
        enc_feed_ok(&mut e, "\u{0}\
                            \u{1}\u{2}\u{4}\u{8}\
                            \u{10}\u{20}\u{40}\u{80}\
                            \u{100}\u{200}\u{400}\u{800}\
                            \u{1000}\u{2000}\u{4000}\u{8000}\
                            \u{ffff}", "", &[0x00, 0x00,
                         0x00, 0x01, 0x00, 0x02, 0x00, 0x04, 0x00, 0x08,
                         0x00, 0x10, 0x00, 0x20, 0x00, 0x40, 0x00, 0x80,
                         0x01, 0x00, 0x02, 0x00, 0x04, 0x00, 0x08, 0x00,
                         0x10, 0x00, 0x20, 0x00, 0x40, 0x00, 0x80, 0x00,
                         0xff, 0xff]);
        enc_feed_ok(&mut e, "\u{10000}\
                            \u{10001}\u{10002}\
                            \u{10004}\u{10008}\
                            \u{10010}\u{10020}\
                            \u{10040}\u{10080}\
                            \u{10100}\u{10200}\
                            \u{10400}\u{10800}\
                            \u{11000}\u{12000}\
                            \u{14000}\u{18000}\
                            \u{20000}\u{30000}\
                            \u{50000}\u{90000}\
                            \u{10ffff}", "", &[0xd8, 0x00, 0xdc, 0x00,
                         0xd8, 0x00, 0xdc, 0x01, 0xd8, 0x00, 0xdc, 0x02,
                         0xd8, 0x00, 0xdc, 0x04, 0xd8, 0x00, 0xdc, 0x08,
                         0xd8, 0x00, 0xdc, 0x10, 0xd8, 0x00, 0xdc, 0x20,
                         0xd8, 0x00, 0xdc, 0x40, 0xd8, 0x00, 0xdc, 0x80,
                         0xd8, 0x00, 0xdd, 0x00, 0xd8, 0x00, 0xde, 0x00,
                         0xd8, 0x01, 0xdc, 0x00, 0xd8, 0x02, 0xdc, 0x00,
                         0xd8, 0x04, 0xdc, 0x00, 0xd8, 0x08, 0xdc, 0x00,
                         0xd8, 0x10, 0xdc, 0x00, 0xd8, 0x20, 0xdc, 0x00,
                         0xd8, 0x40, 0xdc, 0x00, 0xd8, 0x80, 0xdc, 0x00,
                         0xd9, 0x00, 0xdc, 0x00, 0xda, 0x00, 0xdc, 0x00,
                         0xdb, 0xff, 0xdf, 0xff]);
        enc_finish_ok(&mut e, &[]);
}

#[test]
fn utf_16_test_decoder_valid() {
        let mut d = UTF16BEEncoding.raw_decoder();
        dec_feed_ok(&mut d, &[0x00, 0x00,
                            0x00, 0x01, 0x00, 0x02, 0x00, 0x04, 0x00, 0x08,
                            0x00, 0x10, 0x00, 0x20, 0x00, 0x40, 0x00, 0x80,
                            0x01, 0x00, 0x02, 0x00, 0x04, 0x00, 0x08, 0x00,
                            0x10, 0x00, 0x20, 0x00, 0x40, 0x00, 0x80, 0x00,
                            0xff, 0xff], &[], "\u{0}\
                         \u{1}\u{2}\u{4}\u{8}\
                         \u{10}\u{20}\u{40}\u{80}\
                         \u{100}\u{200}\u{400}\u{800}\
                         \u{1000}\u{2000}\u{4000}\u{8000}\
                         \u{ffff}");
        dec_feed_ok(&mut d, &[0xd8, 0x00, 0xdc, 0x00,
                            0xd8, 0x00, 0xdc, 0x01, 0xd8, 0x00, 0xdc, 0x02,
                            0xd8, 0x00, 0xdc, 0x04, 0xd8, 0x00, 0xdc, 0x08,
                            0xd8, 0x00, 0xdc, 0x10, 0xd8, 0x00, 0xdc, 0x20,
                            0xd8, 0x00, 0xdc, 0x40, 0xd8, 0x00, 0xdc, 0x80,
                            0xd8, 0x00, 0xdd, 0x00, 0xd8, 0x00, 0xde, 0x00,
                            0xd8, 0x01, 0xdc, 0x00, 0xd8, 0x02, 0xdc, 0x00,
                            0xd8, 0x04, 0xdc, 0x00, 0xd8, 0x08, 0xdc, 0x00,
                            0xd8, 0x10, 0xdc, 0x00, 0xd8, 0x20, 0xdc, 0x00,
                            0xd8, 0x40, 0xdc, 0x00, 0xd8, 0x80, 0xdc, 0x00,
                            0xd9, 0x00, 0xdc, 0x00, 0xda, 0x00, 0xdc, 0x00,
                            0xdb, 0xff, 0xdf, 0xff], &[], "\u{10000}\
                         \u{10001}\u{10002}\
                         \u{10004}\u{10008}\
                         \u{10010}\u{10020}\
                         \u{10040}\u{10080}\
                         \u{10100}\u{10200}\
                         \u{10400}\u{10800}\
                         \u{11000}\u{12000}\
                         \u{14000}\u{18000}\
                         \u{20000}\u{30000}\
                         \u{50000}\u{90000}\
                         \u{10ffff}");
        dec_finish_ok(&mut d, "");
}

#[test]
fn test_decoder_valid_partial_bmp() {
        let mut d = UTF16BEEncoding.raw_decoder();
        dec_feed_ok(&mut d, &[], &[0x12], "");
        dec_feed_ok(&mut d, &[0x34], &[], "\u{1234}");
        dec_feed_ok(&mut d, &[], &[0x56], "");
        dec_feed_ok(&mut d, &[0x78], &[], "\u{5678}");
        dec_finish_ok(&mut d, "");

        let mut d = UTF16BEEncoding.raw_decoder();
        dec_feed_ok(&mut d, &[], &[0x12], "");
        dec_feed_ok(&mut d, &[0x34], &[0x56], "\u{1234}");
        dec_feed_ok(&mut d, &[0x78, 0xab, 0xcd], &[], "\u{5678}\u{abcd}");
        dec_finish_ok(&mut d, "");
}

#[test]
fn test_decoder_valid_partial_non_bmp() {
        let mut d = UTF16BEEncoding.raw_decoder();
        dec_feed_ok(&mut d, &[], &[0xd8], "");
        dec_feed_ok(&mut d, &[], &[0x08], "");
        dec_feed_ok(&mut d, &[], &[0xdf], "");
        dec_feed_ok(&mut d, &[0x45], &[0xd9], "\u{12345}");
        dec_feed_ok(&mut d, &[], &[0x5e], "");
        dec_feed_ok(&mut d, &[], &[0xdc], "");
        dec_feed_ok(&mut d, &[0x90], &[], "\u{67890}");
        dec_finish_ok(&mut d, "");

        let mut d = UTF16BEEncoding.raw_decoder();
        dec_feed_ok(&mut d, &[], &[0xd8], "");
        dec_feed_ok(&mut d, &[], &[0x08, 0xdf], "");
        dec_feed_ok(&mut d, &[0x45], &[0xd9, 0x5e], "\u{12345}");
        dec_feed_ok(&mut d, &[0xdc, 0x90], &[], "\u{67890}");
        dec_finish_ok(&mut d, "");

        let mut d = UTF16BEEncoding.raw_decoder();
        dec_feed_ok(&mut d, &[], &[0xd8, 0x08, 0xdf], "");
        dec_feed_ok(&mut d, &[0x45], &[0xd9, 0x5e, 0xdc], "\u{12345}");
        dec_feed_ok(&mut d, &[0x90], &[], "\u{67890}");
        dec_finish_ok(&mut d, "");
}

#[test]
fn test_decoder_invalid_lone_upper_surrogate() {
        let mut d = UTF16BEEncoding.raw_decoder();
        dec_feed_ok(&mut d, &[], &[0xd8, 0x00], "");
        dec_feed_err(&mut d, &[], &[], &[0x12, 0x34], "");
        dec_feed_err(&mut d, &[], &[0xd8, 0x00], &[0x56, 0x78], "");
        dec_feed_ok(&mut d, &[], &[0xd8, 0x00], "");
        dec_feed_err(&mut d, &[], &[], &[0xd8, 0x00], "");
        dec_feed_ok(&mut d, &[], &[0xd8, 0x00], "");
        dec_finish_err(&mut d, "");

        let mut d = UTF16BEEncoding.raw_decoder();
        dec_feed_ok(&mut d, &[], &[0xdb, 0xff], "");
        dec_feed_err(&mut d, &[], &[], &[0x12, 0x34], "");
        dec_feed_err(&mut d, &[], &[0xdb, 0xff], &[0x56, 0x78], "");
        dec_feed_ok(&mut d, &[], &[0xdb, 0xff], "");
        dec_feed_err(&mut d, &[], &[], &[0xdb, 0xff], "");
        dec_feed_ok(&mut d, &[], &[0xdb, 0xff], "");
        dec_finish_err(&mut d, "");
}

#[test]
fn test_decoder_invalid_lone_upper_surrogate_partial() {
        let mut d = UTF16BEEncoding.raw_decoder();
        dec_feed_ok(&mut d, &[], &[0xd8], "");
        dec_feed_err(&mut d, &[], &[0x00], &[0x12, 0x34], "");
        dec_feed_ok(&mut d, &[], &[0xd8, 0x00, 0x56], "");
        dec_feed_err(&mut d, &[], &[], &[0x78], ""); // the error position falls before 56, which is counted in the problem
        dec_feed_ok(&mut d, &[], &[0xd8], "");
        dec_feed_err(&mut d, &[], &[0x00], &[0xd8, 0x00], "");
        dec_feed_ok(&mut d, &[], &[0xd8, 0x00, 0xdb], "");
        dec_feed_err(&mut d, &[], &[], &[0xff], ""); // the error position falls before DB, which is counted in the problem
        dec_feed_ok(&mut d, &[], &[0xd8], "");
        dec_finish_err(&mut d, "");

        let mut d = UTF16BEEncoding.raw_decoder();
        dec_feed_ok(&mut d, &[], &[0xdb], "");
        dec_feed_err(&mut d, &[], &[0xff], &[0x12, 0x34], "");
        dec_feed_ok(&mut d, &[], &[0xdb, 0xff, 0x56], "");
        dec_feed_err(&mut d, &[], &[], &[0x78], ""); // the error position falls before 56, which is counted in the problem
        dec_feed_ok(&mut d, &[], &[0xdb], "");
        dec_feed_err(&mut d, &[], &[0xff], &[0xdb, 0xff], "");
        dec_feed_ok(&mut d, &[], &[0xdb, 0xff, 0xd8], "");
        dec_feed_err(&mut d, &[], &[], &[0x00], ""); // the error position falls before D8, which is counted in the problem
        dec_feed_ok(&mut d, &[], &[0xdb], "");
        dec_finish_err(&mut d, "");
}

#[test]
fn test_decoder_invalid_lone_lower_surrogate() {
        let mut d = UTF16BEEncoding.raw_decoder();
        dec_feed_err(&mut d, &[], &[0xdc, 0x00], &[], "");
        dec_feed_err(&mut d, &[0x12, 0x34], &[0xdc, 0x00], &[0x56, 0x78], "\u{1234}");
        dec_finish_ok(&mut d, "");

        let mut d = UTF16BEEncoding.raw_decoder();
        dec_feed_err(&mut d, &[], &[0xdf, 0xff], &[], "");
        dec_feed_err(&mut d, &[0x12, 0x34], &[0xdf, 0xff], &[0x56, 0x78], "\u{1234}");
        dec_finish_ok(&mut d, "");
}

#[test]
fn test_decoder_invalid_lone_lower_surrogate_partial() {
        let mut d = UTF16BEEncoding.raw_decoder();
        dec_feed_ok(&mut d, &[], &[0xdc], "");
        dec_feed_err(&mut d, &[], &[0x00], &[], "");
        dec_feed_ok(&mut d, &[0x12, 0x34], &[0xdc], "\u{1234}");
        dec_feed_err(&mut d, &[], &[0x00], &[0x56, 0x78], "");
        dec_finish_ok(&mut d, "");

        dec_feed_ok(&mut d, &[], &[0xdf], "");
        dec_feed_err(&mut d, &[], &[0xff], &[], "");
        dec_feed_ok(&mut d, &[0x12, 0x34], &[0xdf], "\u{1234}");
        dec_feed_err(&mut d, &[], &[0xff], &[0x56, 0x78], "");
        dec_finish_ok(&mut d, "");
}

#[test]
fn test_decoder_invalid_one_byte_before_finish() {
        let mut d = UTF16BEEncoding.raw_decoder();
        dec_feed_ok(&mut d, &[], &[0x12], "");
        dec_finish_err(&mut d, "");

        let mut d = UTF16BEEncoding.raw_decoder();
        dec_feed_ok(&mut d, &[0x12, 0x34], &[0x56], "\u{1234}");
        dec_finish_err(&mut d, "");
}

#[test]
fn test_decoder_invalid_three_bytes_before_finish() {
        let mut d = UTF16BEEncoding.raw_decoder();
        dec_feed_ok(&mut d, &[], &[0xd8, 0x00, 0xdc], "");
        dec_finish_err(&mut d, "");

        let mut d = UTF16BEEncoding.raw_decoder();
        dec_feed_ok(&mut d, &[0x12, 0x34], &[0xd8, 0x00, 0xdc], "\u{1234}");
        dec_finish_err(&mut d, "");
}

#[test]
fn test_decoder_invalid_three_bytes_before_finish_partial() {
        let mut d = UTF16BEEncoding.raw_decoder();
        dec_feed_ok(&mut d, &[], &[0xd8], "");
        dec_feed_ok(&mut d, &[], &[0x00], "");
        dec_feed_ok(&mut d, &[], &[0xdc], "");
        dec_finish_err(&mut d, "");

        let mut d = UTF16BEEncoding.raw_decoder();
        dec_feed_ok(&mut d, &[0x12, 0x34], &[0xd8], "\u{1234}");
        dec_feed_ok(&mut d, &[], &[0x00, 0xdc], "");
        dec_finish_err(&mut d, "");

        let mut d = UTF16BEEncoding.raw_decoder();
        dec_feed_ok(&mut d, &[0x12, 0x34], &[0xd8, 0x00], "\u{1234}");
        dec_feed_ok(&mut d, &[], &[0xdc], "");
        dec_finish_err(&mut d, "");
}

#[test]
fn utf_16_test_decoder_feed_after_finish() {
        let mut d = UTF16BEEncoding.raw_decoder();
        dec_feed_ok(&mut d, &[0x12, 0x34], &[0x12], "\u{1234}");
        dec_finish_err(&mut d, "");
        dec_feed_ok(&mut d, &[0x12, 0x34], &[], "\u{1234}");
        dec_finish_ok(&mut d, "");

        let mut d = UTF16BEEncoding.raw_decoder();
        dec_feed_ok(&mut d, &[0xd8, 0x08, 0xdf, 0x45], &[0xd8, 0x08, 0xdf], "\u{12345}");
        dec_finish_err(&mut d, "");
        dec_feed_ok(&mut d, &[0xd8, 0x08, 0xdf, 0x45], &[0xd8, 0x08], "\u{12345}");
        dec_finish_err(&mut d, "");
        dec_feed_ok(&mut d, &[0xd8, 0x08, 0xdf, 0x45], &[0xd8], "\u{12345}");
        dec_finish_err(&mut d, "");
        dec_feed_ok(&mut d, &[0xd8, 0x08, 0xdf, 0x45], &[], "\u{12345}");
        dec_finish_ok(&mut d, "");
}
