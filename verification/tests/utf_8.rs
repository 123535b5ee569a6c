use encoding::codec::utf_8::UTF8Encoding;
use encoding::types::{
    feed_decoder, feed_encoder, finish_decoder, Encoding, RawDecoder, RawEncoder,
};

fn dec_feed_ok<D: RawDecoder>(d: &mut D, processed: &[u8], unprocessed: &[u8], output: &str) {
    let mut input = processed.to_vec();
    input.extend_from_slice(unprocessed);
    let mut buf = String::new();
    let (n, err) = feed_decoder(d, &input, &mut buf);
    assert_eq!(n, processed.len(), "processed bytes of {:?}", input);
    assert!(err.is_none(), "unexpected error on {:?}", input);
    assert_eq!(buf, output);
}

fn dec_feed_err<D: RawDecoder>(
    d: &mut D,
    processed: &[u8],
    problem: &[u8],
    remaining: &[u8],
    output: &str,
) {
    let mut input = processed.to_vec();
    input.extend_from_slice(problem);
    input.extend_from_slice(remaining);
    let mut buf = String::new();
    let (n, err) = feed_decoder(d, &input, &mut buf);
    assert_eq!(n, processed.len(), "processed bytes of {:?}", input);
    let err = err.expect("an error");
    assert_eq!(err.upto, (processed.len() + problem.len()) as isize, "upto of {:?}", input);
    assert_eq!(buf, output);
}

fn dec_finish_ok<D: RawDecoder>(d: &mut D, output: &str) {
    let mut buf = String::new();
    let err = finish_decoder(d, &mut buf);
    assert!(err.is_none());
    assert_eq!(buf, output);
}

fn dec_finish_err<D: RawDecoder>(d: &mut D, output: &str) {
    let mut buf = String::new();
    let err = finish_decoder(d, &mut buf);
    assert_eq!(err.expect("an error").upto, 0);
    assert_eq!(buf, output);
}

fn enc_feed_ok<E: RawEncoder>(e: &mut E, processed: &str, unprocessed: &str, output: &[u8]) {
    let input = format!("{}{}", processed, unprocessed);
    let mut buf: Vec<u8> = Vec::new();
    let (n, err) = feed_encoder(e, &input, &mut buf);
    assert_eq!(n, processed.len(), "processed bytes of {:?}", input);
    assert!(err.is_none(), "unexpected error on {:?}", input);
    assert_eq!(buf, output);
}

fn enc_feed_err<E: RawEncoder>(
    e: &mut E,
    processed: &str,
    problem: &str,
    remaining: &str,
    output: &[u8],
) {
    let input = format!("{}{}{}", processed, problem, remaining);
    let mut buf: Vec<u8> = Vec::new();
    let (n, err) = feed_encoder(e, &input, &mut buf);
    assert_eq!(n, processed.len(), "processed bytes of {:?}", input);
    let err = err.expect("an error");
    assert_eq!(err.upto, (processed.len() + problem.len()) as isize, "upto of {:?}", input);
    assert_eq!(buf, output);
}

fn enc_finish_ok<E: RawEncoder>(e: &mut E, output: &[u8]) {
    let mut buf: Vec<u8> = Vec::new();
    let err = e.raw_finish(&mut buf);
    assert!(err.is_none());
    assert_eq!(buf, output);
}

#[test]
fn test_valid() {
        // one byte
        let mut d = UTF8Encoding.raw_decoder();
        dec_feed_ok(&mut d, &[0x41], &[], "A");
        dec_feed_ok(&mut d, &[0x42, 0x43], &[], "BC");
        dec_feed_ok(&mut d, &[], &[], "");
        dec_feed_ok(&mut d, &[0x44, 0x45, 0x46], &[], "DEF");
        dec_finish_ok(&mut d, "");

        // two bytes
        let mut d = UTF8Encoding.raw_decoder();
        dec_feed_ok(&mut d, &[0xc2, 0xa2], &[], "\u{a2}");
        dec_feed_ok(&mut d, &[0xc2, 0xac, 0xc2, 0xa9], &[], "\u{ac}\u{a9}");
        dec_feed_ok(&mut d, &[], &[], "");
        dec_feed_ok(&mut d, &[0xd5, 0xa1, 0xd5, 0xb5, 0xd5, 0xa2, 0xd5, 0xb8, 0xd6, 0x82,
                            0xd5, 0xa2, 0xd5, 0xa5, 0xd5, 0xb6], &[], "\u{561}\u{575}\u{562}\u{578}\u{582}\u{562}\u{565}\u{576}");
        dec_finish_ok(&mut d, "");

        // three bytes
        let mut d = UTF8Encoding.raw_decoder();
        dec_feed_ok(&mut d, &[0xed, 0x92, 0x89], &[], "\u{d489}");
        dec_feed_ok(&mut d, &[0xe6, 0xbc, 0xa2, 0xe5, 0xad, 0x97], &[], "\u{6f22}\u{5b57}");
        dec_feed_ok(&mut d, &[], &[], "");
        dec_feed_ok(&mut d, &[0xc9, 0x99, 0xc9, 0x94, 0xc9, 0x90], &[], "\u{259}\u{254}\u{250}");
        dec_finish_ok(&mut d, "");

        // four bytes
        let mut d = UTF8Encoding.raw_decoder();
        dec_feed_ok(&mut d, &[0xf0, 0x90, 0x82, 0x82], &[], "\u{10082}");
        dec_feed_ok(&mut d, &[], &[], "");
        dec_finish_ok(&mut d, "");

        // we don't test encoders as it is largely a no-op.
}

#[test]
fn test_valid_boundary() {
        let mut d = UTF8Encoding.raw_decoder();
        dec_feed_ok(&mut d, &[0x00], &[], "\u{0}");
        dec_finish_ok(&mut d, "");

        let mut d = UTF8Encoding.raw_decoder();
        dec_feed_ok(&mut d, &[0x7f], &[], "\u{7f}");
        dec_finish_ok(&mut d, "");

        let mut d = UTF8Encoding.raw_decoder();
        dec_feed_ok(&mut d, &[0xc2, 0x80], &[], "\u{80}");
        dec_finish_ok(&mut d, "");

        let mut d = UTF8Encoding.raw_decoder();
        dec_feed_ok(&mut d, &[0xdf, 0xbf], &[], "\u{7ff}");
        dec_finish_ok(&mut d, "");

        let mut d = UTF8Encoding.raw_decoder();
        dec_feed_ok(&mut d, &[0xe0, 0xa0, 0x80], &[], "\u{800}");
        dec_finish_ok(&mut d, "");

        let mut d = UTF8Encoding.raw_decoder();
        dec_feed_ok(&mut d, &[0xed, 0x9f, 0xbf], &[], "\u{d7ff}");
        dec_finish_ok(&mut d, "");

        let mut d = UTF8Encoding.raw_decoder();
        dec_feed_ok(&mut d, &[0xee, 0x80, 0x80], &[], "\u{e000}");
        dec_finish_ok(&mut d, "");

        let mut d = UTF8Encoding.raw_decoder();
        dec_feed_ok(&mut d, &[0xef, 0xbf, 0xbf], &[], "\u{ffff}");
        dec_finish_ok(&mut d, "");

        let mut d = UTF8Encoding.raw_decoder();
        dec_feed_ok(&mut d, &[0xf0, 0x90, 0x80, 0x80], &[], "\u{10000}");
        dec_finish_ok(&mut d, "");

        let mut d = UTF8Encoding.raw_decoder();
        dec_feed_ok(&mut d, &[0xf4, 0x8f, 0xbf, 0xbf], &[], "\u{10ffff}");
        dec_finish_ok(&mut d, "");
}

#[test]
fn test_valid_partial() {
        let mut d = UTF8Encoding.raw_decoder();
        dec_feed_ok(&mut d, &[], &[0xf0], "");
        dec_feed_ok(&mut d, &[], &[0x90], "");
        dec_feed_ok(&mut d, &[], &[0x82], "");
        dec_feed_ok(&mut d, &[0x82], &[0xed], "\u{10082}");
        dec_feed_ok(&mut d, &[0x92, 0x89], &[], "\u{d489}");
        dec_finish_ok(&mut d, "");

        let mut d = UTF8Encoding.raw_decoder();
        dec_feed_ok(&mut d, &[], &[0xc2], "");
        dec_feed_ok(&mut d, &[0xa9, 0x20], &[], "\u{a9}\u{20}");
        dec_finish_ok(&mut d, "");
}

#[test]
fn test_invalid_continuation() {
        for c in 0x80u8..0xc0 {
            let mut d = UTF8Encoding.raw_decoder();
            dec_feed_err(&mut d, &[], &[c], &[], "");
            dec_finish_ok(&mut d, "");

            let mut d = UTF8Encoding.raw_decoder();
            dec_feed_err(&mut d, &[], &[c], &[c], "");
            dec_finish_ok(&mut d, "");

            let mut d = UTF8Encoding.raw_decoder();
            dec_feed_err(&mut d, &[], &[c], &[c, c], "");
            dec_finish_ok(&mut d, "");
        }
}

#[test]
fn test_invalid_surrogate() {
        // surrogates should fail at the second byte.

        let mut d = UTF8Encoding.raw_decoder();
        dec_feed_err(&mut d, &[], &[0xed], &[0xa0, 0x80], "");
        dec_finish_ok(&mut d, "");

        let mut d = UTF8Encoding.raw_decoder();
        dec_feed_err(&mut d, &[], &[0xed], &[0xad, 0xbf], "");
        dec_finish_ok(&mut d, "");

        let mut d = UTF8Encoding.raw_decoder();
        dec_feed_err(&mut d, &[], &[0xed], &[0xae, 0x80], "");
        dec_finish_ok(&mut d, "");

        let mut d = UTF8Encoding.raw_decoder();
        dec_feed_err(&mut d, &[], &[0xed], &[0xaf, 0xbf], "");
        dec_finish_ok(&mut d, "");

        let mut d = UTF8Encoding.raw_decoder();
        dec_feed_err(&mut d, &[], &[0xed], &[0xb0, 0x80], "");
        dec_finish_ok(&mut d, "");

        let mut d = UTF8Encoding.raw_decoder();
        dec_feed_err(&mut d, &[], &[0xed], &[0xbe, 0x80], "");
        dec_finish_ok(&mut d, "");

        let mut d = UTF8Encoding.raw_decoder();
        dec_feed_err(&mut d, &[], &[0xed], &[0xbf, 0xbf], "");
        dec_finish_ok(&mut d, "");
}

#[test]
fn test_invalid_boundary() {
        // as with surrogates, should fail at the second byte.
        let mut d = UTF8Encoding.raw_decoder();
        dec_feed_err(&mut d, &[], &[0xf4], &[0x90, 0x90, 0x90], ""); // U+110000
        dec_finish_ok(&mut d, "");
}

#[test]
fn test_invalid_start_immediate_test_finish() {
        for c in 0xf5u16..0x100 {
            let c = c as u8;
            let mut d = UTF8Encoding.raw_decoder();
            dec_feed_err(&mut d, &[], &[c], &[], "");
            dec_finish_ok(&mut d, "");
        }
}

#[test]
fn test_invalid_start_followed_by_space() {
        for c in 0xf5u16..0x100 {
            let c = c as u8;

            let mut d = UTF8Encoding.raw_decoder();
            dec_feed_err(&mut d, &[], &[c], &[0x20], "");
            dec_finish_ok(&mut d, "");

            let mut d = UTF8Encoding.raw_decoder();
            dec_feed_err(&mut d, &[], &[c], &[], "");
            dec_feed_ok(&mut d, &[0x20], &[], "\u{20}");
            dec_finish_ok(&mut d, "");
        }
}

#[test]
fn test_invalid_lone_start_immediate_test_finish() {
        for c in 0xc2u8..0xf5 {
            let mut d = UTF8Encoding.raw_decoder();
            dec_feed_ok(&mut d, &[], &[c], ""); // wait for cont. bytes
            dec_finish_err(&mut d, "");
        }
}

#[test]
fn test_invalid_lone_start_followed_by_space() {
        for c in 0xc2u8..0xf5 {
            let mut d = UTF8Encoding.raw_decoder();
            dec_feed_err(&mut d, &[], &[c], &[0x20], "");
            dec_finish_ok(&mut d, "");

            let mut d = UTF8Encoding.raw_decoder();
            dec_feed_ok(&mut d, &[], &[c], ""); // wait for cont. bytes
            dec_feed_err(&mut d, &[], &[], &[0x20], "");
            dec_finish_ok(&mut d, "");
        }
}

#[test]
fn test_invalid_incomplete_three_byte_seq_followed_by_space() {
        for b in 0xe0u8..0xf5 {
            let c = if b == 0xe0 || b == 0xf0 {0xa0} else {0x80};

            let mut d = UTF8Encoding.raw_decoder();
            dec_feed_err(&mut d, &[], &[b, c], &[0x20], "");
            dec_finish_ok(&mut d, "");

            let mut d = UTF8Encoding.raw_decoder();
            dec_feed_ok(&mut d, &[], &[b, c], ""); // wait for cont. bytes
            dec_feed_err(&mut d, &[], &[], &[0x20], "");
            dec_finish_ok(&mut d, "");

            let mut d = UTF8Encoding.raw_decoder();
            dec_feed_ok(&mut d, &[], &[b], ""); // wait for cont. bytes
            dec_feed_err(&mut d, &[], &[c], &[0x20], "");
            dec_finish_ok(&mut d, "");

            let mut d = UTF8Encoding.raw_decoder();
            dec_feed_ok(&mut d, &[], &[b], ""); // wait for cont. bytes
            dec_feed_ok(&mut d, &[], &[c], ""); // wait for cont. bytes
            dec_feed_err(&mut d, &[], &[], &[0x20], "");
            dec_finish_ok(&mut d, "");
        }
}

#[test]
fn test_invalid_incomplete_four_byte_seq_followed_by_space() {
        for a in 0xf0u8..0xf5 {
            let b = if a == 0xf0 {0xa0} else {0x80};
            let c = 0x80;

            let mut d = UTF8Encoding.raw_decoder();
            dec_feed_err(&mut d, &[], &[a, b, c], &[0x20], "");
            dec_finish_ok(&mut d, "");

            let mut d = UTF8Encoding.raw_decoder();
            dec_feed_ok(&mut d, &[], &[a], ""); // wait for cont. bytes
            dec_feed_ok(&mut d, &[], &[b], ""); // wait for cont. bytes
            dec_feed_ok(&mut d, &[], &[c], ""); // wait for cont. bytes
            dec_feed_err(&mut d, &[], &[], &[0x20], "");
            dec_finish_ok(&mut d, "");

            let mut d = UTF8Encoding.raw_decoder();
            dec_feed_ok(&mut d, &[], &[a, b], ""); // wait for cont. bytes
            dec_feed_err(&mut d, &[], &[c], &[0x20], "");
            dec_finish_ok(&mut d, "");

            let mut d = UTF8Encoding.raw_decoder();
            dec_feed_ok(&mut d, &[], &[a, b, c], ""); // wait for cont. bytes
            dec_feed_err(&mut d, &[], &[], &[0x20], "");
            dec_finish_ok(&mut d, "");
        }
}

#[test]
fn test_invalid_too_many_cont_bytes() {
        let mut d = UTF8Encoding.raw_decoder();
        dec_feed_err(&mut d, &[0xc2, 0x80], &[0x80], &[], "\u{80}");
        dec_finish_ok(&mut d, "");

        let mut d = UTF8Encoding.raw_decoder();
        dec_feed_err(&mut d, &[0xe0, 0xa0, 0x80], &[0x80], &[], "\u{800}");
        dec_finish_ok(&mut d, "");

        let mut d = UTF8Encoding.raw_decoder();
        dec_feed_err(&mut d, &[0xf0, 0x90, 0x80, 0x80], &[0x80], &[], "\u{10000}");
        dec_finish_ok(&mut d, "");

        // no continuation byte is consumed after 5/6-byte sequence starters and FE/FF
        let mut d = UTF8Encoding.raw_decoder();
        dec_feed_err(&mut d, &[], &[0xf8], &[0x88, 0x80, 0x80, 0x80, 0x80], "");
        dec_finish_ok(&mut d, "");

        let mut d = UTF8Encoding.raw_decoder();
        dec_feed_err(&mut d, &[], &[0xfc], &[0x84, 0x80, 0x80, 0x80, 0x80, 0x80], "");
        dec_finish_ok(&mut d, "");

        let mut d = UTF8Encoding.raw_decoder();
        dec_feed_err(&mut d, &[], &[0xfe], &[0x80], "");
        dec_finish_ok(&mut d, "");

        let mut d = UTF8Encoding.raw_decoder();
        dec_feed_err(&mut d, &[], &[0xff], &[0x80], "");
        dec_finish_ok(&mut d, "");
}

#[test]
fn test_invalid_too_many_cont_bytes_partial() {
        let mut d = UTF8Encoding.raw_decoder();
        dec_feed_ok(&mut d, &[], &[0xc2], "");
        dec_feed_err(&mut d, &[0x80], &[0x80], &[], "\u{80}");
        dec_finish_ok(&mut d, "");

        let mut d = UTF8Encoding.raw_decoder();
        dec_feed_ok(&mut d, &[], &[0xe0, 0xa0], "");
        dec_feed_err(&mut d, &[0x80], &[0x80], &[], "\u{800}");
        dec_finish_ok(&mut d, "");

        let mut d = UTF8Encoding.raw_decoder();
        dec_feed_ok(&mut d, &[], &[0xf0, 0x90, 0x80], "");
        dec_feed_err(&mut d, &[0x80], &[0x80], &[], "\u{10000}");
        dec_finish_ok(&mut d, "");

        // no continuation byte is consumed after 5/6-byte sequence starters and FE/FF
        let mut d = UTF8Encoding.raw_decoder();
        dec_feed_err(&mut d, &[], &[0xf8], &[], "");
        dec_feed_err(&mut d, &[], &[0x88], &[0x80, 0x80, 0x80, 0x80], "");
        dec_finish_ok(&mut d, "");

        let mut d = UTF8Encoding.raw_decoder();
        dec_feed_err(&mut d, &[], &[0xfc], &[], "");
        dec_feed_err(&mut d, &[], &[0x84], &[0x80, 0x80, 0x80, 0x80, 0x80], "");
        dec_finish_ok(&mut d, "");

        let mut d = UTF8Encoding.raw_decoder();
        dec_feed_err(&mut d, &[], &[0xfe], &[], "");
        dec_feed_err(&mut d, &[], &[0x80], &[], "");
        dec_finish_ok(&mut d, "");

        let mut d = UTF8Encoding.raw_decoder();
        dec_feed_err(&mut d, &[], &[0xff], &[], "");
        dec_feed_err(&mut d, &[], &[0x80], &[], "");
        dec_finish_ok(&mut d, "");
}

#[test]
fn test_invalid_overlong_minimal() {
        let mut d = UTF8Encoding.raw_decoder();
        dec_feed_err(&mut d, &[], &[0xc0], &[0x80], "");
        dec_finish_ok(&mut d, "");

        let mut d = UTF8Encoding.raw_decoder();
        dec_feed_err(&mut d, &[], &[0xe0], &[0x80, 0x80], "");
        dec_finish_ok(&mut d, "");

        let mut d = UTF8Encoding.raw_decoder();
        dec_feed_err(&mut d, &[], &[0xf0], &[0x80, 0x80, 0x80], "");
        dec_finish_ok(&mut d, "");
}

#[test]
fn test_invalid_overlong_maximal() {
        let mut d = UTF8Encoding.raw_decoder();
        dec_feed_err(&mut d, &[], &[0xc1], &[0xbf], "");
        dec_finish_ok(&mut d, "");

        let mut d = UTF8Encoding.raw_decoder();
        dec_feed_err(&mut d, &[], &[0xe0], &[0x9f, 0xbf], "");
        dec_finish_ok(&mut d, "");

        let mut d = UTF8Encoding.raw_decoder();
        dec_feed_err(&mut d, &[], &[0xf0], &[0x8f, 0xbf, 0xbf], "");
        dec_finish_ok(&mut d, "");
}

#[test]
fn test_feed_after_finish() {
        let mut d = UTF8Encoding.raw_decoder();
        dec_feed_ok(&mut d, &[0xc2, 0x80], &[0xc2], "\u{80}");
        dec_finish_err(&mut d, "");
        dec_feed_ok(&mut d, &[0xc2, 0x80], &[], "\u{80}");
        dec_finish_ok(&mut d, "");
}
