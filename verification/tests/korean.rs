use encoding::codec::korean::Windows949Encoding;
use encoding::types::{
    feed_decoder, feed_encoder, finish_decoder, Encoding, RawDecoder, RawEncoder,
};

fn dec_feed_ok<D: RawDecoder>(d: &mut D, processed: &[u8], unprocessed: &[u8], output: &str) {
    let mut input = processed.to_vec();
    input.extend_from_slice(unprocessed);
    let mut buf = String::new();
    let (n, err) = feed_decoder(d, &input, &mut buf);
    assert_eq!(n, processed.len(), "processed bytes of {:?}", input);
    assert!(err.is_none(), "unexpected error on {:?}", input);
    assert_eq!(buf, output);
}

fn dec_feed_err<D: RawDecoder>(
    d: &mut D,
    processed: &[u8],
    problem: &[u8],
    remaining: &[u8],
    output: &str,
) {
    let mut input = processed.to_vec();
    input.extend_from_slice(problem);
    input.extend_from_slice(remaining);
    let mut buf = String::new();
    let (n, err) = feed_decoder(d, &input, &mut buf);
    assert_eq!(n, processed.len(), "processed bytes of {:?}", input);
    let err = err.expect("an error");
    assert_eq!(err.upto, (processed.len() + problem.len()) as isize, "upto of {:?}", input);
    assert_eq!(buf, output);
}

fn dec_finish_ok<D: RawDecoder>(d: &mut D, output: &str) {
    let mut buf = String::new();
    let err = finish_decoder(d, &mut buf);
    assert!(err.is_none());
    assert_eq!(buf, output);
}

fn dec_finish_err<D: RawDecoder>(d: &mut D, output: &str) {
    let mut buf = String::new();
    let err = finish_decoder(d, &mut buf);
    assert_eq!(err.expect("an error").upto, 0);
    assert_eq!(buf, output);
}

fn enc_feed_ok<E: RawEncoder>(e: &mut E, processed: &str, unprocessed: &str, output: &[u8]) {
    let input = format!("{}{}", processed, unprocessed);
    let mut buf: Vec<u8> = Vec::new();
    let (n, err) = feed_encoder(e, &input, &mut buf);
    assert_eq!(n, processed.len(), "processed bytes of {:?}", input);
    assert!(err.is_none(), "unexpected error on {:?}", input);
    assert_eq!(buf, output);
}

fn enc_feed_err<E: RawEncoder>(
    e: &mut E,
    processed: &str,
    problem: &str,
    remaining: &str,
    output: &[u8],
) {
    let input = format!("{}{}{}", processed, problem, remaining);
    let mut buf: Vec<u8> = Vec::new();
    let (n, err) = feed_encoder(e, &input, &mut buf);
    assert_eq!(n, processed.len(), "processed bytes of {:?}", input);
    let err = err.expect("an error");
    assert_eq!(err.upto, (processed.len() + problem.len()) as isize, "upto of {:?}", input);
    assert_eq!(buf, output);
}

fn enc_finish_ok<E: RawEncoder>(e: &mut E, output: &[u8]) {
    let mut buf: Vec<u8> = Vec::new();
    let err = e.raw_finish(&mut buf);
    assert!(err.is_none());
    assert_eq!(buf, output);
}

#[test]
fn korean_test_encoder_valid() {
        let mut e = Windows949Encoding.raw_encoder();
        enc_feed_ok(&mut e, "A", "", &[0x41]);
        enc_feed_ok(&mut e, "BC", "", &[0x42, 0x43]);
        enc_feed_ok(&mut e, "", "", &[]);
        enc_feed_ok(&mut e, "\u{ac00}", "", &[0xb0, 0xa1]);
        enc_feed_ok(&mut e, "\u{b098}\u{b2e4}", "", &[0xb3, 0xaa, 0xb4, 0xd9]);
        enc_feed_ok(&mut e, "\u{bdc1}\u{314b}\u{d7a3}", "", &[0x94, 0xee, 0xa4, 0xbb, 0xc6, 0x52]);
        enc_finish_ok(&mut e, &[]);
}

#[test]
fn korean_test_encoder_invalid() {
        let mut e = Windows949Encoding.raw_encoder();
        enc_feed_err(&mut e, "", "\u{ffff}", "", &[]);
        enc_feed_err(&mut e, "?", "\u{ffff}", "!", &[0x3f]);
        enc_finish_ok(&mut e, &[]);
}

#[test]
fn korean_test_decoder_valid() {
        let mut d = Windows949Encoding.raw_decoder();
        dec_feed_ok(&mut d, &[0x41], &[], "A");
        dec_feed_ok(&mut d, &[0x42, 0x43], &[], "BC");
        dec_feed_ok(&mut d, &[], &[], "");
        dec_feed_ok(&mut d, &[0xb0, 0xa1], &[], "\u{ac00}");
        dec_feed_ok(&mut d, &[0xb3, 0xaa, 0xb4, 0xd9], &[], "\u{b098}\u{b2e4}");
        dec_feed_ok(&mut d, &[0x94, 0xee, 0xa4, 0xbb, 0xc6, 0x52], &[], "\u{bdc1}\u{314b}\u{d7a3}");
        dec_finish_ok(&mut d, "");
}

#[test]
fn test_decoder_valid_partial() {
        let mut d = Windows949Encoding.raw_decoder();
        dec_feed_ok(&mut d, &[], &[0xb0], "");
        dec_feed_ok(&mut d, &[0xa1], &[], "\u{ac00}");
        dec_feed_ok(&mut d, &[0xb3, 0xaa], &[0xb4], "\u{b098}");
        dec_feed_ok(&mut d, &[0xd9], &[0x94], "\u{b2e4}");
        dec_feed_ok(&mut d, &[0xee, 0xa4, 0xbb, 0xc6, 0x52], &[], "\u{bdc1}\u{314b}\u{d7a3}");
        dec_finish_ok(&mut d, "");
}

#[test]
fn test_decoder_invalid_lone_lead_immediate_test_finish() {
        for i in 0x81..0xff {
            let i = i as u8;
            let mut d = Windows949Encoding.raw_decoder();
            dec_feed_ok(&mut d, &[], &[i], ""); // wait for a trail
            dec_finish_err(&mut d, "");
        }

        // 80/FF: immediate failure
        let mut d = Windows949Encoding.raw_decoder();
        dec_feed_err(&mut d, &[], &[0x80], &[], "");
        dec_feed_err(&mut d, &[], &[0xff], &[], "");
        dec_finish_ok(&mut d, "");
}

#[test]
fn test_decoder_invalid_lone_lead_followed_by_space() {
        for i in 0x80..0x100 {
            let i = i as u8;
            let mut d = Windows949Encoding.raw_decoder();
            dec_feed_err(&mut d, &[], &[i], &[0x20], "");
            dec_finish_ok(&mut d, "");
        }
}

#[test]
fn test_decoder_invalid_lead_followed_by_invalid_trail() {
        for i in 0x80u16..0x100 {
            let i = i as u8;
            let mut d = Windows949Encoding.raw_decoder();
            dec_feed_err(&mut d, &[], &[i], &[0x80], "");
            dec_feed_err(&mut d, &[], &[i], &[0xff], "");
            dec_finish_ok(&mut d, "");
        }
}

#[test]
fn korean_test_decoder_invalid_boundary() {
        // U+D7A3 (C6 52) is the last Hangul syllable not in KS X 1001, C6 53 is invalid.
        // note that since the trail byte may coincide with ASCII, the trail byte 53 is
        // not considered to be in the problem. this is compatible to WHATWG Encoding standard.
        let mut d = Windows949Encoding.raw_decoder();
        dec_feed_ok(&mut d, &[], &[0xc6], "");
        dec_feed_err(&mut d, &[], &[], &[0x53], "");
        dec_finish_ok(&mut d, "");
}

#[test]
fn korean_test_decoder_feed_after_finish() {
        let mut d = Windows949Encoding.raw_decoder();
        dec_feed_ok(&mut d, &[0xb0, 0xa1], &[0xb0], "\u{ac00}");
        dec_finish_err(&mut d, "");
        dec_feed_ok(&mut d, &[0xb0, 0xa1], &[], "\u{ac00}");
        dec_finish_ok(&mut d, "");
}
