use encoding::codec::ascii::ASCIIEncoding;
use encoding::codec::error::ErrorEncoding;
use encoding::types::{
    feed_decoder, feed_encoder, finish_decoder, Encoding, RawDecoder, RawEncoder,
};

fn dec_feed_ok<D: RawDecoder>(d: &mut D, processed: &[u8], unprocessed: &[u8], output: &str) {
    let mut input = processed.to_vec();
    input.extend_from_slice(unprocessed);
    let mut buf = String::new();
    let (n, err) = feed_decoder(d, &input, &mut buf);
    assert_eq!(n, processed.len(), "processed bytes of {:?}", input);
    assert!(err.is_none(), "unexpected error on {:?}", input);
    assert_eq!(buf, output);
}

fn dec_feed_err<D: RawDecoder>(
    d: &mut D,
    processed: &[u8],
    problem: &[u8],
    remaining: &[u8],
    output: &str,
) {
    let mut input = processed.to_vec();
    input.extend_from_slice(problem);
    input.extend_from_slice(remaining);
    let mut buf = String::new();
    let (n, err) = feed_decoder(d, &input, &mut buf);
    assert_eq!(n, processed.len(), "processed bytes of {:?}", input);
    let err = err.expect("an error");
    assert_eq!(err.upto, (processed.len() + problem.len()) as isize, "upto of {:?}", input);
    assert_eq!(buf, output);
}

fn dec_finish_ok<D: RawDecoder>(d: &mut D, output: &str) {
    let mut buf = String::new();
    let err = finish_decoder(d, &mut buf);
    assert!(err.is_none());
    assert_eq!(buf, output);
}

fn dec_finish_err<D: RawDecoder>(d: &mut D, output: &str) {
    let mut buf = String::new();
    let err = finish_decoder(d, &mut buf);
    assert_eq!(err.expect("an error").upto, 0);
    assert_eq!(buf, output);
}

fn enc_feed_ok<E: RawEncoder>(e: &mut E, processed: &str, unprocessed: &str, output: &[u8]) {
    let input = format!("{}{}", processed, unprocessed);
    let mut buf: Vec<u8> = Vec::new();
    let (n, err) = feed_encoder(e, &input, &mut buf);
    assert_eq!(n, processed.len(), "processed bytes of {:?}", input);
    assert!(err.is_none(), "unexpected error on {:?}", input);
    assert_eq!(buf, output);
}

fn enc_feed_err<E: RawEncoder>(
    e: &mut E,
    processed: &str,
    problem: &str,
    remaining: &str,
    output: &[u8],
) {
    let input = format!("{}{}{}", processed, problem, remaining);
    let mut buf: Vec<u8> = Vec::new();
    let (n, err) = feed_encoder(e, &input, &mut buf);
    assert_eq!(n, processed.len(), "processed bytes of {:?}", input);
    let err = err.expect("an error");
    assert_eq!(err.upto, (processed.len() + problem.len()) as isize, "upto of {:?}", input);
    assert_eq!(buf, output);
}

fn enc_finish_ok<E: RawEncoder>(e: &mut E, output: &[u8]) {
    let mut buf: Vec<u8> = Vec::new();
    let err = e.raw_finish(&mut buf);
    assert!(err.is_none());
    assert_eq!(buf, output);
}

#[test]
fn ascii_test_encoder() {
        let mut e = ASCIIEncoding.raw_encoder();
        enc_feed_ok(&mut e, "A", "", &[0x41]);
        enc_feed_ok(&mut e, "BC", "", &[0x42, 0x43]);
        enc_feed_ok(&mut e, "", "", &[]);
        enc_feed_err(&mut e, "", "\u{a0}", "", &[]);
        enc_feed_err(&mut e, "X", "\u{a0}", "Z", &[0x58]);
        enc_finish_ok(&mut e, &[]);
}

#[test]
fn ascii_test_decoder() {
        let mut d = ASCIIEncoding.raw_decoder();
        dec_feed_ok(&mut d, &[0x41], &[], "A");
        dec_feed_ok(&mut d, &[0x42, 0x43], &[], "BC");
        dec_feed_ok(&mut d, &[], &[], "");
        dec_feed_err(&mut d, &[], &[0xa0], &[], "");
        dec_feed_err(&mut d, &[0x58], &[0xa0], &[0x5a], "X");
        dec_finish_ok(&mut d, "");
}

#[test]
fn error_test_encoder() {
        let mut e = ErrorEncoding.raw_encoder();
        enc_feed_err(&mut e, "", "A", "", &[]);
        enc_feed_err(&mut e, "", "B", "C", &[]);
        enc_feed_ok(&mut e, "", "", &[]);
        enc_feed_err(&mut e, "", "\u{a0}", "", &[]);
        enc_finish_ok(&mut e, &[]);
}

#[test]
fn error_test_decoder() {
        let mut d = ErrorEncoding.raw_decoder();
        dec_feed_err(&mut d, &[], &[0x41], &[], "");
        dec_feed_err(&mut d, &[], &[0x42], &[0x43], "");
        dec_feed_ok(&mut d, &[], &[], "");
        dec_feed_err(&mut d, &[], &[0xa0], &[], "");
        dec_finish_ok(&mut d, "");
}
