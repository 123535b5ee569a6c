use encoding::all;
use encoding::types::{
    feed_decoder, feed_encoder, finish_decoder, Encoding, RawDecoder, RawEncoder,
};

fn dec_feed_ok<D: RawDecoder>(d: &mut D, processed: &[u8], unprocessed: &[u8], output: &str) {
    let mut input = processed.to_vec();
    input.extend_from_slice(unprocessed);
    let mut buf = String::new();
    let (n, err) = feed_decoder(d, &input, &mut buf);
    assert_eq!(n, processed.len(), "processed bytes of {:?}", input);
    assert!(err.is_none(), "unexpected error on {:?}", input);
    assert_eq!(buf, output);
}

fn dec_feed_err<D: RawDecoder>(
    d: &mut D,
    processed: &[u8],
    problem: &[u8],
    remaining: &[u8],
    output: &str,
) {
    let mut input = processed.to_vec();
    input.extend_from_slice(problem);
    input.extend_from_slice(remaining);
    let mut buf = String::new();
    let (n, err) = feed_decoder(d, &input, &mut buf);
    assert_eq!(n, processed.len(), "processed bytes of {:?}", input);
    let err = err.expect("an error");
    assert_eq!(err.upto, (processed.len() + problem.len()) as isize, "upto of {:?}", input);
    assert_eq!(buf, output);
}

fn dec_finish_ok<D: RawDecoder>(d: &mut D, output: &str) {
    let mut buf = String::new();
    let err = finish_decoder(d, &mut buf);
    assert!(err.is_none());
    assert_eq!(buf, output);
}

fn dec_finish_err<D: RawDecoder>(d: &mut D, output: &str) {
    let mut buf = String::new();
    let err = finish_decoder(d, &mut buf);
    assert_eq!(err.expect("an error").upto, 0);
    assert_eq!(buf, output);
}

fn enc_feed_ok<E: RawEncoder>(e: &mut E, processed: &str, unprocessed: &str, output: &[u8]) {
    let input = format!("{}{}", processed, unprocessed);
    let mut buf: Vec<u8> = Vec::new();
    let (n, err) = feed_encoder(e, &input, &mut buf);
    assert_eq!(n, processed.len(), "processed bytes of {:?}", input);
    assert!(err.is_none(), "unexpected error on {:?}", input);
    assert_eq!(buf, output);
}

fn enc_feed_err<E: RawEncoder>(
    e: &mut E,
    processed: &str,
    problem: &str,
    remaining: &str,
    output: &[u8],
) {
    let input = format!("{}{}{}", processed, problem, remaining);
    let mut buf: Vec<u8> = Vec::new();
    let (n, err) = feed_encoder(e, &input, &mut buf);
    assert_eq!(n, processed.len(), "processed bytes of {:?}", input);
    let err = err.expect("an error");
    assert_eq!(err.upto, (processed.len() + problem.len()) as isize, "upto of {:?}", input);
    assert_eq!(buf, output);
}

fn enc_finish_ok<E: RawEncoder>(e: &mut E, output: &[u8]) {
    let mut buf: Vec<u8> = Vec::new();
    let err = e.raw_finish(&mut buf);
    assert!(err.is_none());
    assert_eq!(buf, output);
}

#[test]
fn singlebyte_test_encoder_non_bmp() {
        let mut e = all::ISO_8859_2.raw_encoder();
        enc_feed_err(&mut e, "A", "\u{ffff}", "B", &[0x41]);
        enc_feed_err(&mut e, "A", "\u{10000}", "B", &[0x41]);
}
