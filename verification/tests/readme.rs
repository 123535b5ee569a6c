use encoding::all;
use encoding::decode;
use encoding::encoding_ref::EncodingRef;
use encoding::label::encoding_from_whatwg_label;
use encoding::types::{feed_encoder, DecoderTrap, Encoding, EncoderTrap, RawEncoder};

#[test]
fn encoding_test_readme() {
    assert_eq!(all::ISO_8859_2.encode("caf\u{e9}", EncoderTrap::Strict), Ok(vec![99, 97, 102, 233]));
    assert!(all::ISO_8859_2.encode("Acme\u{a9}", EncoderTrap::Strict).is_err());
    assert_eq!(
        all::ISO_8859_2.encode("Acme\u{a9}", EncoderTrap::Replace),
        Ok(vec![65, 99, 109, 101, 63])
    );
    assert_eq!(all::ISO_8859_2.encode("Acme\u{a9}", EncoderTrap::Ignore), Ok(vec![65, 99, 109, 101]));
    assert_eq!(
        all::ISO_8859_2.encode("Acme\u{a9}", EncoderTrap::NcrEscape),
        Ok(vec![65, 99, 109, 101, 38, 35, 49, 54, 57, 59])
    );

    assert_eq!(
        all::ISO_8859_2.decode(&[99, 97, 102, 233], DecoderTrap::Strict),
        Ok(String::from("caf\u{e9}"))
    );
    assert!(all::ISO_8859_6.decode(&[65, 99, 109, 101, 169], DecoderTrap::Strict).is_err());
    assert_eq!(
        all::ISO_8859_6.decode(&[65, 99, 109, 101, 169], DecoderTrap::Replace),
        Ok(String::from("Acme\u{fffd}"))
    );
    assert_eq!(
        all::ISO_8859_6.decode(&[65, 99, 109, 101, 169], DecoderTrap::Ignore),
        Ok(String::from("Acme"))
    );
}

#[test]
fn lib_test_readme() {
    assert_eq!(all::ISO_8859_1.encode("caf\u{e9}", EncoderTrap::Strict), Ok(vec![99, 97, 102, 233]));

    assert!(all::ISO_8859_2.encode("Acme\u{a9}", EncoderTrap::Strict).is_err());
    assert_eq!(
        all::ISO_8859_2.encode("Acme\u{a9}", EncoderTrap::Replace),
        Ok(vec![65, 99, 109, 101, 63])
    );
    assert_eq!(all::ISO_8859_2.encode("Acme\u{a9}", EncoderTrap::Ignore), Ok(vec![65, 99, 109, 101]));
    assert_eq!(
        all::ISO_8859_2.encode("Acme\u{a9}", EncoderTrap::NcrEscape),
        Ok(vec![65, 99, 109, 101, 38, 35, 49, 54, 57, 59])
    );

    assert_eq!(
        all::ISO_8859_1.decode(&[99, 97, 102, 233], DecoderTrap::Strict),
        Ok(String::from("caf\u{e9}"))
    );

    assert!(all::ISO_8859_6.decode(&[65, 99, 109, 101, 169], DecoderTrap::Strict).is_err());
    assert_eq!(
        all::ISO_8859_6.decode(&[65, 99, 109, 101, 169], DecoderTrap::Replace),
        Ok(String::from("Acme\u{fffd}"))
    );
    assert_eq!(
        all::ISO_8859_6.decode(&[65, 99, 109, 101, 169], DecoderTrap::Ignore),
        Ok(String::from("Acme"))
    );
}

/// Encodes with the raw encoder, replacing each unrepresentable character with a
/// hexadecimal numeric character reference.
fn encode_hex_ncr<E: RawEncoder>(encoder: &mut E, input: &str) -> Vec<u8> {
    let mut output: Vec<u8> = Vec::new();
    let mut remaining = 0;
    loop {
        let (offset, err) = feed_encoder(encoder, &input[remaining..], &mut output);
        match err {
            None => break,
            Some(err) => {
                let problem = &input[remaining + offset..remaining + err.upto as usize];
                let escapes: Vec<String> =
                    problem.chars().map(|ch| format!("&#x{:x};", ch as u32)).collect();
                output.extend_from_slice(escapes.concat().as_bytes());
                remaining += err.upto as usize;
            }
        }
    }
    output
}

fn hex_ncr_escape_readme() {
    let orig = "Hello, 世界!";
    let encoded = encode_hex_ncr(&mut all::ASCII.raw_encoder(), orig);
    let decoded = all::ASCII.decode(&encoded, DecoderTrap::Strict).unwrap();
    assert_eq!(decoded, String::from("Hello, &#x4e16;&#x754c;!"));
}

#[test]
fn encoding_test_readme_hex_ncr_escape() {
    hex_ncr_escape_readme();
}

#[test]
fn lib_test_readme_hex_ncr_escape() {
    hex_ncr_escape_readme();
}

fn readme_whatwg() {
    let euckr = encoding_from_whatwg_label("euc-kr").unwrap();
    assert_eq!(euckr.name(), "windows-949");
    assert_eq!(euckr.whatwg_name(), Some("euc-kr"));
    let broken = &[0xbf, 0xec, 0xbf, 0xcd, 0xff, 0xbe, 0xd3];
    assert_eq!(
        euckr.decode(broken, DecoderTrap::Replace),
        Ok(String::from("\u{c6b0}\u{c640}\u{fffd}\u{c559}"))
    );

    // the native API
    assert_eq!(
        all::WINDOWS_949.decode(broken, DecoderTrap::Replace),
        Ok(String::from("\u{c6b0}\u{c640}\u{fffd}\u{c559}"))
    );
}

#[test]
fn encoding_test_readme_whatwg() {
    readme_whatwg();
}

#[test]
fn lib_test_readme_whatwg() {
    readme_whatwg();
}

fn test_one(input: &[u8], expected_result: &str, expected_encoding: &str) {
    let (result, used_encoding) =
        decode(input, DecoderTrap::Strict, EncodingRef::SingleByte(all::ISO_8859_1));
    let result = result.unwrap();
    assert_eq!(used_encoding.name(), expected_encoding);
    assert_eq!(&result[..], expected_result);
}

#[test]
fn lib_test_decode() {
    test_one(&[0xEF, 0xBB, 0xBF, 0xC3, 0xA9], "é", "utf-8");
    test_one(&[0xC3, 0xA9], "Ã©", "iso-8859-1");

    test_one(&[0xFE, 0xFF, 0x00, 0xE9], "é", "utf-16be");
    test_one(&[0x00, 0xE9], "\x00é", "iso-8859-1");

    test_one(&[0xFF, 0xFE, 0xE9, 0x00], "é", "utf-16le");
    test_one(&[0xE9, 0x00], "é\x00", "iso-8859-1");
}

#[test]
fn test_encoding_from_whatwg_label() {
    assert!(encoding_from_whatwg_label("utf-8").is_some());
    assert!(encoding_from_whatwg_label("UTF-8").is_some());
    assert!(encoding_from_whatwg_label("\t\n\x0C\r utf-8\t\n\x0C\r ").is_some());
    assert!(
        encoding_from_whatwg_label("\u{A0}utf-8").is_none(),
        "Non-ASCII whitespace should not be trimmed"
    );
    assert!(encoding_from_whatwg_label("greek").is_some());
    assert!(
        encoding_from_whatwg_label("gree\u{212A}").is_none(),
        "Case-insensitive matching should be ASCII only. Kelvin sign does not match k."
    );
}
