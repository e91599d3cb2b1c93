use uri::Uri;
use uri::UriParseError;
use uri::scheme::Scheme;

#[test]
fn test_parse_encoded() {
    let input: Vec<u8> = vec![
        104, 116, 116, 112, 115, 58, 47, 47, 223, 224, 208, 210, 216, 226, 213, 219, 236, 225,
        226, 210, 222, 46, 224, 228,
    ];
    let uri = Uri::parse_encoded(input.as_slice(), "cyrillic").unwrap();
    assert!(uri.scheme == Scheme::Https);
    assert!(uri.scheme_data == "//правительство.рф");
}

#[test]
fn parse_encoded_utf8() {
    let uri = Uri::parse_encoded("http://website.com/page".as_bytes(), "utf-8").unwrap();
    assert!(uri.scheme == Scheme::Http);
    assert!(uri.scheme_data == "//website.com/page");
}

#[test]
fn parse_encoded_unknown_label() {
    let r = Uri::parse_encoded("http://x".as_bytes(), "no-such-encoding");
    assert!(r == Err(UriParseError::UnknownEncoding));
}

#[test]
fn parse_encoded_malformed_bytes() {
    // 0xFF never starts a valid UTF-8 sequence.
    let input: Vec<u8> = vec![104, 116, 116, 112, 58, 255];
    match Uri::parse_encoded(input.as_slice(), "utf-8") {
        Err(UriParseError::EncodingError(_)) => {}
        other => panic!("expected an encoding error, got {:?}", other),
    }
}

#[test]
fn parse_encoded_surfaces_parse_errors() {
    let r = Uri::parse_encoded("incomplete".as_bytes(), "utf-8");
    assert!(r == Err(UriParseError::MissingSchemeTerminator));
}
