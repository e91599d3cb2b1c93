use uri::Uri;
use uri::UriParseError;
use uri::scheme::Scheme;
use uri::scheme::SchemeStatus;

#[test]
fn test_scheme_parsing() {
    let uri = Uri::parse("http://website.com/page").unwrap();
    assert!(uri.scheme == Scheme::Http);

    let uri = Uri::parse("crazy://idea").unwrap();
    assert!(uri.scheme == Scheme::Unknown("crazy".to_string()));

    let uri = Uri::parse("https://правительство.рф").unwrap();
    assert!(uri.scheme == Scheme::Https);

    match Uri::parse("in/valid://url") {
        Ok(_) => panic!("Invalid URI has parsed!"),
        Err(e) => assert!(e == UriParseError::BadSchemeCharacter),
    };

    match Uri::parse("incomplete") {
        Ok(_) => panic!("Incomplete URI has parsed!"),
        Err(e) => assert!(e == UriParseError::MissingSchemeTerminator),
    };
}

#[test]
fn known_scheme_round_trip_samples() {
    for name in ["aaa", "http", "mailto", "xmlrpc.beep", "z39.50", "chrome-extension"] {
        let input = format!("{}://x", name);
        let uri = Uri::parse(&input).unwrap();
        assert!(Scheme::resolve(name) == Some(uri.scheme.clone()));
        assert!(uri.scheme.canonical_name() == name);
        assert!(uri.scheme_data == "//x");
    }
}

#[test]
fn unknown_scheme_fallback() {
    let uri = Uri::parse("crazy://idea").unwrap();
    assert!(uri.scheme == Scheme::Unknown("crazy".to_string()));
    assert!(uri.scheme.iana_status() == SchemeStatus::Unregistered);
    assert!(uri.scheme.description() == "");
    assert!(uri.scheme.iana_reference() == "");
    assert!(uri.scheme_data == "//idea");
}

#[test]
fn missing_terminator() {
    assert!(Uri::parse("incomplete") == Err(UriParseError::MissingSchemeTerminator));
    assert!(Uri::parse("") == Err(UriParseError::MissingSchemeTerminator));
}

#[test]
fn bad_scheme_character() {
    assert!(Uri::parse("in/valid://url") == Err(UriParseError::BadSchemeCharacter));
    // An empty scheme token is invalid.
    assert!(Uri::parse(":foo") == Err(UriParseError::BadSchemeCharacter));
    // Whitespace is outside the scheme alphabet, not trimmed.
    assert!(Uri::parse(" http://x") == Err(UriParseError::BadSchemeCharacter));
    assert!(Uri::parse("ht tp://x") == Err(UriParseError::BadSchemeCharacter));
}

#[test]
fn first_terminator_wins() {
    let uri = Uri::parse("mailto:a:b").unwrap();
    assert!(uri.scheme == Scheme::Mailto);
    assert!(uri.scheme_data == "a:b");
}

#[test]
fn case_insensitive_resolution_case_preserving_fallback() {
    let uri = Uri::parse("HTTP://x").unwrap();
    assert!(uri.scheme == Scheme::Http);

    let uri = Uri::parse("Crazy://x").unwrap();
    assert!(uri.scheme == Scheme::Unknown("Crazy".to_string()));
    // The fallback keeps the original case; only display lowercases.
    assert!(uri.scheme.canonical_name() == "crazy");
}

#[test]
fn leading_non_letter_is_tolerated() {
    // The relaxed policy: digits, `+`, `-` and `.` may lead a token.
    let uri = Uri::parse("+foo://x").unwrap();
    assert!(uri.scheme == Scheme::Unknown("+foo".to_string()));
    let uri = Uri::parse("4chan://x").unwrap();
    assert!(uri.scheme == Scheme::Unknown("4chan".to_string()));
}

#[test]
fn parse_is_deterministic() {
    for input in ["http://website.com/page", "crazy://idea", "incomplete", "in/valid://url"] {
        assert!(Uri::parse(input) == Uri::parse(input));
    }
}
