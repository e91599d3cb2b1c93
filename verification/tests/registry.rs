use uri::scheme::Scheme;
use uri::scheme::SchemeStatus;

#[test]
fn resolve_exact_matches() {
    assert!(Scheme::resolve("aaa") == Some(Scheme::Aaa));
    assert!(Scheme::resolve("http") == Some(Scheme::Http));
    assert!(Scheme::resolve("https") == Some(Scheme::Https));
    assert!(Scheme::resolve("iris.beep") == Some(Scheme::IrisBeep));
    assert!(Scheme::resolve("ms-help") == Some(Scheme::MsHelp));
    assert!(Scheme::resolve("view-source") == Some(Scheme::ViewSource));
    assert!(Scheme::resolve("z39.50s") == Some(Scheme::Z3950s));
    assert!(Scheme::resolve("z39.50") == Some(Scheme::Z3950));
}

#[test]
fn resolve_is_case_insensitive() {
    assert!(Scheme::resolve("HTTP") == Some(Scheme::Http));
    assert!(Scheme::resolve("MailTo") == Some(Scheme::Mailto));
    assert!(Scheme::resolve("Z39.50R") == Some(Scheme::Z3950r));
}

#[test]
fn resolve_misses() {
    assert!(Scheme::resolve("crazy") == None);
    assert!(Scheme::resolve("") == None);
    assert!(Scheme::resolve("htt") == None);
    assert!(Scheme::resolve("httpx") == None);
    // Only ASCII letters are case-folded: a token with a non-ASCII
    // letter matches no table entry.
    assert!(Scheme::resolve("httр") == None);
}

#[test]
fn canonical_names() {
    assert!(Scheme::Http.canonical_name() == "http");
    assert!(Scheme::ChromeExtension.canonical_name() == "chrome-extension");
    assert!(Scheme::Z3950r.canonical_name() == "z39.50r");
    assert!(Scheme::Unknown("CrAzY".to_string()).canonical_name() == "crazy");
    assert!(Scheme::Unknown("weird+4.U".to_string()).canonical_name() == "weird+4.u");
}

#[test]
fn statuses() {
    assert!(Scheme::Http.iana_status() == SchemeStatus::Permanent);
    assert!(Scheme::Afp.iana_status() == SchemeStatus::Provisional);
    assert!(Scheme::Fax.iana_status() == SchemeStatus::Historical);
    assert!(Scheme::Mysql.iana_status() == SchemeStatus::Unregistered);
    assert!(Scheme::Unknown("crazy".to_string()).iana_status() == SchemeStatus::Unregistered);
}

#[test]
fn descriptions_and_references() {
    assert!(Scheme::Http.description() == "Hypertext Transfer Protocol");
    assert!(Scheme::Http.iana_reference() == "[RFC7230, Section 2.7.1]");
    assert!(Scheme::Ftp.description() == "File Transfer Protocol");
    assert!(Scheme::Ftp.iana_reference() == "[RFC1738]");
    assert!(Scheme::Mysql.description() == "MySql Database Connection");
    assert!(Scheme::Mysql.iana_reference() == "");
    assert!(Scheme::Unknown("crazy".to_string()).description() == "");
    assert!(Scheme::Unknown("crazy".to_string()).iana_reference() == "");
}
