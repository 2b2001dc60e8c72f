use fleet_auth::scheme::{is_https, is_ssl, scan_schemes, ScanError};

fn urls(items: &[&str]) -> Vec<String> {
    items.iter().map(|s| s.to_string()).collect()
}

#[test]
fn one_secure_url_needs_tls() {
    assert_eq!(is_ssl(&urls(&["http://a", "https://b"])), Ok(true));
}

#[test]
fn plain_urls_need_no_tls() {
    assert_eq!(is_ssl(&urls(&["http://a", "http://b"])), Ok(false));
}

#[test]
fn no_urls_need_no_tls() {
    assert_eq!(is_ssl(&urls(&[])), Ok(false));
}

#[test]
fn unparseable_url_is_an_error() {
    assert_eq!(is_ssl(&urls(&["not a url"])), Err(ScanError::UrlParseFailed(0)));
}

#[test]
fn error_names_the_first_bad_url() {
    assert_eq!(
        is_ssl(&urls(&["http://a", "not a url", "https://b"])),
        Err(ScanError::UrlParseFailed(1))
    );
}

#[test]
fn scan_stops_at_first_secure_url() {
    assert_eq!(is_ssl(&urls(&["https://a", "not a url"])), Ok(true));
}

#[test]
fn scheme_is_compared_after_parsing() {
    assert_eq!(is_ssl(&urls(&["HTTPS://a"])), Ok(true));
    assert_eq!(is_ssl(&urls(&["ftp://a", "httpss://b"])), Ok(false));
}

#[test]
fn scan_of_parsed_schemes() {
    let s = |x: &str| Some(x.to_string());
    assert_eq!(scan_schemes(&vec![s("http"), s("https")]), Ok(true));
    assert_eq!(scan_schemes(&vec![s("http"), s("ftp")]), Ok(false));
    assert_eq!(scan_schemes(&vec![]), Ok(false));
    assert_eq!(scan_schemes(&vec![s("http"), None, s("https")]), Err(ScanError::UrlParseFailed(1)));
    assert_eq!(scan_schemes(&vec![s("https"), None]), Ok(true));
}

#[test]
fn only_https_is_secure() {
    assert!(is_https(&"https".to_string()));
    assert!(!is_https(&"http".to_string()));
    assert!(!is_https(&"HTTPS".to_string()));
    assert!(!is_https(&"".to_string()));
}
