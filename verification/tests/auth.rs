use mermaid_rs_remote_renderer::auth::{
    constant_time_eq, extract_token_from_query, header_text, token_gate_admits, url_decode_bytes,
    urlencoded_decode,
};
use mermaid_rs_remote_renderer::reply::unauthorized_reply;

/// The status the token gate gives a request: 401 when refused, else the
/// status of the route itself (200 here).
fn gate_status(path: &str, expected: Option<&str>, header: Option<&str>, query: Option<&str>) -> u16 {
    if token_gate_admits(path, expected, header.map(|h| h.as_bytes()), query) {
        200
    } else {
        unauthorized_reply().status
    }
}

#[test]
fn missing_api_token_returns_401_when_token_required() {
    let expected = Some("s3cret");
    let uri_path = "/svg/Zmxvd2NoYXJ0IExSOyBBLS0-Qg";

    // No token: 401.
    assert_eq!(gate_status(uri_path, expected, None, None), 401);
    // Wrong token: 401.
    assert_eq!(gate_status(uri_path, expected, Some("nope"), None), 401);
    // Correct token via header: 200.
    assert_eq!(gate_status(uri_path, expected, Some("s3cret"), None), 200);
    // Correct token via query param: 200.
    assert_eq!(gate_status(uri_path, expected, None, Some("token=s3cret")), 200);
    // Health is exempt even when token is required.
    assert_eq!(gate_status("/health", expected, None, None), 200);
}

#[test]
fn public_paths_and_unconfigured_gate_admit() {
    for path in ["/", "/health", "/favicon.svg"] {
        assert!(token_gate_admits(path, Some("t"), None, None), "{path}");
    }
    assert!(!token_gate_admits("/health/", Some("t"), None, None));
    assert!(token_gate_admits("/svg/abc", None, None, None));
}

#[test]
fn header_token_takes_precedence_over_query() {
    // A wrong header is not rescued by a right query token.
    assert!(!token_gate_admits("/svg/x", Some("k"), Some(b"bad"), Some("token=k")));
    // A header that does not read as text falls back to the query token.
    assert!(token_gate_admits("/svg/x", Some("k"), Some(&[0x80u8]), Some("token=k")));
}

#[test]
fn constant_time_eq_is_equality() {
    assert!(constant_time_eq(b"abc", b"abc"));
    assert!(!constant_time_eq(b"abc", b"abd"));
    assert!(!constant_time_eq(b"abc", b"ab"));
    assert!(constant_time_eq(b"", b""));
}

#[test]
fn query_token_extraction() {
    assert_eq!(extract_token_from_query("token=abc"), Some("abc".to_string()));
    assert_eq!(extract_token_from_query("a=1&token=x%20y&token=z"), Some("x y".to_string()));
    assert_eq!(extract_token_from_query("theme=modern"), None);
    assert_eq!(extract_token_from_query(""), None);
    assert_eq!(extract_token_from_query("xtoken=1&token="), Some(String::new()));
    assert_eq!(extract_token_from_query("a&&token=q+r"), Some("q r".to_string()));
}

#[test]
fn percent_decoding() {
    assert_eq!(urlencoded_decode("a%2Fb"), "a/b");
    assert_eq!(urlencoded_decode("a%2fb+c"), "a/b c");
    assert_eq!(urlencoded_decode("%"), "%");
    assert_eq!(urlencoded_decode("%4"), "%4");
    assert_eq!(urlencoded_decode("%zz"), "%zz");
    assert_eq!(urlencoded_decode("%+5"), "\u{5}");
    assert_eq!(urlencoded_decode("%-5"), "%-5");
    assert_eq!(urlencoded_decode("%41%42"), "AB");
    // Invalid UTF-8 after decoding becomes U+FFFD.
    assert_eq!(urlencoded_decode("%FF"), "\u{FFFD}");
    assert_eq!(url_decode_bytes(b"%C3%A9"), vec![0xC3, 0xA9]);
    assert_eq!(urlencoded_decode("%C3%A9"), "é");
}

#[test]
fn header_text_accepts_visible_ascii_only() {
    assert_eq!(header_text(b"abc def\t!"), Some("abc def\t!".to_string()));
    assert_eq!(header_text(b""), Some(String::new()));
    assert_eq!(header_text(b"a\nb"), None);
    assert_eq!(header_text(&[0x7f]), None);
    assert_eq!(header_text("é".as_bytes()), None);
}


#[test]
fn percent_encoded_query_token_is_admitted() {
    assert!(token_gate_admits("/svg/x", Some("a b/c"), None, Some("token=a+b%2Fc")));
    assert!(token_gate_admits("/svg/x", Some("é"), None, Some("token=%C3%A9")));
    assert!(!token_gate_admits("/svg/x", Some("é"), None, Some("token=%C3")));
}
