use urlexpand::address::extract_slug;
use urlexpand::validate;

#[test]
fn test_validate() {
    assert!(validate("bit.ly").is_some());
    assert!(validate("https://bit.ly/").is_some());
    assert!(validate("bit").is_none());
    assert!(validate("https://bit").is_none());
    assert!(validate("google.com").is_none());
    assert!(validate("google").is_none());
}

#[test]
fn validate_adds_https_when_the_scheme_is_missing() {
    assert_eq!(validate("bit.ly"), Some("https://bit.ly/".to_string()));
    assert_eq!(validate("bit.ly/3alqLKi"), Some("https://bit.ly/3alqLKi".to_string()));
    assert_eq!(validate("http://bit.do/fQy4h"), Some("http://bit.do/fQy4h".to_string()));
}

#[test]
fn validate_is_idempotent() {
    for input in ["bit.ly", "https://bit.ly/", "HTTPS://BIT.LY/abc", "tinyurl.com/x?y=1#z"] {
        let once = validate(input).unwrap();
        assert_eq!(validate(&once), Some(once.clone()), "{}", input);
    }
}

#[test]
fn validate_checks_the_domain_not_the_path() {
    assert_eq!(validate("https://example.com/bit.ly"), None);
    assert_eq!(validate("https://127.0.0.1/"), None);
    assert_eq!(validate("not a url at all"), None);
}

#[test]
fn slug_is_the_last_segment_of_a_known_service() {
    assert_eq!(extract_slug("https://l1nq.com/abc123"), Some("abc123".to_string()));
    assert_eq!(extract_slug("https://l1nq.com/a//b/"), Some("b".to_string()));
    assert_eq!(extract_slug("https://l1nq.com/"), None);
    assert_eq!(extract_slug("https://example.com/abc"), None);
    assert_eq!(extract_slug("no url"), None);
}

#[test]
fn slug_on_the_landing_host_follows_the_marker() {
    assert_eq!(
        extract_slug("https://www.encurtador.dev/redirecionamento/XYZ"),
        Some("XYZ".to_string())
    );
    assert_eq!(
        extract_slug("https://encurtador.dev/x/redirecionamento/CODE/more"),
        Some("CODE".to_string())
    );
    assert_eq!(extract_slug("https://encurtador.dev/redirecionamento"), None);
    assert_eq!(extract_slug("https://encurtador.dev/other/CODE"), None);
}
