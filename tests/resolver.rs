use jls::upstream::{string_eq, JlsParseError, JlsServerConfig, Upstream, UpstreamError};

const U1: &str = "https://one.example.org";
const U2: &str = "https://two.example.org:8443";
const U3: &str = "https://three.example.org";

fn rules_config() -> JlsServerConfig {
    let mut c = JlsServerConfig::new("pwd1", "iv1", U3).unwrap();
    c.push_sni("a\\.example\\.com", U1).unwrap();
    c.push_sni(".*\\.example\\.com", U2).unwrap();
    c
}

#[test]
fn name_matching_default_domain_is_authorized() {
    let c = JlsServerConfig::new("pwd1", "iv1", "https://example.com").unwrap();
    assert!(c.check_server_name("example.com"));
    assert!(!c.check_server_name("other.com"));
    assert!(!c.check_server_name("EXAMPLE.COM.evil"));
}

#[test]
fn default_without_domain_authorizes_any_name() {
    let c = JlsServerConfig::new("pwd1", "iv1", "https://127.0.0.1:8443").unwrap();
    assert!(c.check_server_name("example.com"));
    assert!(c.check_server_name("anything.else"));
    assert!(c.check_missing_server_name());
    let d = JlsServerConfig::new("pwd1", "iv1", "https://example.com").unwrap();
    assert!(!d.check_missing_server_name());
}

#[test]
fn no_default_authorizes_nothing() {
    let c = JlsServerConfig::default();
    assert!(!c.check_server_name("example.com"));
    assert!(matches!(c.get_jls_upstream(), Err(UpstreamError::Empty)));
    assert!(matches!(c.find_upstream("example.com"), Err(UpstreamError::Empty)));
}

#[test]
fn first_matching_rule_wins() {
    let c = rules_config();
    assert_eq!(c.find_upstream("a.example.com").unwrap().as_str(), U1);
    assert_eq!(c.find_upstream("b.example.com").unwrap().as_str(), U2);
    assert_eq!(c.find_upstream("other.net").unwrap().as_str(), U3);
}

#[test]
fn proxy_lookup_without_match_is_not_found() {
    let c = rules_config();
    assert!(matches!(c.find_proxy_upstream("other.net"), Err(UpstreamError::NotFound)));
    assert_eq!(c.find_proxy_upstream("x.example.com").unwrap().as_str(), U2);
}

#[test]
fn jls_upstream_checks_the_name() {
    let c = JlsServerConfig::new("pwd1", "iv1", "https://example.com").unwrap();
    assert_eq!(c.find_jls_upstream("example.com").unwrap().as_str(), "https://example.com");
    match c.find_jls_upstream("other.com") {
        Err(UpstreamError::NameMismatch { server_name, url }) => {
            assert_eq!(server_name, "other.com");
            assert_eq!(url, "https://example.com");
        }
        _ => panic!("expected a name mismatch"),
    }
    assert_eq!(c.get_jls_upstream().unwrap().as_str(), "https://example.com");
}

#[test]
fn malformed_inputs_are_reported() {
    assert!(matches!(
        JlsServerConfig::new("p", "i", "not a url"),
        Err(JlsParseError::UrlError(_))
    ));
    let mut c = JlsServerConfig::new("p", "i", "https://example.com").unwrap();
    assert!(matches!(c.push_sni("(", U1), Err(JlsParseError::RegexError(_))));
    assert!(matches!(c.push_sni(".*", "::nope"), Err(JlsParseError::UrlError(_))));
    assert!(matches!(c.find_proxy_upstream("x"), Err(UpstreamError::NotFound)));
}

#[test]
fn parse_error_messages() {
    let e = JlsParseError::RegexError("bad".to_string());
    assert_eq!(e.message(), "Regex Parse Error: bad");
    let e = JlsParseError::UrlError("worse".to_string());
    assert_eq!(e.message(), "Url Parse Error: worse");
}

#[test]
fn port_defaults_to_443() {
    assert_eq!(Upstream::parse("https://example.com").unwrap().port(), 443);
    assert_eq!(Upstream::parse("tls://example.com").unwrap().port(), 443);
    assert_eq!(Upstream::parse("http://example.com").unwrap().port(), 443);
    assert_eq!(Upstream::parse("ftp://example.com").unwrap().port(), 443);
    assert_eq!(Upstream::parse("http://example.com:8080").unwrap().port(), 8080);
    assert_eq!(Upstream::parse("https://example.com:8443").unwrap().port(), 8443);
}

#[test]
fn upstream_reads_the_url() {
    let u = Upstream::parse("https://example.com:8443/path").unwrap();
    assert_eq!(u.domain(), Some("example.com"));
    assert_eq!(u.as_str(), "https://example.com:8443/path");
    assert_eq!(Upstream::parse("https://10.0.0.1").unwrap().domain(), None);
    let d = u.duplicate();
    assert_eq!(d.as_str(), u.as_str());
    assert_eq!(d.port(), 8443);
    assert!(Upstream::parse("").is_err());
}

#[test]
fn strings_compare_by_content() {
    assert!(string_eq("example.com", "example.com"));
    assert!(!string_eq("example.com", "example.org"));
    assert!(!string_eq("a", "ab"));
    assert!(string_eq("", ""));
}

#[test]
fn config_exposes_its_secret() {
    let c = JlsServerConfig::new("pwd1", "iv1", U3).unwrap();
    assert_eq!(c.user_pwd, "pwd1");
    assert_eq!(c.user_iv, "iv1");
}
