use relay::config::API;
use relay::middleware::Config;
use relay::session_id::{bin2hex, generate_session_id, hex2bin, verify_session_id};

fn api() -> API {
    API {
        client_id: 12345,
        client_secret: "SECRET-REDACTED".to_owned(),
        redirect_url: "https://example.org/auth".to_owned(),
        scope: vec!["identify".to_owned(), "public".to_owned()],
    }
}

#[test]
fn session_ids_have_sixty_four_bytes() {
    assert!(verify_session_id(&"a".repeat(64)));
    assert!(!verify_session_id(&"a".repeat(63)));
    assert!(!verify_session_id(""));
    let id = generate_session_id();
    assert_eq!(id.len(), 64);
    assert!(verify_session_id(&id));
    assert_ne!(id, generate_session_id());
}

#[test]
fn hex_encoding_is_upper_case() {
    assert_eq!(bin2hex(&[0x00, 0xff, 0x10, 0xa5]), "00FF10A5");
    assert_eq!(bin2hex(&[]), "");
}

#[test]
fn hex_decoding_accepts_either_case() {
    assert_eq!(hex2bin("00ff10A5"), vec![0x00, 0xff, 0x10, 0xa5]);
    assert_eq!(hex2bin(""), Vec::<u8>::new());
    let key: Vec<u8> = (0..=255).collect();
    assert_eq!(hex2bin(&bin2hex(&key)), key);
}

#[test]
fn refresh_form_fields() {
    let form = api().refresh_form("R0");
    let expected: Vec<(String, String)> = vec![
        ("client_id".to_owned(), "12345".to_owned()),
        ("client_secret".to_owned(), "SECRET-REDACTED".to_owned()),
        ("grant_type".to_owned(), "refresh_token".to_owned()),
        ("refresh_token".to_owned(), "R0".to_owned()),
    ];
    assert_eq!(form, expected);
}

#[test]
fn authentication_form_fields() {
    let form = api().authentication_form("C", "S");
    assert_eq!(form.len(), 6);
    assert_eq!(form[2], ("code".to_owned(), "C".to_owned()));
    assert_eq!(form[3], ("grant_type".to_owned(), "authorization_code".to_owned()));
    assert_eq!(form[4], ("redirect_uri".to_owned(), "https://example.org/auth".to_owned()));
}

#[test]
fn authorization_params_join_scopes() {
    let a = api();
    assert_eq!(a.scope_text(), "identify public");
    let p = a.authorization_params("st");
    assert_eq!(p[0], ("client_id".to_owned(), "12345".to_owned()));
    assert_eq!(p[3], ("scope".to_owned(), "identify public".to_owned()));
    assert_eq!(p[4], ("state".to_owned(), "st".to_owned()));
    let mut none = api();
    none.scope.clear();
    assert_eq!(none.scope_text(), "");
}

#[test]
fn limiter_turns_away_past_limit() {
    let c = Config::new(1);
    assert_eq!(c.max_concurrent_requests(), 1);
    let mut l = c.transform();
    assert!(l.try_acquire());
    assert!(l.try_acquire());
    assert!(!l.try_acquire());
    assert_eq!(l.concurrent_requests(), 2);
    l.release();
    assert!(l.try_acquire());
    l.release();
    l.release();
    l.release();
    assert_eq!(l.concurrent_requests(), 0);
}

#[test]
fn limiter_default_is_ten() {
    assert_eq!(Config::default().max_concurrent_requests(), 10);
}

#[test]
fn hex_text_check() {
    assert!(relay::session_id::is_hex_pairs_text("00ffA5"));
    assert!(relay::session_id::is_hex_pairs_text(""));
    assert!(!relay::session_id::is_hex_pairs_text("0"));
    assert!(!relay::session_id::is_hex_pairs_text("0g"));
    assert!(!relay::session_id::is_hex_pairs_text("+f"));
}
