use auth0_client::error::Auth0Error;
use auth0_client::token::BearerToken;

#[test]
fn test_valid_token() {
    let token = BearerToken::new("eyJhbGciOiJIUzI1NiIsInR5cCI6IkpXVCJ9").unwrap();
    assert_eq!(token.as_str(), "eyJhbGciOiJIUzI1NiIsInR5cCI6IkpXVCJ9");
}

#[test]
fn test_invalid_tokens() {
    assert!(BearerToken::new("").is_err());
    assert!(BearerToken::new("token with spaces").is_err());
    assert!(BearerToken::new("token\nwith\nnewlines").is_err());
}

#[test]
fn test_token_debug_redacted() {
    let token = BearerToken::new("secret_token").unwrap();
    let debug_str = token.to_debug_string();
    assert!(debug_str.contains("[REDACTED]"));
    assert!(!debug_str.contains("secret_token"));
}

#[test]
fn token_scenarios_from_the_contract() {
    assert!(BearerToken::new("").is_err());
    assert!(BearerToken::new("has space").is_err());
    assert!(BearerToken::new("tok\n2").is_err());
}

#[test]
fn token_error_messages() {
    match BearerToken::new("") {
        Err(Auth0Error::InvalidRequest(m)) => assert_eq!(m, "Bearer token cannot be empty"),
        _ => panic!("Expected InvalidRequest error"),
    }
    for bad in ["a b", "a\tb", "a\rb", "\u{a0}x", "x\u{3000}", "\u{2028}"] {
        match BearerToken::new(bad) {
            Err(Auth0Error::InvalidRequest(m)) => {
                assert_eq!(m, "Bearer token cannot contain whitespace")
            }
            _ => panic!("Expected InvalidRequest error"),
        }
    }
}

#[test]
fn token_renderings_are_fixed() {
    let a = BearerToken::new("abc").unwrap();
    let b = BearerToken::new("zzzzzzzzzzzzzzzzzzzzzzzzzzzzzzzzzzzzzzzzzzzz").unwrap();
    assert_eq!(a.to_debug_string(), b.to_debug_string());
    assert_eq!(a.to_debug_string(), "BearerToken { inner: \"[REDACTED]\" }");
    assert_eq!(a.to_string(), "[REDACTED]");
    assert!(!b.to_debug_string().contains(b.as_str()));
}

#[test]
fn token_accepts_non_whitespace_unicode() {
    let t = BearerToken::new("tök-ën_ü").unwrap();
    assert_eq!(t.as_str(), "tök-ën_ü");
}

#[test]
fn token_try_from_matches_new() {
    assert_eq!(BearerToken::try_from("abc").unwrap().as_str(), "abc");
    assert_eq!(BearerToken::try_from("xyz".to_string()).unwrap().as_str(), "xyz");
    assert!(matches!(
        BearerToken::try_from("a b".to_string()),
        Err(Auth0Error::InvalidRequest(ref m)) if m == "Bearer token cannot contain whitespace"
    ));
    assert!(BearerToken::try_from("").is_err());
}
