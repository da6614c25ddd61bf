use auth0_client::domain::Domain;
use auth0_client::error::Auth0Error;

fn message(r: Result<Domain, Auth0Error>) -> String {
    match r {
        Err(Auth0Error::InvalidRequest(msg)) => msg,
        _ => panic!("Expected InvalidRequest error"),
    }
}

#[test]
fn test_valid_domain() {
    let domain = Domain::new("tenant.auth0.com").unwrap();
    assert_eq!(domain.as_str(), "tenant.auth0.com");
    assert_eq!(
        domain.to_url("/api/v2/users"),
        "https://tenant.auth0.com/api/v2/users"
    );
}

#[test]
fn test_invalid_domains() {
    assert!(Domain::new("").is_err());
    assert!(Domain::new("https://tenant.auth0.com").is_err());
    assert!(Domain::new("tenant.auth0.com/").is_err());
}

#[test]
fn domain_scenarios_from_the_contract() {
    assert!(Domain::new("").is_err());
    assert!(Domain::new("https://a.b.com").is_err());
    assert!(Domain::new("a.b.com/").is_err());
    assert_eq!(Domain::new("a.b.com").unwrap().to_url("/x"), "https://a.b.com/x");
}

#[test]
fn domain_error_messages_in_rule_order() {
    assert_eq!(message(Domain::new("")), "Domain cannot be empty");
    assert_eq!(
        message(Domain::new("http://a.b.com")),
        "Domain should not include protocol (http:// or https://)"
    );
    assert_eq!(
        message(Domain::new("https://a.b.com/")),
        "Domain should not include protocol (http:// or https://)"
    );
    assert_eq!(
        message(Domain::new("a.b.com/")),
        "Domain should not end with a trailing slash"
    );
    assert_eq!(
        message(Domain::new("localhost")),
        "Domain must be a valid Auth0 domain (e.g., tenant.auth0.com)"
    );
    assert_eq!(
        message(Domain::new("localhost/")),
        "Domain should not end with a trailing slash"
    );
}

#[test]
fn domain_insecure_mode_admits_http_and_bare_hosts() {
    let d = Domain::with_options("http://127.0.0.1:1234", true).unwrap();
    assert_eq!(d.as_str(), "http://127.0.0.1:1234");
    assert_eq!(d.to_url("/oauth/token"), "http://127.0.0.1:1234/oauth/token");
    let bare = Domain::with_options("localhost:1234", true).unwrap();
    assert_eq!(bare.to_url("/x"), "https://localhost:1234/x");
    assert_eq!(
        message(Domain::with_options("https://a.b.com", true)),
        "Domain should not include protocol (https://)"
    );
    assert_eq!(
        message(Domain::with_options("http://a.b.com/", true)),
        "Domain should not end with a trailing slash"
    );
    assert_eq!(message(Domain::with_options("", true)), "Domain cannot be empty");
}

#[test]
fn domain_keeps_text_verbatim() {
    let d = Domain::new("Tenant.EU.Auth0.com").unwrap();
    assert_eq!(d.as_str(), "Tenant.EU.Auth0.com");
    assert_eq!(d.to_url(""), "https://Tenant.EU.Auth0.com");
}

#[test]
fn domain_try_from_matches_new() {
    let d = Domain::try_from("tenant.auth0.com").unwrap();
    assert_eq!(d.as_str(), "tenant.auth0.com");
    let owned = Domain::try_from("a.b.com".to_string()).unwrap();
    assert_eq!(owned.to_url("/x"), "https://a.b.com/x");
    assert_eq!(message(Domain::try_from("a.b.com/")), "Domain should not end with a trailing slash");
    assert_eq!(message(Domain::try_from(String::new())), "Domain cannot be empty");
}
