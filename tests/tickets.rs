use auth0_client::error::Auth0Error;
use auth0_client::tickets::CreatePasswordChangeTicketRequest;

#[test]
fn test_create_password_change_ticket_request_builder_valid() {
    let req = CreatePasswordChangeTicketRequest::builder()
        .user_id("auth0|507f1f77bcf86cd799439011")
        .result_url("https://myapp.com/password-changed")
        .ttl_sec(432000)
        .mark_email_as_verified(true)
        .include_email_in_redirect(false)
        .new_email("newemail@example.com")
        .connection_id("con_123")
        .client_id("client_456")
        .organization_id("org_789")
        .build();

    assert!(req.is_ok());
    let req = req.unwrap();
    assert_eq!(req.user_id, "auth0|507f1f77bcf86cd799439011");
    assert_eq!(
        req.result_url,
        Some("https://myapp.com/password-changed".to_string())
    );
    assert_eq!(req.ttl_sec, Some(432000));
    assert_eq!(req.mark_email_as_verified, Some(true));
    assert_eq!(req.include_email_in_redirect, Some(false));
    assert_eq!(req.new_email, Some("newemail@example.com".to_string()));
    assert_eq!(req.connection_id, Some("con_123".to_string()));
    assert_eq!(req.client_id, Some("client_456".to_string()));
    assert_eq!(req.organization_id, Some("org_789".to_string()));
}

#[test]
fn test_create_password_change_ticket_request_builder_minimal() {
    let req = CreatePasswordChangeTicketRequest::builder()
        .user_id("auth0|507f1f77bcf86cd799439011")
        .build();

    assert!(req.is_ok());
    let req = req.unwrap();
    assert_eq!(req.user_id, "auth0|507f1f77bcf86cd799439011");
    assert_eq!(req.result_url, None);
    assert_eq!(req.ttl_sec, None);
    assert_eq!(req.mark_email_as_verified, None);
}

#[test]
fn test_create_password_change_ticket_request_builder_missing_user_id() {
    let req = CreatePasswordChangeTicketRequest::builder()
        .result_url("https://myapp.com/password-changed")
        .build();

    assert!(req.is_err());
    match req {
        Err(Auth0Error::InvalidRequest(msg)) => {
            assert_eq!(msg, "User ID is required");
        }
        _ => panic!("Expected InvalidRequest error"),
    }
}

#[test]
fn test_create_password_change_ticket_request_builder_invalid_email() {
    let req = CreatePasswordChangeTicketRequest::builder()
        .user_id("auth0|507f1f77bcf86cd799439011")
        .new_email("invalid_email")
        .build();

    assert!(req.is_err());
    match req {
        Err(Auth0Error::InvalidRequest(msg)) => {
            assert_eq!(msg, "Invalid email format");
        }
        _ => panic!("Expected InvalidRequest error"),
    }
}

#[test]
fn test_create_password_change_ticket_request_builder_invalid_ttl() {
    let req = CreatePasswordChangeTicketRequest::builder()
        .user_id("auth0|507f1f77bcf86cd799439011")
        .ttl_sec(-1)
        .build();

    assert!(req.is_err());
    match req {
        Err(Auth0Error::InvalidRequest(msg)) => {
            assert_eq!(msg, "TTL must be positive");
        }
        _ => panic!("Expected InvalidRequest error"),
    }
}

#[test]
fn ticket_zero_ttl_is_rejected_and_one_is_accepted() {
    let zero = CreatePasswordChangeTicketRequest::builder().user_id("u").ttl_sec(0).build();
    assert!(matches!(zero, Err(Auth0Error::InvalidRequest(ref m)) if m == "TTL must be positive"));
    let one = CreatePasswordChangeTicketRequest::builder().user_id("u").ttl_sec(1).build();
    assert_eq!(one.unwrap().ttl_sec, Some(1));
}

#[test]
fn ticket_email_checked_before_ttl() {
    let req = CreatePasswordChangeTicketRequest::builder()
        .user_id("u")
        .ttl_sec(-5)
        .new_email("nope")
        .build();
    assert!(matches!(req, Err(Auth0Error::InvalidRequest(ref m)) if m == "Invalid email format"));
}

#[test]
fn ticket_default_has_no_optional_field() {
    let req = CreatePasswordChangeTicketRequest::default();
    assert_eq!(req.user_id, "");
    assert_eq!(req.new_email, None);
    assert_eq!(req.organization_id, None);
}
