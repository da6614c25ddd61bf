use auth0_client::dbconnections::ChangePasswordRequest;
use auth0_client::error::Auth0Error;

#[test]
fn test_change_password_request_builder_valid() {
    let req = ChangePasswordRequest::builder()
        .client_id("test_client_id")
        .email("user@example.com")
        .connection("Username-Password-Authentication")
        .organization("org_123")
        .build();

    assert!(req.is_ok());
    let req = req.unwrap();
    assert_eq!(req.client_id, "test_client_id");
    assert_eq!(req.email, "user@example.com");
    assert_eq!(req.connection, "Username-Password-Authentication");
    assert_eq!(req.organization, Some("org_123".to_string()));
}

#[test]
fn test_change_password_request_builder_minimal() {
    let req = ChangePasswordRequest::builder()
        .client_id("test_client_id")
        .email("user@example.com")
        .connection("Username-Password-Authentication")
        .build();

    assert!(req.is_ok());
    let req = req.unwrap();
    assert_eq!(req.client_id, "test_client_id");
    assert_eq!(req.email, "user@example.com");
    assert_eq!(req.connection, "Username-Password-Authentication");
    assert_eq!(req.organization, None);
}

#[test]
fn test_change_password_request_builder_missing_client_id() {
    let req = ChangePasswordRequest::builder()
        .email("user@example.com")
        .connection("Username-Password-Authentication")
        .build();

    assert!(req.is_err());
    match req {
        Err(Auth0Error::InvalidRequest(msg)) => {
            assert_eq!(msg, "Client ID is required");
        }
        _ => panic!("Expected InvalidRequest error"),
    }
}

#[test]
fn test_change_password_request_builder_missing_email() {
    let req = ChangePasswordRequest::builder()
        .client_id("test_client_id")
        .connection("Username-Password-Authentication")
        .build();

    assert!(req.is_err());
    match req {
        Err(Auth0Error::InvalidRequest(msg)) => {
            assert_eq!(msg, "Email is required");
        }
        _ => panic!("Expected InvalidRequest error"),
    }
}

#[test]
fn test_change_password_request_builder_missing_connection() {
    let req = ChangePasswordRequest::builder()
        .client_id("test_client_id")
        .email("user@example.com")
        .build();

    assert!(req.is_err());
    match req {
        Err(Auth0Error::InvalidRequest(msg)) => {
            assert_eq!(msg, "Connection is required");
        }
        _ => panic!("Expected InvalidRequest error"),
    }
}

#[test]
fn test_change_password_request_builder_invalid_email() {
    let req = ChangePasswordRequest::builder()
        .client_id("test_client_id")
        .email("invalid_email")
        .connection("Username-Password-Authentication")
        .build();

    assert!(req.is_err());
    match req {
        Err(Auth0Error::InvalidRequest(msg)) => {
            assert_eq!(msg, "Invalid email format");
        }
        _ => panic!("Expected InvalidRequest error"),
    }
}

#[test]
fn change_password_empty_builder_reports_client_id_first() {
    match ChangePasswordRequest::builder().build() {
        Err(Auth0Error::InvalidRequest(msg)) => assert_eq!(msg, "Client ID is required"),
        _ => panic!("Expected InvalidRequest error"),
    }
}

#[test]
fn change_password_missing_connection_named_before_email_shape() {
    let req = ChangePasswordRequest::builder().client_id("c").email("no-at-sign").build();
    match req {
        Err(Auth0Error::InvalidRequest(msg)) => assert_eq!(msg, "Connection is required"),
        _ => panic!("Expected InvalidRequest error"),
    }
}

#[test]
fn change_password_connection_then_email_shape() {
    let req = ChangePasswordRequest::builder()
        .client_id("c")
        .email("x")
        .connection("db")
        .build();
    match req {
        Err(Auth0Error::InvalidRequest(msg)) => assert_eq!(msg, "Invalid email format"),
        _ => panic!("Expected InvalidRequest error"),
    }
}
