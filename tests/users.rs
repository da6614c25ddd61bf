use auth0_client::error::Auth0Error;
use auth0_client::users::CreateUserRequest;

fn json(text: &str) -> serde_json::Value {
    serde_json::from_str(text).unwrap()
}

#[test]
fn test_create_user_request_builder_valid() {
    let req = CreateUserRequest::builder()
        .email("test@example.com")
        .connection("Username-Password-Authentication")
        .password("SecurePassword123!")
        .given_name("John")
        .family_name("Doe")
        .name("John Doe")
        .nickname("johndoe")
        .picture("https://example.com/avatar.jpg")
        .email_verified(true)
        .phone_number("+1234567890")
        .phone_verified(false)
        .user_metadata(json(r#"{"favorite_color": "blue"}"#))
        .app_metadata(json(r#"{"roles": ["user"]}"#))
        .blocked(false)
        .build();

    assert!(req.is_ok());
    let req = req.unwrap();
    assert_eq!(req.email, "test@example.com");
    assert_eq!(req.connection, "Username-Password-Authentication");
    assert_eq!(req.password, Some("SecurePassword123!".to_string()));
    assert_eq!(req.given_name, Some("John".to_string()));
    assert_eq!(req.family_name, Some("Doe".to_string()));
    assert_eq!(req.name, Some("John Doe".to_string()));
    assert_eq!(req.nickname, Some("johndoe".to_string()));
    assert_eq!(
        req.picture,
        Some("https://example.com/avatar.jpg".to_string())
    );
    assert_eq!(req.email_verified, Some(true));
    assert_eq!(req.phone_number, Some("+1234567890".to_string()));
    assert_eq!(req.phone_verified, Some(false));
    assert_eq!(req.user_metadata, Some(json(r#"{"favorite_color": "blue"}"#)));
    assert_eq!(req.app_metadata, Some(json(r#"{"roles": ["user"]}"#)));
    assert_eq!(req.blocked, Some(false));
}

#[test]
fn test_create_user_request_builder_minimal() {
    let req = CreateUserRequest::builder()
        .email("test@example.com")
        .connection("Username-Password-Authentication")
        .build();

    assert!(req.is_ok());
    let req = req.unwrap();
    assert_eq!(req.email, "test@example.com");
    assert_eq!(req.connection, "Username-Password-Authentication");
    assert_eq!(req.password, None);
    assert_eq!(req.given_name, None);
    assert_eq!(req.family_name, None);
}

#[test]
fn test_create_user_request_builder_missing_email() {
    let req = CreateUserRequest::builder()
        .connection("Username-Password-Authentication")
        .build();

    assert!(req.is_err());
    match req {
        Err(Auth0Error::InvalidRequest(msg)) => {
            assert_eq!(msg, "Email is required");
        }
        _ => panic!("Expected InvalidRequest error"),
    }
}

#[test]
fn test_create_user_request_builder_missing_connection() {
    let req = CreateUserRequest::builder()
        .email("test@example.com")
        .build();

    assert!(req.is_err());
    match req {
        Err(Auth0Error::InvalidRequest(msg)) => {
            assert_eq!(msg, "Connection is required");
        }
        _ => panic!("Expected InvalidRequest error"),
    }
}

#[test]
fn test_create_user_request_builder_invalid_email() {
    let req = CreateUserRequest::builder()
        .email("invalid_email")
        .connection("Username-Password-Authentication")
        .build();

    assert!(req.is_err());
    match req {
        Err(Auth0Error::InvalidRequest(msg)) => {
            assert_eq!(msg, "Invalid email format");
        }
        _ => panic!("Expected InvalidRequest error"),
    }
}

#[test]
fn create_user_connection_checked_before_email_shape() {
    let req = CreateUserRequest::builder().email("invalid_email").build();
    assert!(matches!(req, Err(Auth0Error::InvalidRequest(ref m)) if m == "Connection is required"));
}
