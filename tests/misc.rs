use auth0_client::error::Auth0Error;
use auth0_client::organizations::{check_add_members, AddMembersRequest};
use auth0_client::random_password;

#[test]
fn random_password_is_long_and_alphanumeric() {
    let p = random_password();
    assert_eq!(p.chars().count(), 64);
    assert!(p.chars().all(|c| c.is_ascii_alphanumeric()));
}

#[test]
fn test_post_members_empty_organization_id() {
    let request = AddMembersRequest {
        members: vec!["auth0|507f1f77bcf86cd799439011".to_string()],
    };
    match check_add_members("", &request) {
        Err(Auth0Error::InvalidRequest(msg)) => {
            assert_eq!(msg, "Organization ID cannot be empty");
        }
        _ => panic!("Expected InvalidRequest error"),
    }
}

#[test]
fn test_post_members_empty_members_array() {
    let request = AddMembersRequest { members: vec![] };
    match check_add_members("org_123456", &request) {
        Err(Auth0Error::InvalidRequest(msg)) => {
            assert_eq!(msg, "Members array cannot be empty");
        }
        _ => panic!("Expected InvalidRequest error"),
    }
}

#[test]
fn add_members_with_both_present_passes() {
    let request = AddMembersRequest { members: vec!["u".to_string()] };
    assert!(check_add_members("org_1", &request).is_ok());
}
