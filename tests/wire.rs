use auth0_client::dbconnections::ChangePasswordRequest;
use auth0_client::oauth::OauthTokenRequest;
use auth0_client::organizations::{
    AddMembersRequest, BrandingColors, CreateOrganizationRequest, EnabledConnection,
    OrganizationBranding, PatchOrganizationRequest,
};
use auth0_client::tickets::CreatePasswordChangeTicketRequest;
use auth0_client::users::CreateUserRequest;
use auth0_client::wire::WireValue;

fn to_json(w: WireValue) -> serde_json::Value {
    match w {
        WireValue::Text(s) => serde_json::Value::String(s),
        WireValue::Flag(b) => serde_json::Value::Bool(b),
        WireValue::Int(n) => serde_json::Value::from(n),
        WireValue::List(v) => serde_json::Value::Array(v.into_iter().map(to_json).collect()),
        WireValue::Object(entries) => {
            let mut m = serde_json::Map::new();
            for (k, v) in entries {
                m.insert(k, to_json(v));
            }
            serde_json::Value::Object(m)
        }
        WireValue::Document(d) => d,
    }
}

fn keys(w: &WireValue) -> Vec<String> {
    match w {
        WireValue::Object(entries) => entries.iter().map(|(k, _)| k.clone()).collect(),
        _ => panic!("not an object"),
    }
}

#[test]
fn test_create_organization_request_serialization() {
    let request = CreateOrganizationRequest {
        name: "test-org".to_string(),
        display_name: Some("Test Org".to_string()),
        branding: None,
        metadata: None,
        enabled_connections: None,
    };

    let json = to_json(request.into_wire());
    assert_eq!(json["name"], "test-org");
    assert_eq!(json["display_name"], "Test Org");
    assert!(!json.as_object().unwrap().contains_key("branding"));
    assert!(!json.as_object().unwrap().contains_key("metadata"));
    assert!(!json
        .as_object()
        .unwrap()
        .contains_key("enabled_connections"));
}

#[test]
fn test_patch_organization_request_serialization() {
    let request = PatchOrganizationRequest {
        display_name: Some("Updated Org".to_string()),
        branding: Some(OrganizationBranding {
            logo_url: Some("https://example.com/logo.png".to_string()),
            colors: None,
        }),
        metadata: None,
        enabled_connections: None,
        name: None,
    };

    let json = to_json(request.into_wire());
    assert_eq!(json["display_name"], "Updated Org");
    assert_eq!(json["branding"]["logo_url"], "https://example.com/logo.png");
    assert!(!json.as_object().unwrap().contains_key("metadata"));
    assert!(!json.as_object().unwrap().contains_key("name"));
    assert!(!json
        .as_object()
        .unwrap()
        .contains_key("enabled_connections"));
}

#[test]
fn test_patch_organization_request_empty_serialization() {
    let request = PatchOrganizationRequest::default();
    let json = to_json(request.into_wire());
    assert_eq!(json, serde_json::Value::Object(serde_json::Map::new()));
}

#[test]
fn test_add_members_request_serialization() {
    let request = AddMembersRequest {
        members: vec![
            "auth0|507f1f77bcf86cd799439011".to_string(),
            "auth0|507f1f77bcf86cd799439012".to_string(),
        ],
    };

    let json = to_json(request.into_wire());
    assert!(json["members"].is_array());
    assert_eq!(json["members"][0], "auth0|507f1f77bcf86cd799439011");
    assert_eq!(json["members"][1], "auth0|507f1f77bcf86cd799439012");
}

#[test]
fn absent_fields_leave_no_key() {
    let req = ChangePasswordRequest::builder()
        .client_id("c")
        .email("e@x")
        .connection("db")
        .build()
        .unwrap();
    assert_eq!(keys(&req.into_wire()), vec!["client_id", "email", "connection"]);

    let ticket = CreatePasswordChangeTicketRequest::builder()
        .user_id("u")
        .include_email_in_redirect(true)
        .build()
        .unwrap();
    assert_eq!(keys(&ticket.into_wire()), vec!["user_id", "includeEmailInRedirect"]);

    let token = OauthTokenRequest {
        grant_type: "client_credentials".to_string(),
        client_id: "id".to_string(),
        audience: Some("https://api.example.com".to_string()),
        ..Default::default()
    };
    assert_eq!(keys(&token.into_wire()), vec!["grant_type", "client_id", "audience"]);

    let user = CreateUserRequest::builder().email("a@b").connection("db").blocked(true).build().unwrap();
    assert_eq!(keys(&user.into_wire()), vec!["email", "connection", "blocked"]);
}

#[test]
fn set_fields_survive_a_text_round_trip() {
    let metadata: serde_json::Value = serde_json::from_str(r#"{"industry": "technology", "size": "medium"}"#).unwrap();
    let request = CreateOrganizationRequest {
        name: "test-org-full".to_string(),
        display_name: Some("Test Full Organization".to_string()),
        branding: Some(OrganizationBranding {
            logo_url: Some("https://example.com/logo.png".to_string()),
            colors: Some(BrandingColors {
                primary: Some("#FF5733".to_string()),
                page_background: Some("#FFFFFF".to_string()),
            }),
        }),
        metadata: Some(metadata.clone()),
        enabled_connections: Some(vec![EnabledConnection {
            connection_id: "con_123".to_string(),
            assign_membership_on_login: true,
            show_as_button: false,
            is_signup_enabled: false,
        }]),
    };
    let text = serde_json::to_string(&to_json(request.into_wire())).unwrap();
    let back: serde_json::Value = serde_json::from_str(&text).unwrap();
    assert_eq!(back["name"], "test-org-full");
    assert_eq!(back["display_name"], "Test Full Organization");
    assert_eq!(back["branding"]["logo_url"], "https://example.com/logo.png");
    assert_eq!(back["branding"]["colors"]["primary"], "#FF5733");
    assert_eq!(back["branding"]["colors"]["page_background"], "#FFFFFF");
    assert_eq!(back["metadata"], metadata);
    assert_eq!(back["enabled_connections"][0]["connection_id"], "con_123");
    assert_eq!(back["enabled_connections"][0]["assign_membership_on_login"], true);
    assert_eq!(back["enabled_connections"][0]["show_as_button"], false);
    assert_eq!(back["enabled_connections"][0]["is_signup_enabled"], false);
    assert_eq!(back.as_object().unwrap().len(), 5);
}

#[test]
fn ticket_fields_survive_a_text_round_trip() {
    let ticket = CreatePasswordChangeTicketRequest::builder()
        .user_id("auth0|1")
        .ttl_sec(432000)
        .mark_email_as_verified(false)
        .new_email("n@e.com")
        .build()
        .unwrap();
    let text = serde_json::to_string(&to_json(ticket.into_wire())).unwrap();
    let back: serde_json::Value = serde_json::from_str(&text).unwrap();
    assert_eq!(back["user_id"], "auth0|1");
    assert_eq!(back["ttl_sec"], 432000);
    assert_eq!(back["mark_email_as_verified"], false);
    assert_eq!(back["new_email"], "n@e.com");
    assert_eq!(back.as_object().unwrap().len(), 4);
}
