//! The OAuth 2.0 token exchange: request, reply, the provider's error
//! envelope, and the two-tier classification of a failed exchange.

use vstd::prelude::*;
use crate::error::Auth0Error;
use crate::text::{concat, str_eq};
use crate::wire::{
    lemma_distinct_names, lemma_fields_read_back, lemma_only_present_fields, lookup, name_unused,
    names_differ, only_present_fields, opt_text, present, text_of, Json, ObjectBuilder, WireValue,
};

verus! {

/// Body of a token request. Which optional fields matter depends on the
/// grant type (`client_credentials`, `authorization_code`, `refresh_token`).
#[derive(Debug)]
pub struct OauthTokenRequest {
    /// The type of grant being requested.
    pub grant_type: String,
    /// The application's client ID.
    pub client_id: String,
    /// The application's client secret (confidential clients).
    pub client_secret: Option<String>,
    /// The target API (client-credentials grant).
    pub audience: Option<String>,
    /// The authorization code (authorization-code grant).
    pub code: Option<String>,
    /// The redirect URI of the authorization request.
    pub redirect_uri: Option<String>,
    /// The PKCE code verifier.
    pub code_verifier: Option<String>,
    /// The refresh token (refresh-token grant).
    pub refresh_token: Option<String>,
    /// Space-separated scopes to request.
    pub scope: Option<String>,
}

impl Default for OauthTokenRequest {
    /// Empty required text, and no optional field.
    fn default() -> (r: Self)
        ensures
            r.grant_type@.len() == 0,
            r.client_id@.len() == 0,
            r.client_secret is None,
            r.audience is None,
            r.code is None,
            r.redirect_uri is None,
            r.code_verifier is None,
            r.refresh_token is None,
            r.scope is None,
    {
        OauthTokenRequest {
            grant_type: String::new(),
            client_id: String::new(),
            client_secret: None,
            audience: None,
            code: None,
            redirect_uri: None,
            code_verifier: None,
            refresh_token: None,
            scope: None,
        }
    }
}

/// The body of a token request holds nothing but the fields that are set,
/// and reading each field back by its name gives its value.
pub proof fn lemma_oauth_token_wire(req: OauthTokenRequest)
    ensures
        only_present_fields(req.wire_fields()),
        lookup(present(req.wire_fields()), "grant_type"@) == Some(Json::Text(req.grant_type@)),
        lookup(present(req.wire_fields()), "client_id"@) == Some(Json::Text(req.client_id@)),
        lookup(present(req.wire_fields()), "client_secret"@) == text_of(req.client_secret),
        lookup(present(req.wire_fields()), "audience"@) == text_of(req.audience),
        lookup(present(req.wire_fields()), "code"@) == text_of(req.code),
        lookup(present(req.wire_fields()), "redirect_uri"@) == text_of(req.redirect_uri),
        lookup(present(req.wire_fields()), "code_verifier"@) == text_of(req.code_verifier),
        lookup(present(req.wire_fields()), "refresh_token"@) == text_of(req.refresh_token),
        lookup(present(req.wire_fields()), "scope"@) == text_of(req.scope),
{
    let fs = req.wire_fields();
    lemma_only_present_fields(fs);
    reveal_strlit("grant_type");
    reveal_strlit("client_id");
    reveal_strlit("client_secret");
    reveal_strlit("audience");
    reveal_strlit("code");
    reveal_strlit("redirect_uri");
    reveal_strlit("code_verifier");
    reveal_strlit("refresh_token");
    reveal_strlit("scope");
    assert(fs[0].0 == "grant_type"@);
    assert(fs[1].0 == "client_id"@);
    assert(fs[2].0 == "client_secret"@);
    assert(fs[3].0 == "audience"@);
    assert(fs[4].0 == "code"@);
    assert(fs[5].0 == "redirect_uri"@);
    assert(fs[6].0 == "code_verifier"@);
    assert(fs[7].0 == "refresh_token"@);
    assert(fs[8].0 == "scope"@);
    // Names of equal length differ at these letters.
    assert(fs[2].0[0] == 'c');
    assert(fs[2].0[1] == 'l');
    assert(fs[6].0[0] == 'c');
    assert(fs[6].0[1] == 'o');
    assert(fs[7].0[0] == 'r');
    reveal_with_fuel(names_differ, 10);
    reveal_with_fuel(name_unused, 10);
    lemma_distinct_names(fs, fs.len() as int);
    lemma_fields_read_back(fs);
}

impl OauthTokenRequest {
    /// The body's fields, by their names on the wire.
    pub open spec fn wire_fields(&self) -> Seq<(Seq<char>, Option<Json>)> {
        seq![
            ("grant_type"@, Some(Json::Text(self.grant_type@))),
            ("client_id"@, Some(Json::Text(self.client_id@))),
            ("client_secret"@, text_of(self.client_secret)),
            ("audience"@, text_of(self.audience)),
            ("code"@, text_of(self.code)),
            ("redirect_uri"@, text_of(self.redirect_uri)),
            ("code_verifier"@, text_of(self.code_verifier)),
            ("refresh_token"@, text_of(self.refresh_token)),
            ("scope"@, text_of(self.scope)),
        ]
    }

    /// The JSON body of the request; an absent field leaves no key.
    pub fn into_wire(self) -> (r: WireValue)
        ensures
            r.model() == Json::Object(present(self.wire_fields())),
    {
        let ghost fields = self.wire_fields();
        let mut obj = ObjectBuilder::new();
        obj.field("grant_type", Some(WireValue::Text(self.grant_type)));
        obj.field("client_id", Some(WireValue::Text(self.client_id)));
        obj.field("client_secret", opt_text(self.client_secret));
        obj.field("audience", opt_text(self.audience));
        obj.field("code", opt_text(self.code));
        obj.field("redirect_uri", opt_text(self.redirect_uri));
        obj.field("code_verifier", opt_text(self.code_verifier));
        obj.field("refresh_token", opt_text(self.refresh_token));
        obj.field("scope", opt_text(self.scope));
        assert(obj.fields() =~= fields);
        obj.finish()
    }
}

/// The reply of a successful token request.
#[derive(Debug)]
pub struct OauthTokenResponse {
    /// The access token.
    pub access_token: String,
    /// The scopes granted.
    pub scope: Option<String>,
    /// The type of token, typically `Bearer`.
    pub token_type: String,
    /// Seconds until the access token expires.
    pub expires_in: u64,
    /// The refresh token, for some grant types.
    pub refresh_token: Option<String>,
    /// The ID token, with OpenID Connect scopes.
    pub id_token: Option<String>,
}

/// The structured error envelope that the token endpoint sends on failure.
#[derive(Debug)]
pub struct OauthErrorResponse {
    /// The machine-readable error code, such as `invalid_request`.
    pub error: String,
    /// The human-readable description.
    pub error_description: String,
    /// A page with more information, if any.
    pub error_uri: Option<String>,
}

/// The status-code classification used when the body is no envelope: the
/// standard one, except that 409 is not singled out.
pub open spec fn oauth_fallback_error(status: u16, body: String) -> Auth0Error {
    if status == 400 {
        Auth0Error::InvalidRequest(body)
    } else if status == 401 {
        Auth0Error::Unauthorized(body)
    } else if status == 403 {
        Auth0Error::Forbidden(body)
    } else if status == 429 {
        Auth0Error::TooManyRequests(body)
    } else {
        Auth0Error::UnexpectedResponse { status, body }
    }
}

/// `r` is what the envelope `e` of a failed exchange with `status`
/// classifies as: by the error code, whatever the status.
pub open spec fn is_envelope_error(r: Auth0Error, status: u16, e: OauthErrorResponse) -> bool {
    let code = e.error@;
    if code == "invalid_request"@ {
        r == Auth0Error::InvalidRequest(e.error_description)
    } else if code == "unauthorized_client"@ || code == "invalid_client"@ {
        r == Auth0Error::Unauthorized(e.error_description)
    } else if code == "access_denied"@ || code == "insufficient_scope"@ {
        r == Auth0Error::Forbidden(e.error_description)
    } else {
        r matches Auth0Error::UnexpectedResponse { status: s, body: b } && s == status && b@
            == code + ": "@ + e.error_description@
    }
}

/// `r` is the classification of a failed token exchange with `status`,
/// response text `body`, and `envelope` the body read as an error
/// envelope, if it is one.
pub open spec fn is_oauth_error(
    r: Auth0Error,
    status: u16,
    body: String,
    envelope: Option<OauthErrorResponse>,
) -> bool {
    match envelope {
        Some(e) => is_envelope_error(r, status, e),
        None => r == oauth_fallback_error(status, body),
    }
}

/// Classifies a failed token exchange: by the envelope's error code when
/// the body is an envelope, else by the status code (where 409 is no
/// `Conflict`).
pub fn classify_oauth_failure(
    status: u16,
    body: String,
    envelope: Option<OauthErrorResponse>,
) -> (r: Auth0Error)
    ensures
        is_oauth_error(r, status, body, envelope),
{
    match envelope {
        Some(e) => {
            let code = e.error.as_str();
            if str_eq(code, "invalid_request") {
                Auth0Error::InvalidRequest(e.error_description)
            } else if str_eq(code, "unauthorized_client") || str_eq(code, "invalid_client") {
                Auth0Error::Unauthorized(e.error_description)
            } else if str_eq(code, "access_denied") || str_eq(code, "insufficient_scope") {
                Auth0Error::Forbidden(e.error_description)
            } else {
                let head = concat(code, ": ");
                let text = concat(head.as_str(), e.error_description.as_str());
                Auth0Error::UnexpectedResponse { status, body: text }
            }
        },
        None => match status {
            400 => Auth0Error::InvalidRequest(body),
            401 => Auth0Error::Unauthorized(body),
            403 => Auth0Error::Forbidden(body),
            429 => Auth0Error::TooManyRequests(body),
            _ => Auth0Error::UnexpectedResponse { status, body },
        },
    }
}

} // verus!
