//! The database-connection password-change request.

use vstd::prelude::*;
use crate::error::{is_invalid_request, Auth0Error, Result};
use crate::text::{contains_char, has_char};
use crate::wire::{
    lemma_distinct_names, lemma_fields_read_back, lemma_only_present_fields, lookup, name_unused,
    names_differ, only_present_fields, opt_text, present, text_of, Json, ObjectBuilder, WireValue,
};

verus! {

/// Body of a password-change (reset e-mail) request.
#[derive(Debug)]
pub struct ChangePasswordRequest {
    /// The client ID of the application.
    pub client_id: String,
    /// The user's e-mail address.
    pub email: String,
    /// The name of the database connection.
    pub connection: String,
    /// The organization ID, if any.
    pub organization: Option<String>,
}

/// Collects the fields of a [`ChangePasswordRequest`] before validation.
pub struct ChangePasswordRequestBuilder {
    client_id: Option<String>,
    email: Option<String>,
    connection: Option<String>,
    organization: Option<String>,
}

/// The body of a change-password request holds nothing but the fields
/// that are set, and reading each field back by its name gives its value.
pub proof fn lemma_change_password_wire(req: ChangePasswordRequest)
    ensures
        only_present_fields(req.wire_fields()),
        lookup(present(req.wire_fields()), "client_id"@) == Some(Json::Text(req.client_id@)),
        lookup(present(req.wire_fields()), "email"@) == Some(Json::Text(req.email@)),
        lookup(present(req.wire_fields()), "connection"@) == Some(Json::Text(req.connection@)),
        lookup(present(req.wire_fields()), "organization"@) == text_of(req.organization),
{
    let fs = req.wire_fields();
    lemma_only_present_fields(fs);
    reveal_strlit("client_id");
    reveal_strlit("email");
    reveal_strlit("connection");
    reveal_strlit("organization");
    assert(fs[0].0 == "client_id"@);
    assert(fs[1].0 == "email"@);
    assert(fs[2].0 == "connection"@);
    assert(fs[3].0 == "organization"@);
    reveal_with_fuel(names_differ, 5);
    reveal_with_fuel(name_unused, 5);
    lemma_distinct_names(fs, fs.len() as int);
    lemma_fields_read_back(fs);
}

/// Omitting a required field fails the build with a message that names
/// the first one missing; setting every required field in a valid form,
/// and nothing else, passes, and the request has no optional field.
pub proof fn lemma_change_password_builder(b: ChangePasswordRequestBuilder)
    ensures
        b@.client_id is None ==> b.rejection() == Some("Client ID is required"@),
        b@.client_id is Some && b@.email is None ==> b.rejection() == Some("Email is required"@),
        b@.client_id is Some && b@.email is Some && b@.connection is None ==> b.rejection() == Some(
            "Connection is required"@,
        ),
        b@.client_id is Some && b@.email is Some && has_char(b@.email->0, '@') && b@.connection is Some
            ==> b.rejection() is None,
{
}

/// What a [`ChangePasswordRequestBuilder`] has staged so far.
pub struct ChangePasswordFields {
    pub client_id: Option<Seq<char>>,
    pub email: Option<Seq<char>>,
    pub connection: Option<Seq<char>>,
    pub organization: Option<Seq<char>>,
}

impl View for ChangePasswordRequestBuilder {
    type V = ChangePasswordFields;

    closed spec fn view(&self) -> ChangePasswordFields {
        ChangePasswordFields {
            client_id: self.client_id.deep_view(),
            email: self.email.deep_view(),
            connection: self.connection.deep_view(),
            organization: self.organization.deep_view(),
        }
    }
}

/// The reply of a successful password change is a plain text message.
pub type ChangePasswordResponse = String;

impl ChangePasswordRequest {
    /// The body's fields, by their names on the wire.
    pub open spec fn wire_fields(&self) -> Seq<(Seq<char>, Option<Json>)> {
        seq![
            ("client_id"@, Some(Json::Text(self.client_id@))),
            ("email"@, Some(Json::Text(self.email@))),
            ("connection"@, Some(Json::Text(self.connection@))),
            ("organization"@, text_of(self.organization)),
        ]
    }

    /// The JSON body of the request; an absent field leaves no key.
    pub fn into_wire(self) -> (r: WireValue)
        ensures
            r.model() == Json::Object(present(self.wire_fields())),
    {
        let ghost fields = self.wire_fields();
        let mut obj = ObjectBuilder::new();
        obj.field("client_id", Some(WireValue::Text(self.client_id)));
        obj.field("email", Some(WireValue::Text(self.email)));
        obj.field("connection", Some(WireValue::Text(self.connection)));
        obj.field("organization", opt_text(self.organization));
        assert(obj.fields() =~= fields);
        obj.finish()
    }

    pub fn builder() -> (r: ChangePasswordRequestBuilder)
        ensures
            r@.client_id is None,
            r@.email is None,
            r@.connection is None,
            r@.organization is None,
    {
        ChangePasswordRequestBuilder {
            client_id: None,
            email: None,
            connection: None,
            organization: None,
        }
    }
}

impl ChangePasswordRequestBuilder {
    /// The first check that the staged fields fail, as the message that
    /// reports it: required fields first, then the e-mail's shape.
    pub open spec fn rejection(&self) -> Option<Seq<char>> {
        if self@.client_id is None {
            Some("Client ID is required"@)
        } else if self@.email is None {
            Some("Email is required"@)
        } else if self@.connection is None {
            Some("Connection is required"@)
        } else if !has_char(self@.email->0, '@') {
            Some("Invalid email format"@)
        } else {
            None
        }
    }

    pub fn client_id(self, client_id: &str) -> (r: Self)
        ensures
            r@.client_id == Some(client_id@),
            r@.email == self@.email,
            r@.connection == self@.connection,
            r@.organization == self@.organization,
    {
        ChangePasswordRequestBuilder { client_id: Some(String::from_str(client_id)), ..self }
    }

    pub fn email(self, email: &str) -> (r: Self)
        ensures
            r@.email == Some(email@),
            r@.client_id == self@.client_id,
            r@.connection == self@.connection,
            r@.organization == self@.organization,
    {
        ChangePasswordRequestBuilder { email: Some(String::from_str(email)), ..self }
    }

    pub fn connection(self, connection: &str) -> (r: Self)
        ensures
            r@.connection == Some(connection@),
            r@.client_id == self@.client_id,
            r@.email == self@.email,
            r@.organization == self@.organization,
    {
        ChangePasswordRequestBuilder { connection: Some(String::from_str(connection)), ..self }
    }

    pub fn organization(self, organization: &str) -> (r: Self)
        ensures
            r@.organization == Some(organization@),
            r@.client_id == self@.client_id,
            r@.email == self@.email,
            r@.connection == self@.connection,
    {
        ChangePasswordRequestBuilder { organization: Some(String::from_str(organization)), ..self }
    }

    /// Checks the staged fields in a fixed order and produces the request,
    /// or the first failure as an `InvalidRequest`.
    pub fn build(self) -> (r: Result<ChangePasswordRequest>)
        ensures
            match self.rejection() {
                Some(msg) => is_invalid_request(r, msg),
                None => r matches Ok(req) && Some(req.client_id@) == self@.client_id
                    && Some(req.email@) == self@.email && Some(req.connection@) == self@.connection
                    && req.organization.deep_view() == self@.organization,
            },
    {
        let client_id = match self.client_id {
            Some(v) => v,
            None => return Err(Auth0Error::InvalidRequest(String::from_str("Client ID is required"))),
        };
        let email = match self.email {
            Some(v) => v,
            None => return Err(Auth0Error::InvalidRequest(String::from_str("Email is required"))),
        };
        let connection = match self.connection {
            Some(v) => v,
            None => return Err(Auth0Error::InvalidRequest(String::from_str("Connection is required"))),
        };
        if !contains_char(email.as_str(), '@') {
            return Err(Auth0Error::InvalidRequest(String::from_str("Invalid email format")));
        }
        Ok(ChangePasswordRequest { client_id, email, connection, organization: self.organization })
    }
}

} // verus!
