//! The password-change ticket request.

use vstd::prelude::*;
use crate::error::{is_invalid_request, Auth0Error, Result};
use crate::text::{contains_char, has_char};
use crate::wire::{
    flag_of, int_of, lemma_distinct_names, lemma_fields_read_back, lemma_only_present_fields,
    lookup, name_unused, names_differ, only_present_fields, opt_flag, opt_int, opt_text, present,
    text_of, Json, ObjectBuilder, WireValue,
};

verus! {

/// Body of a request for a single-use password-change link.
#[derive(Debug)]
pub struct CreatePasswordChangeTicketRequest {
    /// The user for whom the ticket is created.
    pub user_id: String,
    /// Where to redirect once the password has been changed.
    pub result_url: Option<String>,
    /// Lifetime of the ticket in seconds.
    pub ttl_sec: Option<i32>,
    /// Whether to mark the user's e-mail as verified.
    pub mark_email_as_verified: Option<bool>,
    /// Whether to include the e-mail address in the redirect.
    pub include_email_in_redirect: Option<bool>,
    /// A new e-mail address for the user.
    pub new_email: Option<String>,
    /// The connection to use.
    pub connection_id: Option<String>,
    /// The client ID to use.
    pub client_id: Option<String>,
    /// The organization ID to use.
    pub organization_id: Option<String>,
}

impl Default for CreatePasswordChangeTicketRequest {
    /// Empty required text, and no optional field.
    fn default() -> (r: Self)
        ensures
            r.user_id@.len() == 0,
            r.result_url is None,
            r.ttl_sec is None,
            r.mark_email_as_verified is None,
            r.include_email_in_redirect is None,
            r.new_email is None,
            r.connection_id is None,
            r.client_id is None,
            r.organization_id is None,
    {
        CreatePasswordChangeTicketRequest {
            user_id: String::new(),
            result_url: None,
            ttl_sec: None,
            mark_email_as_verified: None,
            include_email_in_redirect: None,
            new_email: None,
            connection_id: None,
            client_id: None,
            organization_id: None,
        }
    }
}

/// The body of a ticket request holds nothing but the fields that are set,
/// and reading each field back by its name gives its value.
pub proof fn lemma_password_change_ticket_wire(req: CreatePasswordChangeTicketRequest)
    ensures
        only_present_fields(req.wire_fields()),
        lookup(present(req.wire_fields()), "user_id"@) == Some(Json::Text(req.user_id@)),
        lookup(present(req.wire_fields()), "result_url"@) == text_of(req.result_url),
        lookup(present(req.wire_fields()), "ttl_sec"@) == int_of(req.ttl_sec),
        lookup(present(req.wire_fields()), "mark_email_as_verified"@) == flag_of(req.mark_email_as_verified),
        lookup(present(req.wire_fields()), "includeEmailInRedirect"@) == flag_of(req.include_email_in_redirect),
        lookup(present(req.wire_fields()), "new_email"@) == text_of(req.new_email),
        lookup(present(req.wire_fields()), "connection_id"@) == text_of(req.connection_id),
        lookup(present(req.wire_fields()), "client_id"@) == text_of(req.client_id),
        lookup(present(req.wire_fields()), "organization_id"@) == text_of(req.organization_id),
{
    let fs = req.wire_fields();
    lemma_only_present_fields(fs);
    reveal_strlit("user_id");
    reveal_strlit("result_url");
    reveal_strlit("ttl_sec");
    reveal_strlit("mark_email_as_verified");
    reveal_strlit("includeEmailInRedirect");
    reveal_strlit("new_email");
    reveal_strlit("connection_id");
    reveal_strlit("client_id");
    reveal_strlit("organization_id");
    assert(fs[0].0 == "user_id"@);
    assert(fs[1].0 == "result_url"@);
    assert(fs[2].0 == "ttl_sec"@);
    assert(fs[3].0 == "mark_email_as_verified"@);
    assert(fs[4].0 == "includeEmailInRedirect"@);
    assert(fs[5].0 == "new_email"@);
    assert(fs[6].0 == "connection_id"@);
    assert(fs[7].0 == "client_id"@);
    assert(fs[8].0 == "organization_id"@);
    // Names of equal length differ at these letters.
    assert(fs[0].0[0] == 'u');
    assert(fs[2].0[0] == 't');
    assert(fs[3].0[0] == 'm');
    assert(fs[4].0[0] == 'i');
    assert(fs[5].0[0] == 'n');
    assert(fs[7].0[0] == 'c');
    reveal_with_fuel(names_differ, 10);
    reveal_with_fuel(name_unused, 10);
    lemma_distinct_names(fs, fs.len() as int);
    lemma_fields_read_back(fs);
}

/// Omitting the user ID fails the build with a message that names it;
/// setting it alone passes, and the request has no optional field.
pub proof fn lemma_password_change_ticket_builder(b: CreatePasswordChangeTicketRequestBuilder)
    ensures
        b@.user_id is None ==> b.rejection() == Some("User ID is required"@),
        b@.user_id is Some && b@.new_email is None && b@.ttl_sec is None ==> b.rejection() is None,
{
}

/// Collects the fields of a [`CreatePasswordChangeTicketRequest`] before
/// validation.
pub struct CreatePasswordChangeTicketRequestBuilder {
    user_id: Option<String>,
    result_url: Option<String>,
    ttl_sec: Option<i32>,
    mark_email_as_verified: Option<bool>,
    include_email_in_redirect: Option<bool>,
    new_email: Option<String>,
    connection_id: Option<String>,
    client_id: Option<String>,
    organization_id: Option<String>,
}

/// What a [`CreatePasswordChangeTicketRequestBuilder`] has staged so far.
pub struct PasswordChangeTicketFields {
    pub user_id: Option<Seq<char>>,
    pub result_url: Option<Seq<char>>,
    pub ttl_sec: Option<i32>,
    pub mark_email_as_verified: Option<bool>,
    pub include_email_in_redirect: Option<bool>,
    pub new_email: Option<Seq<char>>,
    pub connection_id: Option<Seq<char>>,
    pub client_id: Option<Seq<char>>,
    pub organization_id: Option<Seq<char>>,
}

impl View for CreatePasswordChangeTicketRequestBuilder {
    type V = PasswordChangeTicketFields;

    closed spec fn view(&self) -> PasswordChangeTicketFields {
        PasswordChangeTicketFields {
            user_id: self.user_id.deep_view(),
            result_url: self.result_url.deep_view(),
            ttl_sec: self.ttl_sec,
            mark_email_as_verified: self.mark_email_as_verified,
            include_email_in_redirect: self.include_email_in_redirect,
            new_email: self.new_email.deep_view(),
            connection_id: self.connection_id.deep_view(),
            client_id: self.client_id.deep_view(),
            organization_id: self.organization_id.deep_view(),
        }
    }
}

/// The reply of a successful ticket request.
#[derive(Debug)]
pub struct CreatePasswordChangeTicketResponse {
    /// The URL of the ticket.
    pub ticket: String,
}

impl CreatePasswordChangeTicketRequest {
    /// The body's fields, by their names on the wire.
    pub open spec fn wire_fields(&self) -> Seq<(Seq<char>, Option<Json>)> {
        seq![
            ("user_id"@, Some(Json::Text(self.user_id@))),
            ("result_url"@, text_of(self.result_url)),
            ("ttl_sec"@, int_of(self.ttl_sec)),
            ("mark_email_as_verified"@, flag_of(self.mark_email_as_verified)),
            ("includeEmailInRedirect"@, flag_of(self.include_email_in_redirect)),
            ("new_email"@, text_of(self.new_email)),
            ("connection_id"@, text_of(self.connection_id)),
            ("client_id"@, text_of(self.client_id)),
            ("organization_id"@, text_of(self.organization_id)),
        ]
    }

    /// The JSON body of the request; an absent field leaves no key.
    pub fn into_wire(self) -> (r: WireValue)
        ensures
            r.model() == Json::Object(present(self.wire_fields())),
    {
        let ghost fields = self.wire_fields();
        let mut obj = ObjectBuilder::new();
        obj.field("user_id", Some(WireValue::Text(self.user_id)));
        obj.field("result_url", opt_text(self.result_url));
        obj.field("ttl_sec", opt_int(self.ttl_sec));
        obj.field("mark_email_as_verified", opt_flag(self.mark_email_as_verified));
        obj.field("includeEmailInRedirect", opt_flag(self.include_email_in_redirect));
        obj.field("new_email", opt_text(self.new_email));
        obj.field("connection_id", opt_text(self.connection_id));
        obj.field("client_id", opt_text(self.client_id));
        obj.field("organization_id", opt_text(self.organization_id));
        assert(obj.fields() =~= fields);
        obj.finish()
    }

    pub fn builder() -> (r: CreatePasswordChangeTicketRequestBuilder)
        ensures
            r@.user_id is None,
            r@.result_url is None,
            r@.ttl_sec is None,
            r@.mark_email_as_verified is None,
            r@.include_email_in_redirect is None,
            r@.new_email is None,
            r@.connection_id is None,
            r@.client_id is None,
            r@.organization_id is None,
    {
        CreatePasswordChangeTicketRequestBuilder {
            user_id: None,
            result_url: None,
            ttl_sec: None,
            mark_email_as_verified: None,
            include_email_in_redirect: None,
            new_email: None,
            connection_id: None,
            client_id: None,
            organization_id: None,
        }
    }
}

impl CreatePasswordChangeTicketRequestBuilder {
    /// The first check that the staged fields fail, as the message that
    /// reports it: the user ID first, then the e-mail's shape, then the
    /// lifetime's sign.
    pub open spec fn rejection(&self) -> Option<Seq<char>> {
        if self@.user_id is None {
            Some("User ID is required"@)
        } else if self@.new_email matches Some(e) && !has_char(e, '@') {
            Some("Invalid email format"@)
        } else if self@.ttl_sec matches Some(t) && t <= 0 {
            Some("TTL must be positive"@)
        } else {
            None
        }
    }

    pub fn user_id(self, user_id: &str) -> (r: Self)
        ensures
            r@.user_id == Some(user_id@),
            r@.result_url == self@.result_url,
            r@.ttl_sec == self@.ttl_sec,
            r@.mark_email_as_verified == self@.mark_email_as_verified,
            r@.include_email_in_redirect == self@.include_email_in_redirect,
            r@.new_email == self@.new_email,
            r@.connection_id == self@.connection_id,
            r@.client_id == self@.client_id,
            r@.organization_id == self@.organization_id,
    {
        CreatePasswordChangeTicketRequestBuilder { user_id: Some(String::from_str(user_id)), ..self }
    }

    pub fn result_url(self, result_url: &str) -> (r: Self)
        ensures
            r@.result_url == Some(result_url@),
            r@.user_id == self@.user_id,
            r@.ttl_sec == self@.ttl_sec,
            r@.mark_email_as_verified == self@.mark_email_as_verified,
            r@.include_email_in_redirect == self@.include_email_in_redirect,
            r@.new_email == self@.new_email,
            r@.connection_id == self@.connection_id,
            r@.client_id == self@.client_id,
            r@.organization_id == self@.organization_id,
    {
        CreatePasswordChangeTicketRequestBuilder { result_url: Some(String::from_str(result_url)), ..self }
    }

    pub fn ttl_sec(self, ttl_sec: i32) -> (r: Self)
        ensures
            r@.ttl_sec == Some(ttl_sec),
            r@.user_id == self@.user_id,
            r@.result_url == self@.result_url,
            r@.mark_email_as_verified == self@.mark_email_as_verified,
            r@.include_email_in_redirect == self@.include_email_in_redirect,
            r@.new_email == self@.new_email,
            r@.connection_id == self@.connection_id,
            r@.client_id == self@.client_id,
            r@.organization_id == self@.organization_id,
    {
        CreatePasswordChangeTicketRequestBuilder { ttl_sec: Some(ttl_sec), ..self }
    }

    pub fn mark_email_as_verified(self, verified: bool) -> (r: Self)
        ensures
            r@.mark_email_as_verified == Some(verified),
            r@.user_id == self@.user_id,
            r@.result_url == self@.result_url,
            r@.ttl_sec == self@.ttl_sec,
            r@.include_email_in_redirect == self@.include_email_in_redirect,
            r@.new_email == self@.new_email,
            r@.connection_id == self@.connection_id,
            r@.client_id == self@.client_id,
            r@.organization_id == self@.organization_id,
    {
        CreatePasswordChangeTicketRequestBuilder { mark_email_as_verified: Some(verified), ..self }
    }

    pub fn include_email_in_redirect(self, flag: bool) -> (r: Self)
        ensures
            r@.include_email_in_redirect == Some(flag),
            r@.user_id == self@.user_id,
            r@.result_url == self@.result_url,
            r@.ttl_sec == self@.ttl_sec,
            r@.mark_email_as_verified == self@.mark_email_as_verified,
            r@.new_email == self@.new_email,
            r@.connection_id == self@.connection_id,
            r@.client_id == self@.client_id,
            r@.organization_id == self@.organization_id,
    {
        CreatePasswordChangeTicketRequestBuilder { include_email_in_redirect: Some(flag), ..self }
    }

    pub fn new_email(self, email: &str) -> (r: Self)
        ensures
            r@.new_email == Some(email@),
            r@.user_id == self@.user_id,
            r@.result_url == self@.result_url,
            r@.ttl_sec == self@.ttl_sec,
            r@.mark_email_as_verified == self@.mark_email_as_verified,
            r@.include_email_in_redirect == self@.include_email_in_redirect,
            r@.connection_id == self@.connection_id,
            r@.client_id == self@.client_id,
            r@.organization_id == self@.organization_id,
    {
        CreatePasswordChangeTicketRequestBuilder { new_email: Some(String::from_str(email)), ..self }
    }

    pub fn connection_id(self, connection_id: &str) -> (r: Self)
        ensures
            r@.connection_id == Some(connection_id@),
            r@.user_id == self@.user_id,
            r@.result_url == self@.result_url,
            r@.ttl_sec == self@.ttl_sec,
            r@.mark_email_as_verified == self@.mark_email_as_verified,
            r@.include_email_in_redirect == self@.include_email_in_redirect,
            r@.new_email == self@.new_email,
            r@.client_id == self@.client_id,
            r@.organization_id == self@.organization_id,
    {
        CreatePasswordChangeTicketRequestBuilder { connection_id: Some(String::from_str(connection_id)), ..self }
    }

    pub fn client_id(self, client_id: &str) -> (r: Self)
        ensures
            r@.client_id == Some(client_id@),
            r@.user_id == self@.user_id,
            r@.result_url == self@.result_url,
            r@.ttl_sec == self@.ttl_sec,
            r@.mark_email_as_verified == self@.mark_email_as_verified,
            r@.include_email_in_redirect == self@.include_email_in_redirect,
            r@.new_email == self@.new_email,
            r@.connection_id == self@.connection_id,
            r@.organization_id == self@.organization_id,
    {
        CreatePasswordChangeTicketRequestBuilder { client_id: Some(String::from_str(client_id)), ..self }
    }

    pub fn organization_id(self, organization_id: &str) -> (r: Self)
        ensures
            r@.organization_id == Some(organization_id@),
            r@.user_id == self@.user_id,
            r@.result_url == self@.result_url,
            r@.ttl_sec == self@.ttl_sec,
            r@.mark_email_as_verified == self@.mark_email_as_verified,
            r@.include_email_in_redirect == self@.include_email_in_redirect,
            r@.new_email == self@.new_email,
            r@.connection_id == self@.connection_id,
            r@.client_id == self@.client_id,
    {
        CreatePasswordChangeTicketRequestBuilder { organization_id: Some(String::from_str(organization_id)), ..self }
    }

    /// Checks the staged fields in a fixed order and produces the request,
    /// or the first failure as an `InvalidRequest`.
    pub fn build(self) -> (r: Result<CreatePasswordChangeTicketRequest>)
        ensures
            match self.rejection() {
                Some(msg) => is_invalid_request(r, msg),
                None => r matches Ok(req) && Some(req.user_id@) == self@.user_id
                    && req.result_url.deep_view() == self@.result_url
                    && req.ttl_sec == self@.ttl_sec
                    && req.mark_email_as_verified == self@.mark_email_as_verified
                    && req.include_email_in_redirect == self@.include_email_in_redirect
                    && req.new_email.deep_view() == self@.new_email
                    && req.connection_id.deep_view() == self@.connection_id
                    && req.client_id.deep_view() == self@.client_id
                    && req.organization_id.deep_view() == self@.organization_id,
            },
    {
        let user_id = match self.user_id {
            Some(v) => v,
            None => return Err(Auth0Error::InvalidRequest(String::from_str("User ID is required"))),
        };
        if let Some(email) = &self.new_email {
            if !contains_char(email.as_str(), '@') {
                return Err(Auth0Error::InvalidRequest(String::from_str("Invalid email format")));
            }
        }
        if let Some(ttl) = self.ttl_sec {
            if ttl <= 0 {
                return Err(Auth0Error::InvalidRequest(String::from_str("TTL must be positive")));
            }
        }
        Ok(CreatePasswordChangeTicketRequest {
            user_id,
            result_url: self.result_url,
            ttl_sec: self.ttl_sec,
            mark_email_as_verified: self.mark_email_as_verified,
            include_email_in_redirect: self.include_email_in_redirect,
            new_email: self.new_email,
            connection_id: self.connection_id,
            client_id: self.client_id,
            organization_id: self.organization_id,
        })
    }
}

} // verus!
