//! The API operations: their routes, authentication, which statuses count
//! as success, and how a failed exchange is classified.

use vstd::prelude::*;
use crate::error::{standard_error, Auth0Error};
use crate::oauth::{classify_oauth_failure, is_oauth_error, OauthErrorResponse};
use crate::text::concat;

verus! {

/// The HTTP method of an operation.
#[derive(Clone, Copy, Debug, PartialEq, Eq, Structural)]
pub enum Method {
    Post,
    Patch,
}

/// One operation of the API.
#[derive(Clone, Copy, Debug, PartialEq, Eq, Structural)]
pub enum Operation {
    /// Starts a password reset for a database user.
    ChangePassword,
    /// Exchanges credentials for an access token.
    OauthToken,
    /// Creates an organization.
    CreateOrganization,
    /// Updates an organization.
    PatchOrganization,
    /// Adds users to an organization.
    AddMembers,
    /// Creates a user.
    CreateUser,
    /// Creates a password-change ticket.
    CreatePasswordChangeTicket,
}

impl Operation {
    pub open spec fn method_of(self) -> Method {
        match self {
            Operation::PatchOrganization => Method::Patch,
            _ => Method::Post,
        }
    }

    /// The route of the operation; `id` fills the organization slot of the
    /// organization routes that have one.
    pub open spec fn path_of(self, id: Seq<char>) -> Seq<char> {
        match self {
            Operation::ChangePassword => "/dbconnections/change_password"@,
            Operation::OauthToken => "/oauth/token"@,
            Operation::CreateOrganization => "/api/v2/organizations"@,
            Operation::PatchOrganization => "/api/v2/organizations/"@ + id,
            Operation::AddMembers => "/api/v2/organizations/"@ + id + "/members"@,
            Operation::CreateUser => "/api/v2/users"@,
            Operation::CreatePasswordChangeTicket => "/api/v2/tickets/password-change"@,
        }
    }

    /// Whether the call carries a bearer credential (the authentication
    /// endpoints take none).
    pub open spec fn bearer_of(self) -> bool {
        !(self == Operation::ChangePassword || self == Operation::OauthToken)
    }

    /// Whether a reply with `status` is a success for this operation.
    pub open spec fn accepts(self, status: u16) -> bool {
        match self {
            Operation::CreateOrganization => status == 200 || status == 201,
            Operation::PatchOrganization => status == 200,
            Operation::AddMembers => status == 200 || status == 201 || status == 204,
            _ => 200 <= status <= 299,
        }
    }

    pub fn method(&self) -> (r: Method)
        ensures
            r == self.method_of(),
    {
        match self {
            Operation::PatchOrganization => Method::Patch,
            _ => Method::Post,
        }
    }

    pub fn path(&self, organization_id: &str) -> (r: String)
        ensures
            r@ == self.path_of(organization_id@),
    {
        match self {
            Operation::ChangePassword => String::from_str("/dbconnections/change_password"),
            Operation::OauthToken => String::from_str("/oauth/token"),
            Operation::CreateOrganization => String::from_str("/api/v2/organizations"),
            Operation::PatchOrganization => concat("/api/v2/organizations/", organization_id),
            Operation::AddMembers => {
                let head = concat("/api/v2/organizations/", organization_id);
                concat(head.as_str(), "/members")
            },
            Operation::CreateUser => String::from_str("/api/v2/users"),
            Operation::CreatePasswordChangeTicket => String::from_str("/api/v2/tickets/password-change"),
        }
    }

    pub fn needs_bearer(&self) -> (r: bool)
        ensures
            r == self.bearer_of(),
    {
        match self {
            Operation::ChangePassword | Operation::OauthToken => false,
            _ => true,
        }
    }

    pub fn is_success(&self, status: u16) -> (r: bool)
        ensures
            r == self.accepts(status),
    {
        match self {
            Operation::CreateOrganization => status == 200 || status == 201,
            Operation::PatchOrganization => status == 200,
            Operation::AddMembers => status == 200 || status == 201 || status == 204,
            _ => 200 <= status && status <= 299,
        }
    }

    /// Classifies a failed exchange. The token endpoint reads the error
    /// envelope first (`envelope`, the body read as one, if it is one);
    /// every other operation goes by the status code alone and ignores it.
    pub fn classify_failure(
        &self,
        status: u16,
        body: String,
        envelope: Option<OauthErrorResponse>,
    ) -> (r: Auth0Error)
        ensures
            *self == Operation::OauthToken ==> is_oauth_error(r, status, body, envelope),
            *self != Operation::OauthToken ==> r == standard_error(status, body),
    {
        match self {
            Operation::OauthToken => classify_oauth_failure(status, body, envelope),
            _ => Auth0Error::from_response(status, body),
        }
    }
}

} // verus!
