//! The validated origin address of the API.

use vstd::prelude::*;
use crate::error::{is_invalid_request, Auth0Error, Result};
use crate::text::{concat, contains_char, has_char, has_prefix, last_char_is, starts_with, ends_with_char};

verus! {

/// A validated host identifier for the API origin, such as
/// `tenant.auth0.com`.
#[derive(Debug, Clone, PartialEq, Eq)]
pub struct Domain {
    inner: String,
}

/// The first rule that `d` breaks, as the message that reports it, or
/// `None` when `d` is an acceptable address. With `allow_insecure_scheme`,
/// an `http://` prefix and a host without a dot are tolerated (for a local
/// mock server).
pub open spec fn domain_rejection(d: Seq<char>, allow_insecure_scheme: bool) -> Option<Seq<char>> {
    if d.len() == 0 {
        Some("Domain cannot be empty"@)
    } else if !allow_insecure_scheme && (has_prefix(d, "http://"@) || has_prefix(d, "https://"@)) {
        Some("Domain should not include protocol (http:// or https://)"@)
    } else if allow_insecure_scheme && has_prefix(d, "https://"@) {
        Some("Domain should not include protocol (https://)"@)
    } else if ends_with_char(d, '/') {
        Some("Domain should not end with a trailing slash"@)
    } else if !allow_insecure_scheme && !has_char(d, '.') {
        Some("Domain must be a valid Auth0 domain (e.g., tenant.auth0.com)"@)
    } else {
        None
    }
}

/// The absolute URL of `path` at the origin `d`.
pub open spec fn url_of(d: Seq<char>, path: Seq<char>) -> Seq<char> {
    if has_prefix(d, "http://"@) {
        d + path
    } else {
        "https://"@ + d + path
    }
}

impl View for Domain {
    type V = Seq<char>;

    closed spec fn view(&self) -> Seq<char> {
        self.inner@
    }
}

impl<'a> TryFrom<&'a str> for Domain {
    type Error = Auth0Error;

    /// Validates the text, as [`Domain::new`] does.
    fn try_from(value: &'a str) -> (r: Result<Domain>)
        ensures
            match domain_rejection(value@, false) {
                Some(msg) => is_invalid_request(r, msg),
                None => r matches Ok(d) && d@ == value@ && d.wf(),
            },
    {
        Domain::new(value)
    }
}

/// The exact result is stated on `try_from` itself: its error message is a
/// `String`, which no spec function can build.
impl<'a> vstd::std_specs::convert::TryFromSpecImpl<&'a str> for Domain {
    open spec fn obeys_try_from_spec() -> bool {
        false
    }

    open spec fn try_from_spec(value: &'a str) -> Result<Domain> {
        arbitrary()
    }
}

impl TryFrom<String> for Domain {
    type Error = Auth0Error;

    /// Validates the text, as [`Domain::new`] does.
    fn try_from(value: String) -> (r: Result<Domain>)
        ensures
            match domain_rejection(value@, false) {
                Some(msg) => is_invalid_request(r, msg),
                None => r matches Ok(d) && d@ == value@ && d.wf(),
            },
    {
        Domain::new(value.as_str())
    }
}

/// The exact result is stated on `try_from` itself: its error message is a
/// `String`, which no spec function can build.
impl vstd::std_specs::convert::TryFromSpecImpl<String> for Domain {
    open spec fn obeys_try_from_spec() -> bool {
        false
    }

    open spec fn try_from_spec(value: String) -> Result<Domain> {
        arbitrary()
    }
}

impl Domain {
    /// What every constructed address satisfies.
    pub closed spec fn wf(&self) -> bool {
        domain_rejection(self.inner@, true) is None
    }

    /// Validates a production address: no scheme, no trailing slash, and
    /// at least one dot.
    pub fn new(domain: &str) -> (r: Result<Domain>)
        ensures
            match domain_rejection(domain@, false) {
                Some(msg) => is_invalid_request(r, msg),
                None => r matches Ok(d) && d@ == domain@ && d.wf(),
            },
    {
        Self::with_options(domain, false)
    }

    /// Validates an address; `allow_insecure_scheme` admits an `http://`
    /// origin and a bare host such as `localhost:1234`.
    pub fn with_options(domain: &str, allow_insecure_scheme: bool) -> (r: Result<Domain>)
        ensures
            match domain_rejection(domain@, allow_insecure_scheme) {
                Some(msg) => is_invalid_request(r, msg),
                None => r matches Ok(d) && d@ == domain@ && d.wf(),
            },
    {
        if domain.unicode_len() == 0 {
            return Err(Auth0Error::InvalidRequest(String::from_str("Domain cannot be empty")));
        }
        let http = starts_with(domain, "http://");
        let https = starts_with(domain, "https://");
        if !allow_insecure_scheme && (http || https) {
            return Err(Auth0Error::InvalidRequest(
                String::from_str("Domain should not include protocol (http:// or https://)"),
            ));
        }
        if allow_insecure_scheme && https {
            return Err(Auth0Error::InvalidRequest(
                String::from_str("Domain should not include protocol (https://)"),
            ));
        }
        if last_char_is(domain, '/') {
            return Err(Auth0Error::InvalidRequest(
                String::from_str("Domain should not end with a trailing slash"),
            ));
        }
        if !allow_insecure_scheme && !contains_char(domain, '.') {
            return Err(Auth0Error::InvalidRequest(
                String::from_str("Domain must be a valid Auth0 domain (e.g., tenant.auth0.com)"),
            ));
        }
        let d = Domain { inner: String::from_str(domain) };
        proof {
            assert(domain_rejection(domain@, true) is None);
        }
        Ok(d)
    }

    pub fn as_str(&self) -> (r: &str)
        ensures
            r@ == self@,
    {
        self.inner.as_str()
    }

    /// The absolute request URL of `path`: an `http://` origin is used as
    /// it stands, any other gets `https://` in front.
    pub fn to_url(&self, path: &str) -> (r: String)
        ensures
            r@ == url_of(self@, path@),
    {
        if starts_with(self.inner.as_str(), "http://") {
            concat(self.inner.as_str(), path)
        } else {
            let origin = concat("https://", self.inner.as_str());
            let r = concat(origin.as_str(), path);
            r
        }
    }
}

} // verus!
