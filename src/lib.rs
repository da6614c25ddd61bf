//! A typed client library for an identity platform's REST API: validated
//! value types, request builders, and the classification of HTTP responses
//! into a closed set of error kinds.

pub mod dbconnections;
pub mod domain;
pub mod endpoints;
pub mod error;
pub mod json;
pub mod oauth;
pub mod organizations;
pub mod text;
pub mod tickets;
pub mod token;
pub mod users;
pub mod wire;

use vstd::prelude::*;
use crate::domain::Domain;
use crate::token::BearerToken;

verus! {

/// Where to reach the API, and with which credential.
pub struct Auth0ClientSettings {
    pub domain: Domain,
    pub token: BearerToken,
}

/// The length of a generated password.
pub const PASSWORD_LEN: usize = 64;

/// An ASCII letter or digit.
pub open spec fn is_ascii_alphanumeric(c: char) -> bool {
    ('a' <= c && c <= 'z') || ('A' <= c && c <= 'Z') || ('0' <= c && c <= '9')
}

/// Relies on rand's `Alphanumeric` distribution, drawn from the thread-local
/// generator: a byte among `A-Z`, `a-z` and `0-9`.
#[verifier::external_body]
fn random_alphanumeric() -> (r: String)
    ensures
        r@.len() == 1,
        is_ascii_alphanumeric(r@[0]),
{
    String::from(rand::Rng::sample(&mut rand::rng(), rand::distr::Alphanumeric) as char)
}

/// A random password of letters and digits, from a cryptographically secure
/// generator.
pub fn random_password() -> (r: String)
    ensures
        r@.len() == PASSWORD_LEN,
        forall|i: int| 0 <= i < r@.len() ==> is_ascii_alphanumeric(#[trigger] r@[i]),
{
    let mut out = String::new();
    let mut n: usize = 0;
    while n < PASSWORD_LEN
        invariant
            n <= PASSWORD_LEN,
            out@.len() == n,
            forall|i: int| 0 <= i < out@.len() ==> is_ascii_alphanumeric(#[trigger] out@[i]),
        decreases PASSWORD_LEN - n,
    {
        let c = random_alphanumeric();
        let ghost before = out@;
        out.append(c.as_str());
        assert(forall|i: int| 0 <= i < before.len() ==> out@[i] == before[i]);
        assert(out@[n as int] == c@[0]);
        n = n + 1;
    }
    out
}

} // verus!
