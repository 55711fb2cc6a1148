//! The request filter: it looks for a bearer token and lets every request
//! pass, with or without one.

use vstd::prelude::*;
use vstd::string::{StrSliceExecFns, StringExecFns};
use crate::auth::claims::{accepted_at, current_time, validate_token_at};

verus! {

/// What the filter found in the `Authorization` header.
#[derive(Clone, Copy, Debug, PartialEq, Eq, Structural)]
pub enum Credential {
    /// No header, or none that holds a bearer token.
    Absent,
    /// A bearer token that is taken.
    Valid,
    /// A bearer token that is not taken.
    Invalid,
}

/// What the filter does with a request.
#[derive(Clone, Copy, Debug, PartialEq, Eq, Structural)]
pub struct Admission {
    /// What the header held.
    pub credential: Credential,
    /// Whether the request goes on to the service behind the filter.
    pub forward: bool,
}

/// The filter, before it is put in front of a service.
pub struct AuthMiddleware;

/// The filter in front of the service `S`.
pub struct AuthMiddlewareService<S> {
    pub service: S,
}

/// The word that precedes a bearer token in the header.
pub open spec fn bearer_prefix() -> Seq<char> {
    "Bearer "@
}

/// The bearer token in a header value: what follows the prefix.
pub open spec fn bearer_of(header: Seq<char>) -> Option<Seq<char>> {
    if header.len() >= bearer_prefix().len() && header.subrange(0, bearer_prefix().len() as int)
        == bearer_prefix() {
        Some(header.subrange(bearer_prefix().len() as int, header.len() as int))
    } else {
        None
    }
}

/// What a header holds at `now` under `secret`.
pub open spec fn credential_at(
    authorization: Option<Seq<char>>,
    secret: Seq<u8>,
    now: u64,
) -> Credential {
    match authorization {
        Some(header) => match bearer_of(header) {
            Some(token) => if accepted_at(token, secret, now) {
                Credential::Valid
            } else {
                Credential::Invalid
            },
            None => Credential::Absent,
        },
        None => Credential::Absent,
    }
}

/// The header value by its characters, if there is one.
pub open spec fn header_text(authorization: Option<&str>) -> Option<Seq<char>> {
    match authorization {
        Some(header) => Some(header@),
        None => None,
    }
}

/// Takes the bearer token out of a header value: what follows `Bearer `,
/// if the value starts with it.
pub fn bearer_token(header: &str) -> (token: Option<String>)
    ensures
        match token {
            Some(text) => bearer_of(header@) == Some(text@),
            None => bearer_of(header@).is_none(),
        },
{
    proof {
        reveal_strlit("Bearer ");
    }
    let length = header.unicode_len();
    if length < 7 {
        return None;
    }
    let start = String::from_str(header.substring_char(0, 7));
    let prefix = String::from_str("Bearer ");
    if start.eq(&prefix) {
        Some(String::from_str(header.substring_char(7, length)))
    } else {
        None
    }
}

impl AuthMiddleware {
    /// Puts the filter in front of `service`.
    pub fn new_transform<S>(&self, service: S) -> (filter: AuthMiddlewareService<S>)
        ensures
            filter.service == service,
    {
        AuthMiddlewareService { service }
    }
}

impl<S> AuthMiddlewareService<S> {
    /// Looks at the header of a request that arrives at `now`. The request
    /// goes on whatever the header holds.
    pub fn call_at(&self, authorization: Option<&str>, secret: &[u8], now: u64) -> (admission:
        Admission)
        ensures
            admission.forward,
            admission.credential == credential_at(header_text(authorization), secret@, now),
    {
        let credential = match authorization {
            Some(header) => match bearer_token(header) {
                Some(token) => if validate_token_at(token.as_str(), secret, now) {
                    Credential::Valid
                } else {
                    Credential::Invalid
                },
                None => Credential::Absent,
            },
            None => Credential::Absent,
        };
        Admission { credential, forward: true }
    }

    /// Looks at the header of a request that arrives now. The request goes
    /// on whatever the header holds.
    pub fn call(&self, authorization: Option<&str>, secret: &[u8]) -> (admission: Admission)
        ensures
            admission.forward,
            exists|now: u64|
                admission.credential == credential_at(header_text(authorization), secret@, now),
    {
        self.call_at(authorization, secret, current_time())
    }
}

} // verus!
