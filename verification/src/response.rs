//! What the service answers, as a status code and a body.

use vstd::prelude::*;

verus! {

/// The request was served.
pub const STATUS_OK: u16 = 200;

/// Created.
pub const STATUS_CREATED: u16 = 201;

/// The request was malformed.
pub const STATUS_BAD_REQUEST: u16 = 400;

/// The request came without credentials that hold.
pub const STATUS_UNAUTHORIZED: u16 = 401;

/// Something failed behind the request.
pub const STATUS_INTERNAL_SERVER_ERROR: u16 = 500;

/// An answer to a request.
#[derive(Clone, Debug, PartialEq, Eq)]
pub struct Reply {
    pub status: u16,
    pub body: String,
}

impl Reply {
    /// An answer with the given status and body.
    pub fn new(status: u16, body: &str) -> (reply: Reply)
        ensures
            reply.status == status,
            reply.body@ == body@,
    {
        Reply { status, body: body.to_owned() }
    }
}

} // verus!
