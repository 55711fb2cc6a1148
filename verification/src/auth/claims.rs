//! What a token states: who it was issued to and until when it holds.

use vstd::prelude::*;
use crate::auth::token::{decode_claims, encode_claims, signed_token, token_claims};
use crate::clock::unix_seconds;

verus! {

/// Seconds that a token holds from the moment it is issued: 24 hours.
pub const TOKEN_LIFETIME_SECS: u64 = 86_400;

/// Seconds by which a token may be past its expiry and still be taken.
pub const EXPIRY_LEEWAY_SECS: u64 = 60;

/// The claims of a token: the email it was issued to, and the second
/// since the Unix epoch at which it expires.
#[derive(Clone, Debug, PartialEq, Eq)]
pub struct Claims {
    sub: String,
    exp: u64,
}

/// The expiry of a token issued at `issued_at`: a lifetime later, or the
/// last second that 64 bits can name.
pub open spec fn expiry_of(issued_at: u64) -> u64 {
    if issued_at + TOKEN_LIFETIME_SECS <= u64::MAX {
        (issued_at + TOKEN_LIFETIME_SECS) as u64
    } else {
        u64::MAX
    }
}

/// Whether a token that expires at `exp` is past taking at `now`: the
/// expiry lies more than the leeway behind.
pub open spec fn expired_at(exp: u64, now: u64) -> bool {
    exp + EXPIRY_LEEWAY_SECS < now
}

/// Whether `token` is taken at `now` under `secret`: it is well formed and
/// signed under `secret`, carries both claims, and has not expired.
pub open spec fn accepted_at(token: Seq<char>, secret: Seq<u8>, now: u64) -> bool {
    token_claims(token, secret) matches Some(claims) && !expired_at(claims.1, now)
}

/// What issuing a token to `email` as of `now` under `secret` hands out:
/// always a token, namely the signed token that carries the email and the
/// expiry of that moment, which is not empty and reads back to those two
/// claims.
pub open spec fn issued_token(
    email: Seq<char>,
    now: u64,
    secret: Seq<u8>,
    token: Option<String>,
) -> bool {
    &&& token matches Some(text)
    &&& signed_token(email, expiry_of(now), secret) == Some(text@)
    &&& text@.len() > 0
    &&& token_claims(text@, secret) == Some((email, expiry_of(now)))
}

/// The latest second that the clock can read.
pub open spec fn latest_reading() -> u64 {
    i64::MAX as u64
}

impl Claims {
    /// The email that the token was issued to.
    pub closed spec fn subject(&self) -> Seq<char> {
        self.sub@
    }

    /// The second at which the token expires.
    pub closed spec fn expires_at(&self) -> u64 {
        self.exp
    }

    /// The claims of a token issued to `email` at `now`.
    pub fn issued_at(email: &str, now: u64) -> (claims: Self)
        ensures
            claims.subject() == email@,
            claims.expires_at() == expiry_of(now),
    {
        Self { sub: email.to_owned(), exp: now.saturating_add(TOKEN_LIFETIME_SECS) }
    }

    /// The claims of a token issued to `email` at this moment: they expire
    /// one lifetime after the second that the clock gave.
    pub fn with_email(email: &str) -> (claims: Self)
        ensures
            claims.subject() == email@,
            exists|now: u64|
                now <= latest_reading() && claims.expires_at() == #[trigger] expiry_of(now)
                    && claims.expires_at() == now + TOKEN_LIFETIME_SECS,
    {
        let now = current_time();
        let claims = Self::issued_at(email, now);
        proof {
            assert(claims.expires_at() == expiry_of(now));
        }
        claims
    }

    /// The email that the token was issued to.
    pub fn sub(&self) -> (email: &str)
        ensures
            email@ == self.subject(),
    {
        self.sub.as_str()
    }

    /// The second at which the token expires.
    pub fn exp(&self) -> (second: u64)
        ensures
            second == self.expires_at(),
    {
        self.exp
    }

    /// Tells whether the claims are past taking at `now`.
    pub fn is_expired_at(&self, now: u64) -> (expired: bool)
        ensures
            expired == expired_at(self.expires_at(), now),
    {
        now > EXPIRY_LEEWAY_SECS && self.exp < now - EXPIRY_LEEWAY_SECS
    }

    /// Signs the claims under `secret`. There is always a token: it is not
    /// empty and carries exactly these claims.
    pub fn sign(&self, secret: &[u8]) -> (token: Option<String>)
        ensures
            token matches Some(text) && signed_token(self.subject(), self.expires_at(), secret@)
                == Some(text@) && text@.len() > 0 && token_claims(text@, secret@) == Some(
                (self.subject(), self.expires_at()),
            ),
    {
        encode_claims(self.sub.as_str(), self.exp, secret)
    }

    /// Reads the claims of `token` under `secret`, whatever its expiry.
    /// `None` where the token is malformed, signed otherwise, or lacks a
    /// claim.
    pub fn read(token: &str, secret: &[u8]) -> (claims: Option<Self>)
        ensures
            match claims {
                Some(found) => token_claims(token@, secret@) == Some(
                    (found.subject(), found.expires_at()),
                ),
                None => token_claims(token@, secret@).is_none(),
            },
    {
        match decode_claims(token, secret) {
            Some(pair) => Some(Self { sub: pair.0, exp: pair.1 }),
            None => None,
        }
    }
}

/// The current time in seconds since the Unix epoch: what the clock reads,
/// which is never a moment before the epoch.
pub fn current_time() -> (now: u64)
    ensures
        now <= latest_reading(),
{
    unix_seconds() as u64
}

/// Issues a token to `email` as of `now`. There is always a token. It is
/// taken until its lifetime and the leeway have passed, and not after: it
/// is taken 23 hours after `now` and refused 25 hours after.
pub fn issue_token_at(email: &str, now: u64, secret: &[u8]) -> (token: Option<String>)
    ensures
        issued_token(email@, now, secret@, token),
        token matches Some(text) ==> {
            &&& forall|later: u64|
                accepted_at(text@, secret@, later) <==> later <= expiry_of(now)
                    + EXPIRY_LEEWAY_SECS
            &&& now + 25 * 3600 <= u64::MAX ==> accepted_at(
                text@,
                secret@,
                (now + 23 * 3600) as u64,
            ) && !accepted_at(text@, secret@, (now + 25 * 3600) as u64)
        },
{
    Claims::issued_at(email, now).sign(secret)
}

/// Issues a token to `email` as of this moment: always a token, the one
/// that carries the email and the expiry of the second that the clock gave.
pub fn issue_token(email: &str, secret: &[u8]) -> (token: Option<String>)
    ensures
        exists|now: u64|
            now <= latest_reading() && #[trigger] issued_token(email@, now, secret@, token),
{
    let now = current_time();
    let token = issue_token_at(email, now, secret);
    proof {
        assert(issued_token(email@, now, secret@, token));
    }
    token
}

/// Tells whether `token` is taken at `now` under `secret`.
pub fn validate_token_at(token: &str, secret: &[u8], now: u64) -> (valid: bool)
    ensures
        valid == accepted_at(token@, secret@, now),
{
    match Claims::read(token, secret) {
        Some(claims) => !claims.is_expired_at(now),
        None => false,
    }
}

/// Tells whether `token` is taken at this moment under `secret`.
pub fn validate_token(token: &str, secret: &[u8]) -> (valid: bool)
    ensures
        exists|now: u64| valid == #[trigger] accepted_at(token@, secret@, now),
{
    validate_token_at(token, secret, current_time())
}

/// A token issued at `issued` is taken 23 hours later and refused 25 hours
/// later, whoever it was issued to and whatever the secret, as long as
/// those moments can be named: every token that carries the expiry of that
/// moment of issue is.
pub proof fn law_token_window(issued: u64)
    requires
        issued + 25 * 3600 <= u64::MAX,
    ensures
        !expired_at(expiry_of(issued), (issued + 23 * 3600) as u64),
        expired_at(expiry_of(issued), (issued + 25 * 3600) as u64),
        forall|token: Seq<char>, secret: Seq<u8>|
            (#[trigger] token_claims(token, secret) matches Some(claims) && claims.1 == expiry_of(
                issued,
            )) ==> accepted_at(token, secret, (issued + 23 * 3600) as u64) && !accepted_at(
                token,
                secret,
                (issued + 25 * 3600) as u64,
            ),
{
}

} // verus!
