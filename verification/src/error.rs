//! The error type of the service.

use vstd::prelude::*;
use vstd::std_specs::convert::FromSpecImpl;
use vstd::string::StringExecFns;

verus! {

/// `argon2::password_hash::Error`, the error of the password-hashing
/// crate. It is carried, never looked into.
#[verifier::external_type_specification]
#[verifier::external_body]
pub struct ExPasswordHashError(argon2::password_hash::Error);

/// `sqlx::Error`, the error of the database driver. It is carried, never
/// looked into.
#[verifier::external_type_specification]
#[verifier::external_body]
pub struct ExSqlxError(sqlx::Error);

/// What can go wrong below the HTTP surface.
#[derive(Debug)]
pub enum CustomError {
    /// The credential chain failed, or a password did not match.
    Argon2Error(argon2::password_hash::Error),
    /// The record store failed.
    SqlxError(sqlx::Error),
    /// Anything else, with its message.
    OtherError(String),
}

impl From<argon2::password_hash::Error> for CustomError {
    fn from(err: argon2::password_hash::Error) -> (error: Self) {
        CustomError::Argon2Error(err)
    }
}

impl FromSpecImpl<argon2::password_hash::Error> for CustomError {
    open spec fn obeys_from_spec() -> bool {
        true
    }

    open spec fn from_spec(err: argon2::password_hash::Error) -> Self {
        CustomError::Argon2Error(err)
    }
}

impl From<sqlx::Error> for CustomError {
    fn from(err: sqlx::Error) -> (error: Self) {
        CustomError::SqlxError(err)
    }
}

impl FromSpecImpl<sqlx::Error> for CustomError {
    open spec fn obeys_from_spec() -> bool {
        true
    }

    open spec fn from_spec(err: sqlx::Error) -> Self {
        CustomError::SqlxError(err)
    }
}

/// The text of a password-hashing error, as the `Display` of
/// `argon2::password_hash::Error` writes it. The error is opaque here, so
/// nothing is said of the text.
#[verifier::external_body]
fn hashing_error_text(error: &argon2::password_hash::Error) -> (text: String) {
    format!("{}", error)
}

/// The text of a storage error, as the `Display` of `sqlx::Error` writes it.
/// The error is opaque here, so nothing is said of the text.
#[verifier::external_body]
fn storage_error_text(error: &sqlx::Error) -> (text: String) {
    format!("{}", error)
}

impl CustomError {
    /// What introduces the message of an error of this kind.
    pub open spec fn heading(&self) -> Seq<char> {
        match self {
            CustomError::Argon2Error(_) => "Argon2 error: "@,
            CustomError::SqlxError(_) => "SQLx error: "@,
            CustomError::OtherError(_) => "Other error: "@,
        }
    }

    /// The message of the error: a heading by kind, then the detail. For an
    /// error with a text of its own, the detail is that text.
    pub fn message(&self) -> (text: String)
        ensures
            text@.len() >= self.heading().len(),
            text@.subrange(0, self.heading().len() as int) == self.heading(),
            self matches CustomError::OtherError(detail) ==> text@ == self.heading() + detail@,
    {
        match self {
            CustomError::Argon2Error(error) => {
                let mut text = String::from_str("Argon2 error: ");
                let detail = hashing_error_text(error);
                text.append(detail.as_str());
                proof {
                    assert(text@.subrange(0, self.heading().len() as int) == self.heading());
                }
                text
            },
            CustomError::SqlxError(error) => {
                let mut text = String::from_str("SQLx error: ");
                let detail = storage_error_text(error);
                text.append(detail.as_str());
                proof {
                    assert(text@.subrange(0, self.heading().len() as int) == self.heading());
                }
                text
            },
            CustomError::OtherError(detail) => {
                let mut text = String::from_str("Other error: ");
                text.append(detail.as_str());
                proof {
                    assert(text@.subrange(0, self.heading().len() as int) == self.heading());
                }
                text
            },
        }
    }
}

} // verus!
