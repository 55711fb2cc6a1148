//! The two hash functions of the credential chain, and the salt.
//!
//! A password is first digested with SHA-512 (`sha2`), and the digest is then
//! hashed with Argon2 (`argon2`) under a random salt. Verus does not look
//! into either crate: what is said of them here is taken on trust.

use vstd::prelude::*;
use argon2::password_hash::rand_core::OsRng;
use argon2::password_hash::{PasswordHash, PasswordHasher, PasswordVerifier, SaltString};
use argon2::Argon2;
use sha2::{Digest, Sha512};

verus! {

/// The SHA-512 digest of `data`.
pub uninterp spec fn sha512_digest(data: Seq<u8>) -> Seq<u8>;

/// The PHC string that Argon2, with its default parameters, makes of `digest`
/// under the B64 salt `salt`; `None` where it refuses the input.
pub uninterp spec fn argon2_phc(digest: Seq<u8>, salt: Seq<char>) -> Option<Seq<char>>;

/// What parsing `hash` as a PHC string gives: `None` where it does not
/// parse, else the salt field of the string, which may be missing.
pub uninterp spec fn phc_fields(hash: Seq<char>) -> Option<Option<Seq<char>>>;

/// What Argon2 says of `digest` when it is run with the algorithm, the
/// parameters and the salt that the PHC string `hash` records: `Some(true)`
/// where it gives the output that `hash` holds, `Some(false)` where it does
/// not, `None` where `hash` does not parse or cannot be recomputed.
pub uninterp spec fn phc_verdict(hash: Seq<char>, digest: Seq<u8>) -> Option<bool>;

/// Whether `hash` parses as a PHC string.
pub open spec fn phc_parses(hash: Seq<char>) -> bool {
    phc_fields(hash) is Some
}

/// The salt that the PHC string `hash` records, if it parses and has one.
pub open spec fn phc_salt(hash: Seq<char>) -> Option<Seq<char>> {
    match phc_fields(hash) {
        Some(salt) => salt,
        None => None,
    }
}

/// `sha2::Sha512`: `new`, `update` with `data`, `finalize`. The result is the
/// SHA-512 digest of `data`, which is 64 bytes long.
#[verifier::external_body]
pub(crate) fn sha512(data: &[u8]) -> (digest: Vec<u8>)
    ensures
        digest@ == sha512_digest(data@),
        digest@.len() == 64,
{
    let mut hasher = Sha512::new();
    hasher.update(data);
    hasher.finalize().to_vec()
}

/// `SaltString::generate` over the operating system's random source, as
/// text. The salt is random, so it has no name; it is the B64 text of 16
/// bytes, under which Argon2 with its default parameters hashes every
/// digest of 64 bytes. Where the operating system cannot give random bytes,
/// the call panics and no salt comes back.
#[verifier::external_body]
pub(crate) fn fresh_salt() -> (salt: String)
    ensures
        forall|digest: Seq<u8>|
            digest.len() == 64 ==> (#[trigger] argon2_phc(digest, salt@)) is Some,
{
    SaltString::generate(&mut OsRng).as_str().to_owned()
}

/// `Argon2::default().hash_password(digest, salt)`, with the salt parsed by
/// `SaltString::from_b64` and the result written out as a PHC string. The
/// result depends on the two arguments alone. A string that comes out
/// parses, records the salt it was made with, and is accepted by
/// `verify_password` for the same `digest`: verification runs the same
/// function under the parameters and salt that the string records.
#[verifier::external_body]
pub(crate) fn argon2_hash(digest: &[u8], salt: &str) -> (hash: Result<
    String,
    argon2::password_hash::Error,
>)
    ensures
        match hash {
            Ok(phc) => {
                &&& argon2_phc(digest@, salt@) == Some(phc@)
                &&& phc_fields(phc@) == Some(Some(salt@))
                &&& phc_verdict(phc@, digest@) == Some(true)
            },
            Err(_) => argon2_phc(digest@, salt@).is_none(),
        },
{
    let salt = SaltString::from_b64(salt)?;
    let hash = Argon2::default().hash_password(digest, &salt)?;
    Ok(hash.to_string())
}

/// `PasswordHash::new(hash)`, and of what it parsed the salt field as text.
/// The error is the crate's own parse error.
#[verifier::external_body]
pub(crate) fn parse_phc(hash: &str) -> (fields: Result<
    Option<String>,
    argon2::password_hash::Error,
>)
    ensures
        match fields {
            Ok(Some(salt)) => phc_fields(hash@) == Some(Some(salt@)),
            Ok(None) => phc_fields(hash@) == Some(None::<Seq<char>>),
            Err(_) => phc_fields(hash@).is_none(),
        },
{
    let parsed = PasswordHash::new(hash)?;
    Ok(parsed.salt.map(|salt| salt.as_str().to_owned()))
}

/// `PasswordHash::new(hash)`, then `Argon2::default().verify_password(digest,
/// ..)`. `Ok(true)` where the recomputed output equals the stored one,
/// `Ok(false)` where the crate reports a password that does not match, and
/// the crate's error where the string does not parse or cannot be
/// recomputed. A verdict is only given of a string that parses.
#[verifier::external_body]
pub(crate) fn argon2_verify(digest: &[u8], hash: &str) -> (verdict: Result<
    bool,
    argon2::password_hash::Error,
>)
    ensures
        match verdict {
            Ok(accepted) => phc_verdict(hash@, digest@) == Some(accepted) && phc_fields(hash@)
                is Some,
            Err(_) => phc_verdict(hash@, digest@).is_none(),
        },
{
    let parsed = PasswordHash::new(hash)?;
    match Argon2::default().verify_password(digest, &parsed) {
        Ok(()) => Ok(true),
        Err(argon2::password_hash::Error::Password) => Ok(false),
        Err(error) => Err(error),
    }
}

} // verus!
