//! Signed tokens, made and read by `jsonwebtoken`.
//!
//! A token carries two claims, `sub` and `exp`, and is signed with HMAC
//! SHA-256 under a secret. Verus does not look into the crate: what is said
//! of it here is taken on trust.

use vstd::prelude::*;
use jsonwebtoken::{decode, encode, DecodingKey, EncodingKey, Header, Validation};
use serde_json::Value;

verus! {

/// The compact token that carries the claims `sub` and `exp`, signed under
/// `secret` with the default header; `None` where encoding fails, which it
/// does for no claims of this kind.
pub uninterp spec fn signed_token(sub: Seq<char>, exp: u64, secret: Seq<u8>) -> Option<Seq<char>>;

/// The claims `sub` and `exp` of `token`, where the token is well formed,
/// names the default algorithm, is signed under `secret`, and holds a text
/// `sub` and a whole-number `exp`; `None` otherwise. The expiry time plays no
/// part.
pub uninterp spec fn token_claims(token: Seq<char>, secret: Seq<u8>) -> Option<(Seq<char>, u64)>;

/// `jsonwebtoken::encode` with `Header::default()`, the two claims as a
/// JSON object, and `EncodingKey::from_secret(secret)`. The result depends
/// on the arguments alone. Encoding always succeeds: the key is of the
/// header's family, a text and a number always serialise, and signing with
/// HMAC cannot fail. The token is not empty, and read back under the same
/// secret it yields the same two claims.
#[verifier::external_body]
pub(crate) fn encode_claims(sub: &str, exp: u64, secret: &[u8]) -> (token: Option<String>)
    ensures
        token is Some,
        match token {
            Some(text) => signed_token(sub@, exp, secret@) == Some(text@) && text@.len() > 0
                && token_claims(text@, secret@) == Some((sub@, exp)),
            None => signed_token(sub@, exp, secret@).is_none(),
        },
{
    let mut claims = serde_json::Map::new();
    claims.insert("sub".to_owned(), Value::from(sub));
    claims.insert("exp".to_owned(), Value::from(exp));
    encode(&Header::default(), &claims, &EncodingKey::from_secret(secret)).ok()
}

/// `jsonwebtoken::decode` with `DecodingKey::from_secret(secret)` and
/// `Validation::default()` in which the check of the expiry time is
/// switched off, then the claims `sub` and `exp` picked from the payload.
/// The result depends on the arguments alone.
#[verifier::external_body]
pub(crate) fn decode_claims(token: &str, secret: &[u8]) -> (claims: Option<(String, u64)>)
    ensures
        match claims {
            Some(pair) => token_claims(token@, secret@) == Some((pair.0@, pair.1)),
            None => token_claims(token@, secret@).is_none(),
        },
{
    let mut validation = Validation::default();
    validation.validate_exp = false;
    let key = DecodingKey::from_secret(secret);
    let data = decode::<serde_json::Map<String, Value>>(token, &key, &validation).ok()?;
    let sub = data.claims.get("sub")?.as_str()?.to_owned();
    let exp = data.claims.get("exp")?.as_u64()?;
    Some((sub, exp))
}

} // verus!
