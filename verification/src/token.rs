use vstd::prelude::*;
use crate::TOKEN_LIFETIME_SECS;

verus! {

/// The encoding or signing step failed, so no token was produced.
#[derive(Clone, Copy, PartialEq, Eq, Debug)]
pub struct SigningError;

/// The claims carried by a token: the subject it is bound to, the second it
/// was issued at and the second it expires at.
pub struct Claims {
    pub sub: String,
    pub iat: u64,
    pub exp: u64,
}

/// The signed, encoded token that binds these claims under this secret. The
/// result stands for whatever `jsonwebtoken::encode` with HS256 returns; it
/// is a pure function of its arguments.
pub uninterp spec fn jwt_of(sub: Seq<char>, iat: int, exp: int, secret: Seq<char>) -> Seq<char>;

/// `jsonwebtoken`'s error type, opaque here; the wrapper below returns it and
/// the caller maps it to `SigningError`.
#[verifier::external_type_specification]
#[verifier::external_body]
pub struct ExJwtError(jsonwebtoken::errors::Error);

/// Relies on `jsonwebtoken::encode` with `Algorithm::HS256` and a symmetric
/// secret: deterministic in the claims and the secret, and the result is a
/// non-empty dot-separated string. This call cannot fail: the key is built
/// with the HMAC family the header's algorithm asks for, HMAC-SHA256 accepts
/// a key of any length and signs infallibly, and serializing the fixed
/// header and the string-keyed claim object cannot fail.
#[verifier::external_body]
fn jwt_encode(sub: &String, iat: u64, exp: u64, secret: &String) -> (r: Result<
    String,
    jsonwebtoken::errors::Error,
>)
    ensures
        r is Ok,
        r matches Ok(t) ==> t@ == jwt_of(sub@, iat as int, exp as int, secret@) && t@.len() > 0,
{
    let mut claims = serde_json::Map::new();
    claims.insert("sub".to_string(), serde_json::Value::from(sub.as_str()));
    claims.insert("exp".to_string(), serde_json::Value::from(exp));
    claims.insert("iat".to_string(), serde_json::Value::from(iat));
    let header = jsonwebtoken::Header::new(jsonwebtoken::Algorithm::HS256);
    let key = jsonwebtoken::EncodingKey::from_secret(secret.as_bytes());
    jsonwebtoken::encode(&header, &serde_json::Value::Object(claims), &key)
}

/// Builds the claims for a token issued to `sub` at second `now`: issued-at
/// is `now` and expiry is exactly one token lifetime later.
pub fn make_claims(sub: &String, now: u64) -> (c: Claims)
    requires
        now + TOKEN_LIFETIME_SECS <= u64::MAX,
    ensures
        c.sub@ == sub@,
        c.iat == now,
        c.exp == now + TOKEN_LIFETIME_SECS,
{
    Claims { sub: sub.clone(), iat: now, exp: now + TOKEN_LIFETIME_SECS }
}

/// Whether the issuer itself would still accept these claims at second `t`:
/// exactly when `t` lies strictly before the expiry.
pub fn claims_accepted_at(c: &Claims, t: u64) -> (b: bool)
    ensures
        b == (t < c.exp),
{
    t < c.exp
}

/// Issues a signed token bound to `sub` at second `now`, expiring one token
/// lifetime later, signed with `secret`. With the symmetric HS256 signer the
/// encoding step cannot fail, so issuance always succeeds; the `SigningError`
/// side of the result only keeps the error taxonomy of the design.
pub fn issue_token(sub: &String, now: u64, secret: &String) -> (r: Result<String, SigningError>)
    requires
        now + TOKEN_LIFETIME_SECS <= u64::MAX,
    ensures
        r is Ok,
        r matches Ok(t) ==> t@ == jwt_of(sub@, now as int, now + TOKEN_LIFETIME_SECS, secret@)
            && t@.len() > 0,
{
    let c = make_claims(sub, now);
    match jwt_encode(&c.sub, c.iat, c.exp, secret) {
        Ok(t) => Ok(t),
        Err(_) => Err(SigningError),
    }
}

/// Law: a token issued at second `now` carries an expiry of exactly one
/// token lifetime after `now`, and its issuer accepts its claims at every
/// second strictly before that expiry.
pub proof fn lemma_fresh_claims_accepted(c: Claims, now: u64, t: u64)
    requires
        c.iat == now,
        c.exp == now + TOKEN_LIFETIME_SECS,
        t < now + TOKEN_LIFETIME_SECS,
    ensures
        c.exp == c.iat + TOKEN_LIFETIME_SECS,
        t < c.exp,
{
}

} // verus!
