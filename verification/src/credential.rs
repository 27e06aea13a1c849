use vstd::prelude::*;

verus! {

/// The underlying hash algorithm rejected the input (or could not obtain a
/// salt), so no hash was produced.
#[derive(Clone, Copy, PartialEq, Eq, Debug)]
pub struct HashingError;

/// The stored hash is malformed, so no comparison against it is possible.
/// Distinct from a password mismatch, which is an ordinary `false`.
#[derive(Clone, Copy, PartialEq, Eq, Debug)]
pub struct VerificationError;

/// What verifying `password` against `hash` yields: `None` when the hash is
/// malformed, otherwise `Some` of whether the password matches. The result
/// stands for whatever `bcrypt::verify` returns for these two strings; it is
/// a pure function of them.
pub uninterp spec fn bcrypt_check(password: Seq<char>, hash: Seq<char>) -> Option<bool>;

/// `bcrypt`'s error type, opaque here; the wrappers below return it and the
/// callers map it to this library's error types.
#[verifier::external_type_specification]
#[verifier::external_body]
pub struct ExBcryptError(bcrypt::BcryptError);

/// Relies on `bcrypt::hash` with `DEFAULT_COST`: on success it returns a
/// 60-character hash string that `bcrypt::verify` accepts as a match for the
/// hashed password. The salt is drawn from the operating system, so only
/// that much holds of every outcome.
#[verifier::external_body]
fn bcrypt_hash(password: &String) -> (r: Result<String, bcrypt::BcryptError>)
    ensures
        r matches Ok(h) ==> bcrypt_check(password@, h@) == Some(true) && h@.len() == 60,
{
    bcrypt::hash(password.as_str(), bcrypt::DEFAULT_COST)
}

/// Relies on `bcrypt::verify`: deterministic in its two arguments, it fails
/// exactly on a malformed hash and otherwise reports whether the password
/// matches.
#[verifier::external_body]
fn bcrypt_verify(password: &String, hash: &String) -> (r: Result<bool, bcrypt::BcryptError>)
    ensures
        match r {
            Ok(b) => bcrypt_check(password@, hash@) == Some(b),
            Err(_) => bcrypt_check(password@, hash@) is None,
        },
{
    bcrypt::verify(password.as_str(), hash.as_str())
}

/// Hashes a plaintext password for storage. On success the returned hash is
/// 60 characters long and verifies against the password.
pub fn hash_password(password: &String) -> (r: Result<String, HashingError>)
    ensures
        r matches Ok(h) ==> bcrypt_check(password@, h@) == Some(true) && h@.len() == 60,
{
    match bcrypt_hash(password) {
        Ok(h) => Ok(h),
        Err(_) => Err(HashingError),
    }
}

/// Verifies a plaintext password against a stored hash: an error exactly when
/// the stored hash is malformed, otherwise whether the password matches.
pub fn verify_password(password: &String, hashed: &String) -> (r: Result<bool, VerificationError>)
    ensures
        match r {
            Ok(b) => bcrypt_check(password@, hashed@) == Some(b),
            Err(_) => bcrypt_check(password@, hashed@) is None,
        },
{
    match bcrypt_verify(password, hashed) {
        Ok(b) => Ok(b),
        Err(_) => Err(VerificationError),
    }
}

/// Law: round trip. Hashing a password and at once verifying the password
/// against the produced hash reports a match whenever hashing succeeded.
pub fn hash_then_verify(password: &String) -> (r: Result<bool, HashingError>)
    ensures
        r matches Ok(b) ==> b,
{
    let h = match hash_password(password) {
        Ok(h) => h,
        Err(e) => {
            return Err(e);
        },
    };
    match verify_password(password, &h) {
        Ok(b) => Ok(b),
        Err(_) => Err(HashingError),
    }
}

} // verus!
