//! The credential hasher: salted, memory-hard hashes of a PIN, made and
//! checked by Argon2.

use vstd::prelude::*;

verus! {

/// The error of the `password-hash` interface that Argon2 is used through.
#[verifier::external_type_specification]
#[verifier::external_body]
pub struct ExPasswordHashError(argon2::password_hash::Error);

/// Why hashing or checking failed.
#[derive(Debug, Clone, Copy, PartialEq, Eq, Structural)]
pub enum HashError {
    /// Argon2 refused its input, or the hash could not be encoded as a
    /// record. A random source that fails does not show as this error: the
    /// salt draw does not return then.
    Failed,
    /// The hash record is not well formed.
    Malformed,
}

impl HashError {
    /// The text of the error.
    pub open spec fn text(self) -> Seq<char> {
        match self {
            HashError::Failed => "the PIN could not be hashed"@,
            HashError::Malformed => "the hash record cannot be read"@,
        }
    }

    /// The text of the error.
    pub fn message(&self) -> (text: String)
        ensures
            text@ == self.text(),
    {
        match self {
            HashError::Failed => "the PIN could not be hashed".to_owned(),
            HashError::Malformed => "the hash record cannot be read".to_owned(),
        }
    }
}

/// What checking `password` against the hash record `hash` gives: `None`
/// where the record cannot be read as a hash record, else whether the hash
/// computed from `password` with the record's parameters and salt is the
/// one in the record.
pub uninterp spec fn argon2_verdict(hash: Seq<char>, password: Seq<char>) -> Option<bool>;

/// `PasswordHash::new` followed by `Argon2::default().verify_password`: the
/// record is parsed, and the password is hashed with the record's parameters
/// and salt and compared with the record's hash. An error comes only from
/// the parsing; every failure of the check itself counts as `false`.
#[verifier::external_body]
pub(crate) fn argon2_verify(hash: &str, password: &str) -> (r: Result<bool, argon2::password_hash::Error>)
    ensures
        r is Ok <==> argon2_verdict(hash@, password@) is Some,
        r is Ok ==> argon2_verdict(hash@, password@) == Some(r->Ok_0),
{
    let parsed = argon2::PasswordHash::new(hash)?;
    let hasher = argon2::Argon2::default();
    Ok(argon2::PasswordVerifier::verify_password(&hasher, password.as_bytes(), &parsed).is_ok())
}

/// `Argon2::default().hash_password` with a salt from
/// `SaltString::generate`, rendered as a hash record. The salt is random, so
/// nothing is said of the record but that the password it was made from
/// checks against it.
#[verifier::external_body]
pub(crate) fn argon2_hash(password: &str) -> (r: Result<String, argon2::password_hash::Error>)
    ensures
        r is Ok ==> argon2_verdict(r->Ok_0@, password@) == Some(true),
{
    let salt = argon2::password_hash::SaltString::generate(
        &mut argon2::password_hash::rand_core::OsRng,
    );
    let hasher = argon2::Argon2::default();
    let hashed = argon2::PasswordHasher::hash_password(&hasher, password.as_bytes(), &salt)?;
    Ok(hashed.to_string())
}

/// What a check reports for each verdict.
pub open spec fn checked(verdict: Option<bool>) -> Result<bool, HashError> {
    match verdict {
        Some(matches) => Ok(matches),
        None => Err(HashError::Malformed),
    }
}

} // verus!
