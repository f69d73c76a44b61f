//! Credential hashing and verification.
//!
//! Passwords are hashed with Argon2id (64 MiB memory, 3 iterations,
//! 1 lane, 32-byte digest, a fresh random salt per call). The hash string
//! is self-describing: verification re-derives with the parameters and
//! salt embedded in it. A decoy hash, computed once for the empty
//! password, lets callers spend the same verification effort when no
//! account exists, so that "unknown user" and "wrong password" are
//! indistinguishable in timing.

use vstd::prelude::*;

verus! {

/// Whether re-deriving the digest from `password` with the parameters and
/// salt embedded in `hash` reproduces the digest embedded in `hash`; a
/// function of the two arguments alone. False for a malformed hash string.
pub uninterp spec fn argon2_verifies(password: Seq<char>, hash: Seq<char>) -> bool;

/// An error from deriving a password hash: an allocation or parameter
/// failure inside the hashing backend, fatal for the caller.
#[derive(Debug, Clone, PartialEq, Eq)]
pub enum HashError {
    DerivationFailed,
}

/// Relies on argon2::Argon2::hash_password (Argon2id v19, 64 MiB, 3
/// iterations, 1 lane, 32-byte digest, salt drawn fresh from the OS
/// generator): the returned hash string embeds the parameters, the salt
/// and the digest of this very password, so re-deriving from the same
/// password reproduces the digest.
#[verifier::external_body]
pub fn hash_password(password: &str) -> (r: Result<String, HashError>)
    ensures
        r matches Ok(h) ==> argon2_verifies(password@, h@) && h@.len() > 0,
{
    let salt = argon2::password_hash::SaltString::generate(&mut argon2::password_hash::rand_core::OsRng);
    let params = match argon2::Params::new(65536, 3, 1, Some(32)) {
        Ok(p) => p,
        Err(_) => return Err(HashError::DerivationFailed),
    };
    let argon2 = argon2::Argon2::new(argon2::Algorithm::Argon2id, argon2::Version::V0x13, params);
    match argon2::password_hash::PasswordHasher::hash_password(&argon2, password.as_bytes(), &salt) {
        Ok(hash) => Ok(hash.to_string()),
        Err(_) => Err(HashError::DerivationFailed),
    }
}

/// Relies on argon2::Argon2::verify_password and
/// argon2::PasswordHash::new: parsing the self-describing hash string and
/// re-deriving the digest from `password` is a function of the two
/// arguments alone; a malformed hash string verifies as false rather than
/// failing.
#[verifier::external_body]
pub fn verify_password(password: &str, hash: &str) -> (r: bool)
    ensures
        r == argon2_verifies(password@, hash@),
{
    let parsed = match argon2::password_hash::PasswordHash::new(hash) {
        Ok(h) => h,
        Err(_) => return false,
    };
    argon2::password_hash::PasswordVerifier::verify_password(
        &argon2::Argon2::default(),
        password.as_bytes(),
        &parsed,
    ).is_ok()
}

/// The credential hasher, carrying the decoy hash that is computed once
/// at setup and never recomputed or mutated afterwards.
pub struct CredentialHasher {
    decoy: String,
}

impl CredentialHasher {
    /// The decoy hash held by this hasher: a real hash of the empty
    /// password.
    pub closed spec fn decoy_model(&self) -> Seq<char> {
        self.decoy@
    }

    /// A hasher is well-formed when its decoy verifies the empty password,
    /// so a decoy verification costs the same as a real one.
    pub open spec fn wf(&self) -> bool {
        argon2_verifies(Seq::empty(), self.decoy_model())
    }

    /// Sets up the hasher by deriving the decoy hash once. Fails only if
    /// hash derivation itself fails, a fatal configuration error.
    pub fn setup() -> (r: Result<CredentialHasher, HashError>)
        ensures
            r matches Ok(h) ==> h.wf(),
    {
        let empty = String::new();
        match hash_password(empty.as_str()) {
            Ok(decoy) => Ok(CredentialHasher { decoy }),
            Err(e) => Err(e),
        }
    }

    /// The decoy hash, for running a full-cost verification when no
    /// matching account exists.
    pub fn default_hash(&self) -> (r: &String)
        ensures
            r@ == self.decoy_model(),
    {
        &self.decoy
    }
}

} // verus!
