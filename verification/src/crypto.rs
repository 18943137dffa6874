//! The trusted boundary to the cryptographic capabilities: password
//! hashing and verification, TOTP token checks and base32 decoding.
//!
//! Each wrapper names the outside function it relies on. Results that
//! are functions of the arguments alone but have no short statement —
//! whether a password matches a hash, whether a token is accepted for a
//! secret at a time — are given uninterpreted names which the verified
//! contracts speak of exactly.

use vstd::prelude::*;

use argon2::PasswordHasher;
use argon2::PasswordVerifier;

verus! {

use crate::common::ApiError;

/// Whether the password matches the (well-formed) hash string.
///
/// Names the verdict of argon2's password verification, a function of
/// the password and the hash alone.
pub uninterp spec fn pw_matches(pw: Seq<char>, hash: Seq<char>) -> bool;

/// Whether the hash string parses as a usable password hash.
///
/// Names the precondition of argon2's password verification: a function
/// of the hash string alone.
pub uninterp spec fn hash_usable(hash: Seq<char>) -> bool;

/// Whether the TOTP token is accepted for the secret at the given time.
///
/// Names the verdict of the TOTP check — six digits, SHA-1, a step of
/// 30 seconds and a skew of one step either way — a function of secret,
/// token and time alone.
pub uninterp spec fn totp_accepts(secret: Seq<u8>, token: Seq<char>, time: u64) -> bool;

/// The bytes encoded by the string under the unpadded RFC 4648 base32
/// alphabet, if the string is valid base32.
pub uninterp spec fn rfc4648_decode(s: Seq<char>) -> Option<Seq<u8>>;

/// The possible failures of a password verification.
#[derive(Debug, Clone, Copy, PartialEq, Eq, Structural)]
pub enum VerifyPwError {
    /// The stored hash could not be used; a system malfunction, never
    /// shown to the client as a field error.
    Hash,
    /// The password did not match; a security-relevant rejection.
    Mismatch,
}

/// Verify a password against a stored hash.
///
/// Relies on argon2's `PasswordHash::new` and `verify_password`: both
/// verdicts are functions of the password and the hash alone. A
/// constant-time comparison inside the backend keeps the timing of a
/// mismatch independent of how close the password was.
#[verifier::external_body]
pub fn verify_pw(pw: &str, hash: &str) -> (r: Result<(), VerifyPwError>)
    ensures
        r matches Ok(_) <==> (hash_usable(hash@) && pw_matches(pw@, hash@)),
        r matches Err(VerifyPwError::Mismatch) <==> (hash_usable(hash@) && !pw_matches(
            pw@,
            hash@,
        )),
        r matches Err(VerifyPwError::Hash) <==> !hash_usable(hash@),
{
    let parsed = match argon2::PasswordHash::new(hash) {
        Ok(parsed) => parsed,
        Err(_) => return Err(VerifyPwError::Hash),
    };
    match argon2::Argon2::default().verify_password(pw.as_bytes(), &parsed) {
        Ok(()) => Ok(()),
        Err(argon2::password_hash::Error::Password) => Err(VerifyPwError::Mismatch),
        Err(_) => Err(VerifyPwError::Hash),
    }
}

/// Hash a password under a fresh random salt.
///
/// Relies on argon2's `hash_password`: whatever salt is drawn, the
/// produced hash string is usable and verifies against the hashed
/// password.
#[verifier::external_body]
pub fn hash_pw(pw: &str) -> (r: Result<String, ApiError>)
    ensures
        r matches Ok(hash) ==> hash_usable(hash@) && pw_matches(pw@, hash@),
        r matches Err(e) ==> e == ApiError::InternalServerError,
{
    let salt = argon2::password_hash::SaltString::generate(&mut rand::thread_rng());
    match argon2::Argon2::default().hash_password(pw.as_bytes(), &salt) {
        Ok(hash) => Ok(hash.to_string()),
        Err(_) => Err(ApiError::InternalServerError),
    }
}

/// Check a TOTP token against a secret at the given time.
///
/// Relies on totp-rs: `Rfc6238::with_defaults` accepts exactly the
/// secrets of at least 16 bytes, and `TOTP::check` is a function of
/// secret, token and time alone; a shorter secret accepts nothing.
/// The backend's step arithmetic over- or underflows for a time within
/// one 30-second step of either end of the 64-bit range, so such times
/// are kept out.
#[verifier::external_body]
pub(crate) fn totp_check(secret: &Vec<u8>, token: &str, now: u64) -> (r: bool)
    requires
        30 <= now <= u64::MAX - 30,
    ensures
        r == totp_accepts(secret@, token@, now),
{
    match totp_rs::Rfc6238::with_defaults(secret.clone()) {
        Ok(rfc) => match totp_rs::TOTP::from_rfc6238(rfc) {
            Ok(totp) => totp.check(token, now),
            Err(_) => false,
        },
        Err(_) => false,
    }
}

/// Decode an unpadded RFC 4648 base32 string.
///
/// Relies on `base32::decode`, a function of the string alone.
#[verifier::external_body]
pub(crate) fn base32_decode(s: &str) -> (r: Option<Vec<u8>>)
    ensures
        match r {
            Some(bytes) => rfc4648_decode(s@) == Some(bytes@),
            None => rfc4648_decode(s@) is None,
        },
{
    base32::decode(base32::Alphabet::Rfc4648 { padding: false }, s)
}

/// Error returned by [`totp_from_binary`] and [`totp_from_base32`].
#[derive(Debug, Clone, Copy, PartialEq, Eq, Structural)]
pub enum TotpFromError {
    /// The secret is shorter than the 128 bits RFC 6238 requires.
    InvalidSecret,
    /// The string was not valid unpadded base32.
    InvalidBase32,
}

/// Validate an unencoded TOTP secret: RFC 6238 requires at least 128
/// bits of secret.
pub fn totp_from_binary(secret: Vec<u8>) -> (r: Result<Vec<u8>, TotpFromError>)
    ensures
        match r {
            Ok(bytes) => bytes@ == secret@ && secret@.len() >= 16,
            Err(e) => secret@.len() < 16 && e == TotpFromError::InvalidSecret,
        },
{
    if secret.len() < 16 {
        return Err(TotpFromError::InvalidSecret);
    }
    Ok(secret)
}

/// Decode and validate a base32-encoded TOTP secret.
pub fn totp_from_base32(secret: &str) -> (r: Result<Vec<u8>, TotpFromError>)
    ensures
        match r {
            Ok(bytes) => rfc4648_decode(secret@) == Some(bytes@) && bytes@.len() >= 16,
            Err(TotpFromError::InvalidBase32) => rfc4648_decode(secret@) is None,
            Err(TotpFromError::InvalidSecret) => match rfc4648_decode(secret@) {
                Some(bytes) => bytes.len() < 16,
                None => false,
            },
        },
{
    let Some(bytes) = base32_decode(secret) else {
        return Err(TotpFromError::InvalidBase32);
    };
    totp_from_binary(bytes)
}

} // verus!
