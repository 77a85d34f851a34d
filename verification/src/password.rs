//! Password hashing with Argon2 (PHC strings).

use vstd::prelude::*;
use vstd::utf8::encode_utf8;
use argon2::Argon2;
use argon2::password_hash::rand_core::OsRng;
use argon2::password_hash::{PasswordHash, PasswordHasher, PasswordVerifier, SaltString};

verus! {

/// The longest password, in bytes, that Argon2 hashes (`argon2::MAX_PWD_LEN`).
pub const MAX_PASSWORD_BYTES: usize = 0xFFFF_FFFF;

/// A password short enough for Argon2: at most `MAX_PASSWORD_BYTES` bytes of UTF-8.
pub open spec fn hashable(password: Seq<char>) -> bool {
    encode_utf8(password).len() <= MAX_PASSWORD_BYTES
}

/// `hash` begins like an Argon2id (version 19) PHC string: `$argon2id$v=19$`.
pub open spec fn is_argon2id_phc(hash: Seq<char>) -> bool {
    hash.len() >= 15 && hash.take(15) == "$argon2id$v=19$"@
}

/// Whether `argon2::password_hash::PasswordHash::new` parses `hash` as a PHC string.
pub uninterp spec fn phc_parses(hash: Seq<char>) -> bool;

/// Whether `Argon2::default().verify_password` accepts `password` against the
/// PHC string `hash` (with the parameters that `hash` names).
pub uninterp spec fn argon2_accepts(password: Seq<char>, hash: Seq<char>) -> bool;

/// `hash` is a PHC string against which `password` verifies.
pub open spec fn password_matches(password: Seq<char>, hash: Seq<char>) -> bool {
    phc_parses(hash) && argon2_accepts(password, hash)
}

/// Calls `PasswordHash::new(hash)` and tells whether it parsed.
#[verifier::external_body]
fn phc_hash_parses(hash: &str) -> (r: bool)
    ensures
        r == phc_parses(hash@),
{
    PasswordHash::new(hash).is_ok()
}

/// Calls `Argon2::default().verify_password` on `password` and the parsed `hash`.
/// Trusted: the result depends on the two texts alone (the hash carries its
/// salt and parameters).
#[verifier::external_body]
fn argon2_verify(password: &str, hash: &str) -> (r: bool)
    requires
        phc_parses(hash@),
    ensures
        r == argon2_accepts(password@, hash@),
{
    match PasswordHash::new(hash) {
        Ok(parsed) => Argon2::default().verify_password(password.as_bytes(), &parsed).is_ok(),
        Err(_) => false,
    }
}

/// Calls `Argon2::default().hash_password` with a fresh salt from
/// `SaltString::generate(&mut OsRng)` and renders the PHC string.
/// Trusted, as argon2's documentation shows it: the result is a PHC string of
/// the form `$argon2id$v=19$...` that parses and against which the same
/// password verifies. The salt is random, so nothing more is said of the result.
/// Hashing fails only for a password longer than `MAX_PASSWORD_BYTES`.
#[verifier::external_body]
fn argon2_hash(password: &str) -> (r: String)
    requires
        hashable(password@),
    ensures
        password_matches(password@, r@),
        is_argon2id_phc(r@),
{
    let salt = SaltString::generate(&mut OsRng);
    match Argon2::default().hash_password(password.as_bytes(), &salt) {
        Ok(hash) => hash.to_string(),
        Err(_) => String::new(),
    }
}

/// Hashes a password to a PHC string (`$argon2id$v=19$...`) with a fresh
/// random salt. The password verifies against the result.
pub fn get_phc_string(password: &str) -> (r: String)
    requires
        hashable(password@),
    ensures
        password_matches(password@, r@),
        is_argon2id_phc(r@),
{
    argon2_hash(password)
}

/// Whether `password` verifies against the PHC string `password_hash`.
pub fn verify_password(password: &str, password_hash: &str) -> (r: bool)
    requires
        phc_parses(password_hash@),
    ensures
        r == argon2_accepts(password@, password_hash@),
        r == password_matches(password@, password_hash@),
{
    argon2_verify(password, password_hash)
}

/// Like `verify_password`, but answers `None` where `password_hash` is not a
/// PHC string.
pub fn check_password(password: &str, password_hash: &str) -> (r: Option<bool>)
    ensures
        r == (if phc_parses(password_hash@) {
            Some(argon2_accepts(password@, password_hash@))
        } else {
            None::<bool>
        }),
{
    if phc_hash_parses(password_hash) {
        Some(verify_password(password, password_hash))
    } else {
        None
    }
}

} // verus!
