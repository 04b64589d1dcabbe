//! Password hashing, as far as logging in depends on it.
use argon2::Argon2;
use password_hash::{PasswordHash, PasswordHasher, SaltString};
use vstd::prelude::*;
use vstd::utf8::encode_utf8;

verus! {

/// What a stored hash says of a password attempt.
#[derive(Debug, Clone, Copy, PartialEq, Eq, Structural)]
pub enum PasswordCheck {
    /// The attempt is the password that was hashed.
    Match,
    /// The stored hash is readable, and the attempt does not match it.
    Mismatch,
    /// The stored text is no password hash.
    Unreadable,
}

/// What Argon2 with its default parameters says of `attempt` against the
/// hash that `stored_hash` holds in PHC string format.
pub uninterp spec fn password_check(stored_hash: Seq<char>, attempt: Seq<char>) -> PasswordCheck;

/// Parses `stored_hash` with `PasswordHash::new` and verifies `attempt` with
/// `PasswordHash::verify_password` against `Argon2::default()`. The result is
/// the named check: unreadable where parsing fails, else match or mismatch
/// as the verification says.
#[verifier::external_body]
fn check_password(stored_hash: &str, attempt: &str) -> (r: PasswordCheck)
    ensures
        r == password_check(stored_hash@, attempt@),
{
    match PasswordHash::new(stored_hash) {
        Err(_) => PasswordCheck::Unreadable,
        Ok(parsed) => match parsed.verify_password(&[&Argon2::default()], attempt) {
            Ok(()) => PasswordCheck::Match,
            Err(_) => PasswordCheck::Mismatch,
        },
    }
}

/// The longest password, in bytes, that Argon2 hashes.
pub const MAX_PASSWORD_LEN: u64 = 0xFFFF_FFFF;

/// The passwords that can be hashed: those whose UTF-8 bytes are no more
/// than [`MAX_PASSWORD_LEN`].
pub open spec fn hashable(password: Seq<char>) -> bool {
    encode_utf8(password).len() <= MAX_PASSWORD_LEN
}

/// Hashes `password` with `PasswordHasher::hash_password` of
/// `Argon2::default()` under a salt from `SaltString::generate` on the
/// operating system's random source. Whatever salt was drawn: with the
/// default parameters and a salt of the generated length, the call fails
/// on a password longer than Argon2's limit and on no other; and a hash
/// that comes back is one that `password` matches.
#[verifier::external_body]
fn hash_new_password(password: &str) -> (r: Option<String>)
    ensures
        r is Some <==> hashable(password@),
        r matches Some(h) ==> password_check(h@, password@) == PasswordCheck::Match,
{
    let salt = SaltString::generate(rand::rngs::OsRng);
    Argon2::default().hash_password(password.as_bytes(), &salt).ok().map(|h| h.to_string())
}

/// What the stored hash says of a password attempt.
pub fn check_attempt(stored_hash: &str, attempt: &str) -> (r: PasswordCheck)
    ensures
        r == password_check(stored_hash@, attempt@),
{
    check_password(stored_hash, attempt)
}

/// Hashes a new password under a fresh random salt; `None` exactly where
/// the password is too long to be hashed. A hash that comes back is one
/// that the password matches.
pub fn new_password_hash(password: &str) -> (r: Option<String>)
    ensures
        r is Some <==> hashable(password@),
        r matches Some(h) ==> password_check(h@, password@) == PasswordCheck::Match,
{
    hash_new_password(password)
}

} // verus!
