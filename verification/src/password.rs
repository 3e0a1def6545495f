//! Password hashing and checking, which the `bcrypt` crate does.

use vstd::prelude::*;

verus! {

#[verifier::external_type_specification]
#[verifier::external_body]
pub struct ExBcryptError(bcrypt::BcryptError);

/// What `bcrypt::verify` says of a password and a stored hash: whether
/// they match, or `None` where the hash cannot be read.
pub uninterp spec fn bcrypt_check(password: Seq<char>, hash: Seq<char>) -> Option<bool>;

/// Calls `bcrypt::verify`, which reads cost and salt out of `hash`, hashes
/// `password` with them and compares.
///
/// Trusted: the result is what [`bcrypt_check`] names.
#[verifier::external_body]
fn bcrypt_verify(password: &str, hash: &str) -> (r: Result<bool, bcrypt::BcryptError>)
    ensures
        r matches Ok(matches) ==> bcrypt_check(password@, hash@) == Some(matches),
        r is Err ==> bcrypt_check(password@, hash@) is None,
{
    bcrypt::verify(password, hash)
}

/// The decimal digit `d` as a character.
pub open spec fn digit(d: int) -> char {
    if d == 0 {
        '0'
    } else if d == 1 {
        '1'
    } else if d == 2 {
        '2'
    } else if d == 3 {
        '3'
    } else if d == 4 {
        '4'
    } else if d == 5 {
        '5'
    } else if d == 6 {
        '6'
    } else if d == 7 {
        '7'
    } else if d == 8 {
        '8'
    } else {
        '9'
    }
}

/// A bcrypt hash of version 2b made with work factor `cost`: 60
/// characters that begin `$2b$`, the cost in two digits, and `$`.
pub open spec fn made_with(hash: Seq<char>, cost: int) -> bool {
    &&& hash.len() == 60
    &&& hash[0] == '$'
    &&& hash[1] == '2'
    &&& hash[2] == 'b'
    &&& hash[3] == '$'
    &&& hash[4] == digit(cost / 10)
    &&& hash[5] == digit(cost % 10)
    &&& hash[6] == '$'
}

/// Calls `bcrypt::hash`, which draws a random salt and fails for a cost
/// outside 4 to 31 or where no salt can be drawn.
///
/// Trusted: whatever the salt, the hash that comes back is written as
/// version 2b with the cost it was given, and is one that `bcrypt::verify`
/// accepts for the same password.
#[verifier::external_body]
fn bcrypt_hash(password: &str, cost: u32) -> (r: Result<String, bcrypt::BcryptError>)
    ensures
        r matches Ok(hash) ==> made_with(hash@, cost as int),
        r matches Ok(hash) ==> bcrypt_check(password@, hash@) == Some(true),
{
    bcrypt::hash(password, cost)
}

/// The work factor that new hashes are made with.
pub const HASH_COST: u32 = 12;

/// The result of checking a password against a stored hash.
#[derive(Clone, Copy, Debug, PartialEq, Eq, Structural)]
pub enum PasswordCheck {
    /// The password is the one that was hashed.
    Match,
    /// It is another password.
    Mismatch,
    /// The stored text is no bcrypt hash.
    Unreadable,
}

/// What a check comes to, given what `bcrypt` says.
pub open spec fn password_check(verdict: Option<bool>) -> PasswordCheck {
    match verdict {
        Some(true) => PasswordCheck::Match,
        Some(false) => PasswordCheck::Mismatch,
        None => PasswordCheck::Unreadable,
    }
}

/// Checks `password` against the stored `hash`.
pub fn verify_password(password: &str, hash: &str) -> (r: PasswordCheck)
    ensures
        r == password_check(bcrypt_check(password@, hash@)),
{
    match bcrypt_verify(password, hash) {
        Ok(true) => PasswordCheck::Match,
        Ok(false) => PasswordCheck::Mismatch,
        Err(_) => PasswordCheck::Unreadable,
    }
}

/// Hashes `password` for storage, with a fresh salt and the work factor
/// [`HASH_COST`]; `None` where the hasher fails. Two calls give different
/// hashes; each is one that [`verify_password`] matches with the password.
pub fn hash_password(password: &str) -> (r: Option<String>)
    ensures
        r matches Some(hash) ==> made_with(hash@, 12),
        r matches Some(hash) ==> bcrypt_check(password@, hash@) == Some(true),
{
    stored_hash(bcrypt_hash(password, HASH_COST))
}

/// What is kept of the hasher's answer: the hash where it gave one, nothing
/// where it failed, whatever the failure.
pub fn stored_hash(outcome: Result<String, bcrypt::BcryptError>) -> (r: Option<String>)
    ensures
        r == match outcome {
            Ok(hash) => Some(hash),
            Err(_) => None,
        },
{
    match outcome {
        Ok(hash) => Some(hash),
        Err(_) => None,
    }
}

} // verus!
