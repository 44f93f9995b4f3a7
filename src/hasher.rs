//! The credential hasher: salted Argon2 hashes in PHC string form, and their
//! verification.
use vstd::prelude::*;
use argon2::password_hash::rand_core::OsRng;
use argon2::password_hash::SaltString;
use argon2::{Argon2, PasswordHash, PasswordHasher, PasswordVerifier};

verus! {

#[verifier::external_type_specification]
#[verifier::external_body]
pub struct ExPasswordHashError(argon2::password_hash::Error);

/// The PHC string that default Argon2 gives for a password and a B64 salt.
pub uninterp spec fn argon2_phc(password: Seq<char>, salt: Seq<char>) -> Seq<char>;

/// Whether a string parses as a PHC hash string.
pub uninterp spec fn phc_parses(phc: Seq<char>) -> bool;

/// Whether Argon2 accepts a password against a (parsed) PHC hash string.
pub uninterp spec fn argon2_accepts(password: Seq<char>, phc: Seq<char>) -> bool;

/// What verification of a password against a stored hash string comes to:
/// `None` for a malformed hash string, else whether the password matches.
pub open spec fn verify_outcome(password: Seq<char>, phc: Seq<char>) -> Option<bool> {
    if phc_parses(phc) {
        Some(argon2_accepts(password, phc))
    } else {
        None
    }
}

/// A character of the standard B64 alphabet.
pub open spec fn is_b64_char(c: char) -> bool {
    ('A' <= c <= 'Z') || ('a' <= c <= 'z') || ('0' <= c <= '9') || c == '+' || c == '/'
}

/// The unpadded B64 text of 16 bytes: 22 characters, the last of which
/// carries two bits followed by four zero bits.
pub open spec fn b64_salt16(s: Seq<char>) -> bool {
    &&& s.len() == 22
    &&& forall|i: int| 0 <= i < 22 ==> is_b64_char(#[trigger] s[i])
    &&& (s[21] == 'A' || s[21] == 'Q' || s[21] == 'g' || s[21] == 'w')
}

/// The longest password, in characters, whose UTF-8 bytes Argon2 always takes.
pub open spec fn hashable_password(password: Seq<char>) -> bool {
    password.len() <= 0x3FFF_FFFF
}

/// A PHC string of the Argon2id algorithm: it begins with `$argon2id$`.
pub open spec fn is_argon2id_phc(h: Seq<char>) -> bool {
    h.len() > 10 && h.subrange(0, 10) == "$argon2id$"@
}

/// Relies on `SaltString::generate` over the operating system's random source
/// for a fresh random salt: 16 random bytes in unpadded B64.
#[verifier::external_body]
fn fresh_salt() -> (r: String)
    ensures
        b64_salt16(r@),
{
    SaltString::generate(&mut OsRng).as_str().to_string()
}

/// Relies on `PasswordHasher::hash_password` of `Argon2::default()` (the salt
/// read by `SaltString::from_b64`) and on the PHC string form of its result.
/// As the argon2 crate documents, the string parses back and verifies the
/// password it was made from. With default parameters hashing fails only on a
/// password longer than `u32::MAX` bytes or a salt that decodes to fewer than
/// 8 bytes; the result is written `$argon2id$v=19$<params>$<salt>$<hash>`.
#[verifier::external_body]
fn argon2_hash(password: &str, salt: &str) -> (r: Result<String, argon2::password_hash::Error>)
    ensures
        b64_salt16(salt@) && hashable_password(password@) ==> r is Ok,
        r matches Ok(h) ==> h@ == argon2_phc(password@, salt@),
        r matches Ok(h) ==> phc_parses(h@) && argon2_accepts(password@, h@),
        r matches Ok(h) ==> is_argon2id_phc(h@),
{
    let salt = SaltString::from_b64(salt)?;
    Argon2::default().hash_password(password.as_bytes(), &salt).map(|h| h.to_string())
}

/// Relies on `PasswordHash::new` to parse the PHC string and on
/// `PasswordVerifier::verify_password` of `Argon2::default()` to check the
/// password against it.
#[verifier::external_body]
fn argon2_verify(password: &str, phc: &str) -> (r: Result<bool, argon2::password_hash::Error>)
    ensures
        r is Ok <==> phc_parses(phc@),
        r matches Ok(b) ==> b == argon2_accepts(password@, phc@),
{
    let parsed = PasswordHash::new(phc)?;
    Ok(Argon2::default().verify_password(password.as_bytes(), &parsed).is_ok())
}

/// Relies on the `Display` of the argon2 error for a message.
#[verifier::external_body]
fn hash_error_text(e: &argon2::password_hash::Error) -> (r: String) {
    e.to_string()
}

/// Hashes `password` with the given B64 salt. The error carries a message.
pub fn hash_with_salt(password: &str, salt: &str) -> (r: Result<String, String>)
    ensures
        b64_salt16(salt@) && hashable_password(password@) ==> r is Ok,
        r matches Ok(h) ==> h@ == argon2_phc(password@, salt@),
        r matches Ok(h) ==> verify_outcome(password@, h@) == Some(true),
        r matches Ok(h) ==> is_argon2id_phc(h@),
{
    match argon2_hash(password, salt) {
        Ok(h) => Ok(h),
        Err(e) => Err(hash_error_text(&e)),
    }
}

/// Hashes `password` under a fresh random salt. It succeeds for every
/// password of up to `0x3FFF_FFFF` characters, and the hash it gives is an
/// Argon2id PHC string that verifies the same password.
pub fn hash(password: &str) -> (r: Result<String, String>)
    ensures
        hashable_password(password@) ==> r is Ok,
        r matches Ok(h) ==> verify_outcome(password@, h@) == Some(true),
        r matches Ok(h) ==> is_argon2id_phc(h@),
{
    let salt = fresh_salt();
    hash_with_salt(password, salt.as_str())
}

/// Checks `password` against a stored PHC hash string: `Err` with a message
/// where the string is malformed, else whether the password matches.
pub fn verify(password: &str, phc: &str) -> (r: Result<bool, String>)
    ensures
        r is Ok <==> verify_outcome(password@, phc@) is Some,
        r matches Ok(b) ==> verify_outcome(password@, phc@) == Some(b),
{
    match argon2_verify(password, phc) {
        Ok(b) => Ok(b),
        Err(e) => Err(hash_error_text(&e)),
    }
}

} // verus!
