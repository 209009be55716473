//! Passwords, random tokens and the clock, as the hub uses them.
use vstd::prelude::*;
use argon2::password_hash::{PasswordHash, PasswordHasher, PasswordVerifier, SaltString};
use argon2::Argon2;
use rand::RngCore;
use crate::text::utf8_len;

verus! {

/// Whether Argon2 (default parameters) accepts `password` against the PHC-format
/// hash string `phc`: the string parses and the password hashes to it.
pub uninterp spec fn argon2_accepts(password: Seq<char>, phc: Seq<char>) -> bool;

/// Hashes a password with Argon2 under a fresh random salt and renders the PHC
/// string. Calls `SaltString::generate` (OS randomness) and
/// `Argon2::hash_password`; `None` when hashing fails. With the default
/// parameters and a generated salt, hashing fails only for a password longer
/// than `MAX_PWD_LEN` (0xFFFFFFFF) bytes. The salt is random, so the string
/// itself is not stated; hashing and verifying the same password with the same
/// parameters and salt gives equal outputs, so the string accepts the password.
#[verifier::external_body]
pub(crate) fn hash_password(password: &str) -> (r: Option<String>)
    ensures
        r matches Some(h) ==> argon2_accepts(password@, h@),
        utf8_len(password@) <= 0xFFFFFFFF ==> r is Some,
{
    Argon2::default().hash_password(password.as_bytes(), &SaltString::generate(&mut rand::rngs::OsRng)).ok().map(
        |h| h.to_string(),
    )
}

/// Checks a password against a PHC hash string: `PasswordHash::new` parses it and
/// `Argon2::verify_password` recomputes the hash; a string that does not parse
/// accepts nothing.
#[verifier::external_body]
pub(crate) fn password_verifies(password: &str, phc: &str) -> (r: bool)
    ensures
        r == argon2_accepts(password@, phc@),
{
    match PasswordHash::new(phc) {
        Ok(h) => Argon2::default().verify_password(password.as_bytes(), &h).is_ok(),
        Err(_) => false,
    }
}

/// Thirty-two bytes from the operating system's random source
/// (`RngCore::fill_bytes` on `OsRng`). Nothing is stated of their values.
#[verifier::external_body]
pub(crate) fn random_bytes() -> (r: [u8; 32]) {
    let mut bytes = [0u8; 32];
    rand::rngs::OsRng.fill_bytes(&mut bytes);
    bytes
}

pub open spec fn hex_digit(d: u8) -> char
    recommends
        d < 16,
{
    if d < 10 {
        ('0' as u8 + d) as char
    } else {
        ('a' as u8 + d - 10) as char
    }
}

/// Lowercase hexadecimal of some bytes, two digits per byte, high nibble first.
pub open spec fn spec_hex(bytes: Seq<u8>) -> Seq<char>
    decreases bytes.len(),
{
    if bytes.len() == 0 {
        seq![]
    } else {
        spec_hex(bytes.drop_last()) + seq![hex_digit(bytes.last() / 16), hex_digit(bytes.last() % 16)]
    }
}

/// Encodes bytes as lowercase hexadecimal (`hex::encode`), two digits per byte.
#[verifier::external_body]
pub(crate) fn hex_encode(bytes: &[u8]) -> (r: String)
    ensures
        r@ == spec_hex(bytes@),
{
    hex::encode(bytes)
}

/// Hex encoding doubles the length.
pub proof fn lemma_hex_len(bytes: Seq<u8>)
    ensures
        spec_hex(bytes).len() == 2 * bytes.len(),
    decreases bytes.len(),
{
    if bytes.len() > 0 {
        lemma_hex_len(bytes.drop_last());
    }
}

/// A fresh random token: 32 random bytes in lowercase hex.
pub fn token() -> (r: String)
    ensures
        exists|b: Seq<u8>| b.len() == 32 && r@ == spec_hex(b),
        r@.len() == 64,
{
    let bytes = random_bytes();
    let r = hex_encode(bytes.as_slice());
    proof {
        lemma_hex_len(bytes@);
    }
    r
}

/// Seconds since the Unix epoch on this machine's clock
/// (`SystemTime::now().duration_since(UNIX_EPOCH)`). Nothing is stated of the value.
#[verifier::external_body]
pub(crate) fn unix_seconds() -> (r: u64) {
    std::time::SystemTime::now().duration_since(std::time::UNIX_EPOCH).unwrap().as_secs()
}

/// The current time in whole seconds since the Unix epoch, as a signed number.
pub fn now() -> i64 {
    unix_seconds() as i64
}

} // verus!
