//! The calls this library makes into outside crates (sha2, hex, rand, argon2),
//! each with the contract that the library takes on trust.

use argon2::password_hash::rand_core::{OsRng, RngCore};
use argon2::password_hash::{Error as PhcError, SaltString};
use argon2::{Argon2, PasswordHash, PasswordHasher, PasswordVerifier};
use sha2::Digest;
use vstd::prelude::*;

use crate::text::starts_with;

verus! {

/// The error type of the `password-hash` crate.
#[verifier::external_type_specification]
#[verifier::external_body]
pub struct ExPhcError(PhcError);

/// The SHA-256 digest of a byte sequence.
pub uninterp spec fn sha256(data: Seq<u8>) -> Seq<u8>;

/// Whether Argon2 (default parameters) accepts `password` against the PHC
/// string `phc`: the string parses as a password hash and recomputing the
/// hash of `password` with its algorithm, version, parameters and salt gives
/// its output.
pub uninterp spec fn argon2_accepts(password: Seq<u8>, phc: Seq<char>) -> bool;

/// The lower-case hexadecimal digit for a value below 16.
pub open spec fn hex_digit(d: u8) -> char {
    if d < 10 {
        (48 + d) as char
    } else {
        (87 + d) as char
    }
}

/// Lower-case hexadecimal text of bytes, two digits per byte, high nibble first.
pub open spec fn hex_lower(bytes: Seq<u8>) -> Seq<char>
    decreases bytes.len(),
{
    if bytes.len() == 0 {
        Seq::empty()
    } else {
        seq![hex_digit(bytes[0] / 16), hex_digit(bytes[0] % 16)] + hex_lower(bytes.drop_first())
    }
}

/// `sha2::Sha256::digest`: the 32-byte SHA-256 digest of `data`.
/// Claimed: the result is the named digest of the input and has 32 bytes.
#[verifier::external_body]
pub(crate) fn sha256_digest(data: &[u8]) -> (d: Vec<u8>)
    ensures
        d@ == sha256(data@),
        d@.len() == 32,
{
    sha2::Sha256::digest(data).to_vec()
}

/// `hex::encode`: each byte becomes two lower-case hex digits (the crate's
/// table is `0123456789abcdef`), high nibble first.
#[verifier::external_body]
pub(crate) fn hex_encode(bytes: &[u8]) -> (s: String)
    ensures
        s@ == hex_lower(bytes@),
{
    hex::encode(bytes)
}

/// `rand::random::<[u8; 32]>()` (from the thread-local CSPRNG), as a vector.
/// Claimed: 32 bytes. Which bytes is left open: they come from chance.
#[verifier::external_body]
pub(crate) fn random_bytes_32() -> (b: Vec<u8>)
    ensures
        b@.len() == 32,
{
    rand::random::<[u8; 32]>().to_vec()
}

/// `RngCore::fill_bytes` of the operating system's RNG on 16 bytes (the
/// recommended salt length, as `SaltString::generate` draws it).
/// Claimed: 16 bytes. Which bytes is left open: they come from chance.
#[verifier::external_body]
pub(crate) fn random_salt_bytes() -> (b: Vec<u8>)
    ensures
        b@.len() == 16,
{
    let mut bytes = [0u8; 16];
    OsRng.fill_bytes(&mut bytes);
    bytes.to_vec()
}

/// `PasswordHasher::hash_password` of `Argon2::default()` (Argon2id,
/// version 19, default parameters) with the salt given as bytes (encoded for
/// the call with `SaltString::encode_b64`), rendered as its PHC string.
/// Claimed of a success: the string begins `$argon2id$` (the crate writes
/// `$`, the algorithm's identifier `argon2id`, then `$v=`...), and Argon2
/// accepts the same password against it (verification recomputes the hash
/// from the parameters and salt that the string carries).
/// The salt must have 8 to 48 bytes (Argon2's minimum salt length; the
/// longest that fits the 64-character salt string): a salt of under 3 bytes
/// would make the crate panic on its too-short salt string.
/// Claimed of success: it comes for every password of at most 0xFFFF_FFFF
/// bytes (Argon2's `MAX_PWD_LEN`), the only check that the default
/// parameters and such a salt leave to fail.
#[verifier::external_body]
pub(crate) fn argon2_hash(password: &[u8], salt: &[u8]) -> (r: Result<String, PhcError>)
    requires
        8 <= salt@.len() <= 48,
    ensures
        r matches Ok(h) ==> argon2_accepts(password@, h@) && starts_with(h@, "$argon2id$"@),
        password@.len() <= 0xFFFF_FFFF ==> r is Ok,
{
    let salt = match SaltString::encode_b64(salt) {
        Ok(s) => s,
        Err(e) => return Err(e),
    };
    match Argon2::default().hash_password(password, &salt) {
        Ok(h) => Ok(h.to_string()),
        Err(e) => Err(e),
    }
}

/// The `Display` text of a `password-hash` error. Nothing is claimed of it.
#[verifier::external_body]
pub(crate) fn phc_error_text(e: &PhcError) -> (s: String) {
    e.to_string()
}

/// `PasswordHash::new` on `phc`, then `PasswordVerifier::verify_password` of
/// `Argon2::default()`; a string that does not parse is not accepted.
/// Claimed: the result is the named acceptance of these arguments, and a
/// string that does not begin with `$` is refused (the parser rejects an
/// empty string and one whose first `$`-separated field is not empty).
#[verifier::external_body]
pub(crate) fn argon2_verify(password: &[u8], phc: &str) -> (ok: bool)
    ensures
        ok == argon2_accepts(password@, phc@),
        !starts_with(phc@, "$"@) ==> !ok,
{
    match PasswordHash::new(phc) {
        Ok(h) => Argon2::default().verify_password(password, &h).is_ok(),
        Err(_) => false,
    }
}

} // verus!
