//! The cryptographic primitives the platform relies on: password hashing,
//! randomness and base64. Each is a call into a vetted outside crate.

use vstd::prelude::*;
use vstd::utf8::encode_utf8;

use argon2::password_hash::rand_core::OsRng;
use argon2::password_hash::{PasswordHash, PasswordHasher, PasswordVerifier, SaltString};
use argon2::Argon2;
use base64::Engine;

verus! {

/// The error `password_hash` reports when hashing fails.
#[verifier::external_type_specification]
#[verifier::external_body]
pub struct ExPasswordHashError(argon2::password_hash::Error);

/// The error `base64` reports on undecodable input.
#[verifier::external_type_specification]
#[verifier::external_body]
pub struct ExDecodeError(base64::DecodeError);

/// Name for what Argon2 (default parameters) password verification returns
/// for a secret's characters against a PHC hash string: whether the string
/// parses as a password hash and the secret verifies against it.
pub uninterp spec fn spec_argon2_verifies(secret: Seq<char>, hash: Seq<char>) -> bool;

/// Name for `base64`'s URL-safe, unpadded encoding of some bytes.
pub uninterp spec fn spec_b64_url_nopad(bytes: Seq<u8>) -> Seq<char>;

/// Name for `base64`'s standard (padded) encoding of some bytes.
pub uninterp spec fn spec_b64_standard(bytes: Seq<u8>) -> Seq<char>;

/// Name for `base64`'s standard decoding of some text: `None` when the text
/// is not valid standard base64.
pub uninterp spec fn spec_b64_standard_decode(text: Seq<char>) -> Option<Seq<u8>>;

/// A character of the URL-safe base64 alphabet
/// (`A-Z`, `a-z`, `0-9`, `-`, `_`).
pub open spec fn b64_url_char(c: char) -> bool {
    ('A' <= c && c <= 'Z') || ('a' <= c && c <= 'z') || ('0' <= c && c <= '9') || c == '-' || c
        == '_'
}

/// Calls `PasswordHasher::hash_password` of `Argon2::default()` with a
/// fresh random salt (`SaltString::generate` over `OsRng`), rendering the
/// hash as its PHC string. With the default parameters and a generated
/// salt, hashing fails only for a secret of more than `MAX_PWD_LEN`
/// (`0xFFFF_FFFF`) bytes. The salt is random, so which hash comes back is
/// not claimed, only that it verifies the same secret (the round trip the
/// `argon2` documentation shows).
#[verifier::external_body]
pub(crate) fn argon2_hash(secret: &str) -> (r: Result<String, argon2::password_hash::Error>)
    ensures
        encode_utf8(secret@).len() <= 0xFFFF_FFFF ==> r is Ok,
        r matches Ok(h) ==> spec_argon2_verifies(secret@, h@),
{
    let salt = SaltString::generate(&mut OsRng);
    Argon2::default().hash_password(secret.as_bytes(), &salt).map(|hash| hash.to_string())
}

/// Calls `PasswordHash::new` on `hash` and, when it parses,
/// `PasswordVerifier::verify_password` of `Argon2::default()`; the result
/// is `spec_argon2_verifies(secret@, hash@)`. A hash that does not parse
/// verifies nothing.
#[verifier::external_body]
pub(crate) fn argon2_verify(secret: &str, hash: &str) -> (r: bool)
    ensures
        r == spec_argon2_verifies(secret@, hash@),
{
    match PasswordHash::new(hash) {
        Ok(parsed) => Argon2::default().verify_password(secret.as_bytes(), &parsed).is_ok(),
        Err(_) => false,
    }
}

/// Calls `rand::random::<u8>()`: one byte from the thread-local
/// cryptographically secure generator. Nothing is claimed of its value.
#[verifier::external_body]
pub(crate) fn random_byte() -> u8 {
    rand::random::<u8>()
}

/// Calls `rand::random::<[u8; 32]>()`: 32 bytes from the thread-local
/// cryptographically secure generator. Nothing is claimed of their value.
#[verifier::external_body]
pub(crate) fn random_32_bytes() -> [u8; 32] {
    rand::random::<[u8; 32]>()
}

/// Calls `rand::random::<[u8; 12]>()`: 12 bytes from the thread-local
/// cryptographically secure generator. Nothing is claimed of their value.
#[verifier::external_body]
pub(crate) fn random_12_bytes() -> [u8; 12] {
    rand::random::<[u8; 12]>()
}

/// Calls `URL_SAFE_NO_PAD.encode`; the result is
/// `spec_b64_url_nopad(bytes@)`, unpadded (four characters for every three
/// bytes, rounded up), every character of which is in the
/// URL-safe alphabet the engine is built from.
#[verifier::external_body]
pub(crate) fn b64_url_nopad_encode(bytes: &[u8]) -> (r: String)
    ensures
        r@ == spec_b64_url_nopad(bytes@),
        r@.len() == (4 * bytes@.len() + 2) / 3,
        forall|i: int| 0 <= i < r@.len() ==> b64_url_char(#[trigger] r@[i]),
{
    base64::engine::general_purpose::URL_SAFE_NO_PAD.encode(bytes)
}

/// Calls `STANDARD.encode`; the result is `spec_b64_standard(bytes@)`,
/// padded: four characters for every started group of three bytes; and
/// `STANDARD.decode` gives those same bytes back.
#[verifier::external_body]
pub(crate) fn b64_standard_encode(bytes: &[u8]) -> (r: String)
    ensures
        r@ == spec_b64_standard(bytes@),
        r@.len() == 4 * ((bytes@.len() + 2) / 3),
        spec_b64_standard_decode(r@) == Some(bytes@),
{
    base64::engine::general_purpose::STANDARD.encode(bytes)
}

/// Calls `STANDARD.decode`; `Ok` holds `spec_b64_standard_decode(text@)`,
/// and an error comes exactly when that is `None`.
#[verifier::external_body]
pub(crate) fn b64_standard_decode(text: &str) -> (r: Result<Vec<u8>, base64::DecodeError>)
    ensures
        r matches Ok(b) ==> spec_b64_standard_decode(text@) == Some(b@),
        r is Err ==> spec_b64_standard_decode(text@) is None,
{
    base64::engine::general_purpose::STANDARD.decode(text)
}

} // verus!
