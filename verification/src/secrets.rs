//! Secret environment values at rest: ChaCha20-Poly1305 under a 32-byte
//! key, a fresh random 12-byte nonce per value, stored as standard base64
//! of nonce followed by ciphertext.

use vstd::prelude::*;
use vstd::string::StringSliceAdditionalSpecFns;
use vstd::utf8::{decode_utf8, encode_utf8, valid_utf8};

use chacha20poly1305::aead::Aead;
use chacha20poly1305::{ChaCha20Poly1305, KeyInit, Nonce};

use crate::crypto::{b64_standard_decode, b64_standard_encode, random_12_bytes, random_32_bytes, spec_b64_standard, spec_b64_standard_decode};
use crate::error::{AppError, AppResult};

verus! {

/// The error the AEAD reports when sealing fails or a ciphertext does not
/// authenticate.
#[verifier::external_type_specification]
#[verifier::external_body]
pub struct ExAeadError(chacha20poly1305::Error);

/// The error `String::from_utf8` reports on invalid UTF-8.
#[verifier::external_type_specification]
#[verifier::external_body]
pub struct ExFromUtf8Error(std::string::FromUtf8Error);

/// Name for the ChaCha20-Poly1305 ciphertext (with its 16-byte tag) of
/// `plaintext` under `key` and `nonce`, with no associated data.
pub uninterp spec fn spec_aead_seal(key: Seq<u8>, nonce: Seq<u8>, plaintext: Seq<u8>) -> Seq<u8>;

/// Name for ChaCha20-Poly1305 decryption of `ciphertext` under `key` and
/// `nonce`, with no associated data: `None` when it does not authenticate.
pub uninterp spec fn spec_aead_open(key: Seq<u8>, nonce: Seq<u8>, ciphertext: Seq<u8>) -> Option<Seq<u8>>;

/// Calls `Aead::encrypt` of `ChaCha20Poly1305::new(key)` with `nonce` on
/// `plaintext`. A returned ciphertext is `spec_aead_seal(..)`: the message
/// encrypted in place with the 16-byte tag appended, and decrypting it
/// under the same key and nonce gives the plaintext back (the cipher XORs
/// the same keystream on both ways and checks the tag it computed). The one
/// failure is a message of `u32::MAX` or more 64-byte blocks.
#[verifier::external_body]
fn aead_seal(key: &[u8; 32], nonce: &[u8; 12], plaintext: &[u8]) -> (r: Result<Vec<u8>, chacha20poly1305::Error>)
    ensures
        r is Ok <==> plaintext@.len() / 64 < 4294967295,
        r matches Ok(c) ==> c@.len() == plaintext@.len() + 16,
        r matches Ok(c) ==> c@ == spec_aead_seal(key@, nonce@, plaintext@),
        r matches Ok(c) ==> spec_aead_open(key@, nonce@, c@) == Some(plaintext@),
{
    let cipher = ChaCha20Poly1305::new(key.into());
    let nonce: Nonce = (*nonce).into();
    cipher.encrypt(&nonce, plaintext)
}

/// Calls `Aead::decrypt` of `ChaCha20Poly1305::new(key)` with `nonce` on
/// `ciphertext`; the result is `spec_aead_open(..)`, an error exactly when
/// that is `None`.
#[verifier::external_body]
fn aead_open(key: &[u8; 32], nonce: &[u8; 12], ciphertext: &[u8]) -> (r: Result<Vec<u8>, chacha20poly1305::Error>)
    ensures
        r matches Ok(p) ==> spec_aead_open(key@, nonce@, ciphertext@) == Some(p@),
        r is Err ==> spec_aead_open(key@, nonce@, ciphertext@) is None,
{
    let cipher = ChaCha20Poly1305::new(key.into());
    let nonce: Nonce = (*nonce).into();
    cipher.decrypt(&nonce, ciphertext)
}

/// Calls `String::from_utf8`: succeeds exactly on valid UTF-8, with the
/// characters those bytes encode.
#[verifier::external_body]
fn string_from_utf8(bytes: Vec<u8>) -> (r: Result<String, std::string::FromUtf8Error>)
    ensures
        r is Ok <==> valid_utf8(bytes@),
        r matches Ok(s) ==> s@ == decode_utf8(bytes@),
{
    String::from_utf8(bytes)
}

/// The stored text of `plaintext` sealed under `key` with `nonce`.
pub open spec fn sealed_text(key: Seq<u8>, nonce: Seq<u8>, plaintext: Seq<char>) -> Seq<char> {
    spec_b64_standard(nonce + spec_aead_seal(key, nonce, encode_utf8(plaintext)))
}

/// What stored text opens to under `key`: base64-decoded, split into the
/// 12-byte nonce and the ciphertext, authenticated and decrypted, and read
/// as UTF-8; `None` where any step fails.
pub open spec fn opened_text(key: Seq<u8>, stored: Seq<char>) -> Option<Seq<char>> {
    match spec_b64_standard_decode(stored) {
        Some(raw) => if raw.len() < 12 {
            None
        } else {
            match spec_aead_open(key, raw.take(12), raw.skip(12)) {
                Some(p) => if valid_utf8(p) {
                    Some(decode_utf8(p))
                } else {
                    None
                },
                None => None,
            }
        },
        None => None,
    }
}

/// The message each way of failing to open a stored secret is reported
/// with.
pub open spec fn open_failure_message(key: Seq<u8>, stored: Seq<char>) -> Seq<char> {
    match spec_b64_standard_decode(stored) {
        Some(raw) => if raw.len() >= 12 && spec_aead_open(key, raw.take(12), raw.skip(12)) is None {
            "secret value could not be decrypted"@
        } else {
            "secret value could not be decoded"@
        },
        None => "secret value could not be decoded"@,
    }
}

/// The length of the stored text for a plaintext of `n` UTF-8 bytes: the
/// padded base64 of the 12-byte nonce, the ciphertext and its 16-byte tag.
pub open spec fn stored_len(n: nat) -> nat {
    4 * ((12 + n + 16 + 2) / 3)
}

/// Every character takes at least one byte in UTF-8.
proof fn lemma_utf8_at_least_one_byte_per_char(chars: Seq<char>)
    ensures
        encode_utf8(chars).len() >= chars.len(),
    decreases chars.len(),
{
    if chars.len() > 0 {
        lemma_utf8_at_least_one_byte_per_char(chars.drop_first());
    }
}

/// The stored form of a secret is never the secret itself: it is longer
/// than the plaintext.
pub proof fn lemma_stored_text_is_not_plaintext(plaintext: Seq<char>, stored: Seq<char>)
    requires
        stored.len() == stored_len(encode_utf8(plaintext).len()),
    ensures
        stored.len() > plaintext.len(),
        stored != plaintext,
{
    lemma_utf8_at_least_one_byte_per_char(plaintext);
    let n = encode_utf8(plaintext).len();
    assert(4 * ((12 + n + 16 + 2) / 3) > n) by (nonlinear_arith);
}

/// Seals `plaintext` under `key` with a fresh random nonce. Only a text of
/// `u32::MAX` or more 64-byte blocks of UTF-8 cannot be sealed.
pub fn encrypt_with_key(key: &[u8; 32], plaintext: &str) -> (r: AppResult<String>)
    ensures
        r is Ok <==> encode_utf8(plaintext@).len() / 64 < 4294967295,
        r matches Ok(s) ==> s@.len() == stored_len(encode_utf8(plaintext@).len()),
        r matches Ok(s) ==> exists|nonce: Seq<u8>| nonce.len() == 12 && s@ == sealed_text(key@, nonce, plaintext@),
        r matches Ok(s) ==> opened_text(key@, s@) == Some(plaintext@),
        r matches Err(e) ==> (e matches AppError::CorruptData(m) && m@
            == "secret value could not be encrypted"@),
{
    let nonce = random_12_bytes();
    let ciphertext = match aead_seal(key, &nonce, plaintext.as_bytes()) {
        Ok(c) => c,
        Err(_) => return Err(AppError::CorruptData("secret value could not be encrypted".to_owned())),
    };
    let mut out: Vec<u8> = Vec::new();
    let mut i: usize = 0;
    while i < 12
        invariant
            0 <= i <= 12,
            out@ == nonce@.take(i as int),
        decreases 12 - i,
    {
        out.push(nonce[i]);
        assert(nonce@.take(i + 1) =~= nonce@.take(i as int).push(nonce@[i as int]));
        i = i + 1;
    }
    let mut j: usize = 0;
    while j < ciphertext.len()
        invariant
            0 <= j <= ciphertext@.len(),
            out@ == nonce@ + ciphertext@.take(j as int),
        decreases ciphertext@.len() - j,
    {
        out.push(ciphertext[j]);
        assert(ciphertext@.take(j + 1) =~= ciphertext@.take(j as int).push(ciphertext@[j as int]));
        j = j + 1;
    }
    assert(ciphertext@.take(ciphertext@.len() as int) =~= ciphertext@);
    assert(nonce@.take(12) =~= nonce@);
    assert(out@.len() == 12 + ciphertext@.len());
    let stored = b64_standard_encode(out.as_slice());
    assert(stored@ == sealed_text(key@, nonce@, plaintext@));
    proof {
        lemma_seal_then_open(key@, nonce@, plaintext@);
    }
    Ok(stored)
}

/// Opens stored text under `key`. Undecodable text, text shorter than a
/// nonce and a non-UTF-8 result are reported as undecodable; a ciphertext
/// that does not authenticate (tampered with, or sealed under another key)
/// as undecryptable.
pub fn decrypt_with_key(key: &[u8; 32], stored: &str) -> (r: AppResult<String>)
    ensures
        r is Ok <==> opened_text(key@, stored@) is Some,
        r matches Ok(s) ==> opened_text(key@, stored@) == Some(s@),
        r matches Err(e) ==> (e matches AppError::CorruptData(m) && m@ == open_failure_message(
            key@,
            stored@,
        )),
{
    let raw = match b64_standard_decode(stored) {
        Ok(raw) => raw,
        Err(_) => return Err(AppError::CorruptData("secret value could not be decoded".to_owned())),
    };
    if raw.len() < 12 {
        return Err(AppError::CorruptData("secret value could not be decoded".to_owned()));
    }
    let mut nonce: [u8; 12] = [0; 12];
    let mut i: usize = 0;
    while i < 12
        invariant
            0 <= i <= 12,
            raw@.len() >= 12,
            nonce@.len() == 12,
            forall|k: int| 0 <= k < i ==> nonce@[k] == raw@[k],
        decreases 12 - i,
    {
        nonce[i] = raw[i];
        i = i + 1;
    }
    assert(nonce@ =~= raw@.take(12));
    let mut ciphertext: Vec<u8> = Vec::new();
    let mut j: usize = 12;
    while j < raw.len()
        invariant
            12 <= j <= raw@.len(),
            ciphertext@ == raw@.subrange(12, j as int),
        decreases raw@.len() - j,
    {
        ciphertext.push(raw[j]);
        assert(raw@.subrange(12, j + 1) =~= raw@.subrange(12, j as int).push(raw@[j as int]));
        j = j + 1;
    }
    assert(ciphertext@ =~= raw@.skip(12));
    let plaintext = match aead_open(key, &nonce, ciphertext.as_slice()) {
        Ok(p) => p,
        Err(_) => return Err(AppError::CorruptData("secret value could not be decrypted".to_owned())),
    };
    match string_from_utf8(plaintext) {
        Ok(s) => Ok(s),
        Err(_) => Err(AppError::CorruptData("secret value could not be decoded".to_owned())),
    }
}

/// Sealed text opens, under the same key, to exactly the text that was
/// sealed - given that base64 decodes what it encoded and the cipher opens
/// what it sealed.
proof fn lemma_seal_then_open(key: Seq<u8>, nonce: Seq<u8>, plaintext: Seq<char>)
    requires
        nonce.len() == 12,
        spec_b64_standard_decode(sealed_text(key, nonce, plaintext)) == Some(
            nonce + spec_aead_seal(key, nonce, encode_utf8(plaintext)),
        ),
        spec_aead_open(key, nonce, spec_aead_seal(key, nonce, encode_utf8(plaintext))) == Some(
            encode_utf8(plaintext),
        ),
    ensures
        opened_text(key, sealed_text(key, nonce, plaintext)) == Some(plaintext),
{
    let raw = nonce + spec_aead_seal(key, nonce, encode_utf8(plaintext));
    assert(raw.take(12) =~= nonce);
    assert(raw.skip(12) =~= spec_aead_seal(key, nonce, encode_utf8(plaintext)));
    vstd::utf8::encode_utf8_valid_utf8(plaintext);
    vstd::utf8::encode_utf8_decode_utf8(plaintext);
}

/// The message a key file of the wrong length is refused with.
pub open spec fn wrong_key_length_message(path: Seq<char>) -> Seq<char> {
    "secrets key file at "@ + path + " has the wrong length"@
}

/// The secrets key from what the key file at `path` holds, `None` when
/// there is no such file: exactly 32 bytes are the key (`false`: nothing to
/// write); any other length is refused rather than replaced, which would
/// orphan every stored secret; with no file, a fresh random key is drawn
/// (`true`: the caller writes it to the file).
pub fn secrets_key_from(path: &str, contents: Option<Vec<u8>>) -> (r: Result<([u8; 32], bool), String>)
    ensures
        contents is None ==> (r matches Ok(k) && k.1),
        contents is Some && contents->0@.len() == 32 ==> (r matches Ok(k) && k.0@ == contents->0@
            && !k.1),
        contents is Some && contents->0@.len() != 32 ==> (r matches Err(m) && m@
            == wrong_key_length_message(path@)),
{
    match contents {
        None => Ok((random_32_bytes(), true)),
        Some(bytes) => {
            if bytes.len() != 32 {
                let mut m = "secrets key file at ".to_owned();
                m.append(path);
                m.append(" has the wrong length");
                return Err(m);
            }
            let mut key: [u8; 32] = [0; 32];
            let mut i: usize = 0;
            while i < 32
                invariant
                    0 <= i <= 32,
                    bytes@.len() == 32,
                    key@.len() == 32,
                    forall|j: int| 0 <= j < i ==> key@[j] == bytes@[j],
                decreases 32 - i,
            {
                key[i] = bytes[i];
                i = i + 1;
            }
            assert(key@ =~= bytes@);
            Ok((key, false))
        },
    }
}

} // verus!
