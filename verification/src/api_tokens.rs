//! API tokens: `oxde_<token_id>.<secret>`, where only an Argon2 hash of the
//! secret is stored and the token id selects the row to check it against.

use vstd::prelude::*;
use vstd::utf8::encode_utf8;

use crate::crypto::{
    argon2_hash, argon2_verify, b64_url_char, b64_url_nopad_encode, random_byte,
    spec_argon2_verifies, spec_b64_url_nopad,
};
use crate::error::{AppError, AppResult};
use crate::text::{has_prefix, split_once_spec, split_once_str, strip_prefix_str};

verus! {

/// `.` as the delimiter since it doesn't appear in base64url output.
pub const PREFIX: &'static str = "oxde_";

/// Random bytes behind a token id.
pub const SELECTOR_BYTES: usize = 16;

/// Random bytes behind a token secret.
pub const SECRET_BYTES: usize = 32;

/// Seconds in a day.
pub const SECS_PER_DAY: i64 = 86_400;

/// The latest expiry a token created at `now` may have.
pub open spec fn max_expires_at(now: int, max_expiry_days: int) -> int {
    now + max_expiry_days * 86_400
}

/// An expiry is accepted when it lies after `now` and at most
/// `max_expiry_days` days after it.
pub open spec fn expiry_ok(now: int, expires_at: int, max_expiry_days: int) -> bool {
    expires_at > now && expires_at <= max_expires_at(now, max_expiry_days)
}

/// Checks a requested token expiry against the configured maximum.
pub fn validate_expiry(now: i64, expires_at: i64, max_expiry_days: i64) -> (r: AppResult<()>)
    requires
        i64::MIN <= max_expiry_days * 86_400 <= i64::MAX,
        i64::MIN <= max_expires_at(now as int, max_expiry_days as int) <= i64::MAX,
    ensures
        r is Ok <==> expiry_ok(now as int, expires_at as int, max_expiry_days as int),
        r is Err ==> r == Err::<(), AppError>(AppError::InvalidTokenExpiry(expires_at)),
{
    let max_expires_at = now + max_expiry_days * SECS_PER_DAY;
    if expires_at > now && expires_at <= max_expires_at {
        Ok(())
    } else {
        Err(AppError::InvalidTokenExpiry(expires_at))
    }
}

/// Every character of `s` is in the URL-safe base64 alphabet - in
/// particular none is `.`.
pub open spec fn url_safe_text(s: Seq<char>) -> bool {
    forall|i: int| 0 <= i < s.len() ==> b64_url_char(#[trigger] s[i])
}

/// `len` random bytes, URL-safe base64 encoded without padding.
fn random_urlsafe(len: usize) -> (r: String)
    ensures
        exists|bytes: Seq<u8>| bytes.len() == len && r@ == spec_b64_url_nopad(bytes),
        url_safe_text(r@),
        r@.len() == (4 * len + 2) / 3,
{
    let mut bytes: Vec<u8> = Vec::new();
    let mut i: usize = 0;
    while i < len
        invariant
            0 <= i <= len,
            bytes@.len() == i,
        decreases len - i,
    {
        bytes.push(random_byte());
        i = i + 1;
    }
    let r = b64_url_nopad_encode(bytes.as_slice());
    assert(bytes@.len() == len && r@ == spec_b64_url_nopad(bytes@));
    r
}

/// Every character takes at most four bytes in UTF-8.
proof fn lemma_utf8_at_most_four_bytes_per_char(chars: Seq<char>)
    ensures
        encode_utf8(chars).len() <= 4 * chars.len(),
    decreases chars.len(),
{
    if chars.len() > 0 {
        lemma_utf8_at_most_four_bytes_per_char(chars.drop_first());
    }
}

/// Argon2 hash of a token secret; a hashing failure - only a secret of
/// more than `0xFFFF_FFFF` bytes - is reported with its message.
fn hash_secret(secret: &str) -> (r: AppResult<String>)
    ensures
        encode_utf8(secret@).len() <= 0xFFFF_FFFF ==> r is Ok,
        r matches Ok(h) ==> spec_argon2_verifies(secret@, h@),
        r matches Err(e) ==> e is PasswordHash,
{
    match argon2_hash(secret) {
        Ok(hash) => Ok(hash),
        Err(err) => Err(AppError::PasswordHash(err.to_string())),
    }
}

/// `(token_id, secret_plaintext, token_hash)` - only `secret_plaintext` is
/// never persisted. The id and secret are URL-safe base64 of 16 and 32
/// random bytes, and the hash verifies the secret. Hashing a secret that
/// short always succeeds.
pub fn generate() -> (r: AppResult<(String, String, String)>)
    ensures
        r is Ok,
        r matches Ok(t) ==> {
            &&& url_safe_text(t.0@)
            &&& url_safe_text(t.1@)
            &&& (exists|b: Seq<u8>| b.len() == SELECTOR_BYTES && t.0@ == spec_b64_url_nopad(b))
            &&& (exists|b: Seq<u8>| b.len() == SECRET_BYTES && t.1@ == spec_b64_url_nopad(b))
            &&& spec_argon2_verifies(t.1@, t.2@)
        },
        r matches Err(e) ==> e is PasswordHash,
{
    let token_id = random_urlsafe(SELECTOR_BYTES);
    let secret = random_urlsafe(SECRET_BYTES);
    proof {
        lemma_utf8_at_most_four_bytes_per_char(secret@);
    }
    let hash = hash_secret(secret.as_str())?;
    Ok((token_id, secret, hash))
}

/// Whether `secret` verifies against the stored hash; a malformed hash
/// verifies nothing.
pub fn verify_secret(secret: &str, hash: &str) -> (r: bool)
    ensures
        r == spec_argon2_verifies(secret@, hash@),
{
    argon2_verify(secret, hash)
}

/// The full token text for an id and a secret.
pub open spec fn token_text(token_id: Seq<char>, secret: Seq<char>) -> Seq<char> {
    PREFIX@ + token_id + seq!['.'] + secret
}

/// What a bearer value parses to: after the prefix, the text before and
/// after the first `.`.
pub open spec fn parse_bearer_spec(value: Seq<char>) -> Option<(Seq<char>, Seq<char>)> {
    if has_prefix(value, PREFIX@) {
        split_once_spec(value.skip(PREFIX@.len() as int), '.')
    } else {
        None
    }
}

/// Returns `None` (not an `AppError`) on any malformed shape - a malformed
/// header should reject the same way an unknown/expired/wrong token does,
/// not distinguishably.
pub fn parse_bearer_value(value: &str) -> (r: Option<(&str, &str)>)
    ensures
        parse_bearer_spec(value@) is None ==> r is None,
        parse_bearer_spec(value@) matches Some(p) ==> (r matches Some(q) && q.0@ == p.0 && q.1@
            == p.1),
{
    match strip_prefix_str(value, PREFIX) {
        Some(rest) => split_once_str(rest, '.'),
        None => None,
    }
}

/// `oxde_<token_id>.<secret>`.
pub fn format_token(token_id: &str, secret: &str) -> (r: String)
    ensures
        r@ == token_text(token_id@, secret@),
{
    let mut s = PREFIX.to_owned();
    s.append(token_id);
    s.append(".");
    proof {
        reveal_strlit(".");
        assert("."@ =~= seq!['.']);
    }
    s.append(secret);
    s
}

/// A formatted token parses back into its id and secret, provided the id
/// holds no `.` (the secret may hold anything).
pub proof fn lemma_format_then_parse(token_id: Seq<char>, secret: Seq<char>)
    requires
        forall|i: int| 0 <= i < token_id.len() ==> token_id[i] != '.',
    ensures
        parse_bearer_spec(token_text(token_id, secret)) == Some((token_id, secret)),
{
    let v = token_text(token_id, secret);
    let p = PREFIX@;
    assert(v.subrange(0, p.len() as int) =~= p);
    let rest = v.skip(p.len() as int);
    assert(rest =~= token_id + seq!['.'] + secret);
    let n = token_id.len() as int;
    assert(rest[n] == '.');
    let k = choose|k: int|
        0 <= k < rest.len() && rest[k] == '.' && forall|j: int| 0 <= j < k ==> rest[j] != '.';
    assert(forall|j: int| 0 <= j < n ==> rest[j] == token_id[j]);
    assert(exists|k: int|
        0 <= k < rest.len() && rest[k] == '.' && forall|j: int| 0 <= j < k ==> rest[j] != '.') by {
        assert(forall|j: int| 0 <= j < n ==> rest[j] != '.');
    }
    if k < n {
        assert(rest[k] == token_id[k]);
    } else if k > n {
        assert(rest[n] != '.');
    }
    assert(k == n);
    assert(rest.take(n) =~= token_id);
    assert(rest.skip(n + 1) =~= secret);
}

/// Tokens made from a generated id parse back into that id and secret: a
/// generated id is URL-safe base64, which holds no `.`.
pub proof fn lemma_generated_token_round_trips(token_id: Seq<char>, secret: Seq<char>)
    requires
        url_safe_text(token_id),
    ensures
        parse_bearer_spec(token_text(token_id, secret)) == Some((token_id, secret)),
{
    assert forall|i: int| 0 <= i < token_id.len() implies token_id[i] != '.' by {
        assert(b64_url_char(token_id[i]));
    }
    lemma_format_then_parse(token_id, secret);
}

} // verus!
