//! Certificate fingerprints for the hub<->agent link: SHA-256 in lowercase
//! hex, pinned by the agent on first connect or by configuration.

use vstd::prelude::*;
use vstd::string::StrSliceExecFns;

use sha2::{Digest, Sha256};

use crate::text::{same_text, spec_to_lowercase, to_lowercase, trim, trim_spec};

verus! {

/// Name for the SHA-256 digest of some bytes.
pub uninterp spec fn spec_sha256(bytes: Seq<u8>) -> Seq<u8>;

/// Calls `Sha256::digest`; the 32-byte result is `spec_sha256(bytes@)`.
#[verifier::external_body]
fn sha256(bytes: &[u8]) -> (r: [u8; 32])
    ensures
        r@ == spec_sha256(bytes@),
{
    Sha256::digest(bytes).into()
}

/// The lowercase hex digit for `n < 16`.
pub open spec fn hex_digit(n: int) -> char {
    "0123456789abcdef"@[n]
}

/// Two lowercase hex digits per byte, in order - `{:02x}` for each.
pub open spec fn hex_spec(bytes: Seq<u8>) -> Seq<char>
    decreases bytes.len(),
{
    if bytes.len() == 0 {
        Seq::empty()
    } else {
        hex_spec(bytes.drop_last()) + seq![
            hex_digit(bytes.last() as int / 16),
            hex_digit(bytes.last() as int % 16),
        ]
    }
}

/// The one-character string for hex digit `n`.
fn hex_digit_str(n: u8) -> (r: &'static str)
    requires
        n < 16,
    ensures
        r@ == seq![hex_digit(n as int)],
{
    let digits = "0123456789abcdef";
    proof {
        reveal_strlit("0123456789abcdef");
    }
    let r = digits.substring_char(n as usize, (n + 1) as usize);
    assert(r@ =~= seq![hex_digit(n as int)]);
    r
}

/// Lowercase hex of `bytes`.
pub fn hex_lower(bytes: &[u8]) -> (r: String)
    ensures
        r@ == hex_spec(bytes@),
        r@.len() == 2 * bytes@.len(),
{
    let mut s = String::new();
    let mut i: usize = 0;
    assert(bytes@.take(0) =~= Seq::<u8>::empty());
    while i < bytes.len()
        invariant
            0 <= i <= bytes@.len(),
            s@ == hex_spec(bytes@.take(i as int)),
            s@.len() == 2 * i,
        decreases bytes@.len() - i,
    {
        let b = bytes[i];
        assert(bytes@.take(i + 1).drop_last() =~= bytes@.take(i as int));
        assert(bytes@.take(i + 1).last() == b);
        s.append(hex_digit_str(b / 16));
        s.append(hex_digit_str(b % 16));
        proof {
            assert(s@ =~= hex_spec(bytes@.take(i as int)) + seq![
                hex_digit(b as int / 16),
                hex_digit(b as int % 16),
            ]);
        }
        i = i + 1;
    }
    assert(bytes@.take(bytes@.len() as int) =~= bytes@);
    s
}

/// Lowercase hex of a 32-byte digest (64 characters).
pub fn hex_encode(bytes: [u8; 32]) -> (r: String)
    ensures
        r@ == hex_spec(bytes@),
        r@.len() == 64,
{
    hex_lower(&bytes)
}

/// A certificate's fingerprint: SHA-256 of its DER bytes, lowercase hex.
pub fn hex_sha256(der: &[u8]) -> (r: String)
    ensures
        r@ == hex_spec(spec_sha256(der@)),
        r@.len() == 64,
{
    let digest = sha256(der);
    hex_encode(digest)
}

/// The characters of an optional owned string.
pub open spec fn opt_view(o: Option<String>) -> Option<Seq<char>> {
    match o {
        Some(s) => Some(s@),
        None => None,
    }
}

/// Priority order: an explicit configured pin (trimmed, lowercased), then
/// a pin persisted from a prior trust-on-first-connect (trimmed), then
/// `None` - a genuine first connection, which accepts whatever's
/// presented. Takes the persisted pin file's contents, if it could be
/// read.
pub fn expected_fingerprint(configured: Option<String>, persisted: Option<String>) -> (r: Option<
    String,
>)
    ensures
        configured matches Some(c) ==> opt_view(r) == Some(spec_to_lowercase(trim_spec(c@))),
        configured is None ==> opt_view(r) == match persisted {
            Some(p) => Some(trim_spec(p@)),
            None => None,
        },
{
    match configured {
        Some(pinned) => Some(to_lowercase(trim(pinned.as_str()))),
        None => match persisted {
            Some(contents) => Some(trim(contents.as_str()).to_owned()),
            None => None,
        },
    }
}

/// The message a fingerprint mismatch is refused with.
pub open spec fn mismatch_message(expected: Seq<char>, actual: Seq<char>) -> Seq<char> {
    "hub certificate fingerprint mismatch (expected "@ + expected + ", got "@ + actual + ")"@
}

/// Checks the fingerprint a server presented against the pin, if any: with
/// no pin everything is accepted (and then captured by the caller).
pub fn check_fingerprint(expected: Option<&str>, actual: &str) -> (r: Result<(), String>)
    ensures
        expected is Some && expected->0@ != actual@ ==> (r matches Err(m) && m@
            == mismatch_message(expected->0@, actual@)),
        !(expected is Some && expected->0@ != actual@) ==> r is Ok,
{
    match expected {
        Some(e) => {
            if same_text(e, actual) {
                Ok(())
            } else {
                let mut m = "hub certificate fingerprint mismatch (expected ".to_owned();
                m.append(e);
                m.append(", got ");
                m.append(actual);
                m.append(")");
                Err(m)
            }
        },
        None => Ok(()),
    }
}

} // verus!
