//! Serving the dashboard's single-page app under `/dashboard`: which file a
//! request names, when to fall back to `index.html`, how long a file may
//! be cached, and when the client's copy is still current.

use vstd::prelude::*;

use crate::text::{has_prefix, same_text, starts_with_chars, chars_of, strip_prefix_str};
use crate::tls::{hex_encode, hex_spec};

verus! {

/// The asset path a request path names below `/dashboard/` (or
/// `/dashboard`), empty for anything else.
pub open spec fn asset_path_spec(path: Seq<char>) -> Seq<char> {
    if has_prefix(path, "/dashboard/"@) {
        path.skip(11)
    } else if has_prefix(path, "/dashboard"@) {
        path.skip(10)
    } else {
        Seq::empty()
    }
}

/// The asset path a request path names.
pub fn asset_path(path: &str) -> (r: &str)
    ensures
        r@ == asset_path_spec(path@),
{
    proof {
        reveal_strlit("/dashboard/");
        reveal_strlit("/dashboard");
        reveal_strlit("");
    }
    match strip_prefix_str(path, "/dashboard/") {
        Some(rest) => rest,
        None => match strip_prefix_str(path, "/dashboard") {
            Some(rest) => rest,
            None => "",
        },
    }
}

/// Content-hashed build output lives under `assets/`.
pub fn is_hashed_asset(path: &str) -> (r: bool)
    ensures
        r == has_prefix(path@, "assets/"@),
{
    let p = chars_of(path);
    let prefix = chars_of("assets/");
    starts_with_chars(&p, &prefix)
}

/// Which file answers a request.
#[derive(Clone, Copy, Debug, PartialEq, Eq, Structural)]
pub enum AssetChoice {
    /// The file the path names.
    Requested,
    /// `index.html`, so the client-side router resolves the path.
    Index,
    /// Nothing: 404.
    NotFound,
}

/// A built file the path names is served as it is; any other path falls
/// back to `index.html` for client-side routing, unless it is under
/// `assets/` - a stale hashed-build reference, so 404 instead of silently
/// returning HTML.
pub fn choose_asset(hashed: bool, requested_exists: bool, index_exists: bool) -> (r: AssetChoice)
    ensures
        requested_exists ==> r == AssetChoice::Requested,
        !requested_exists && !hashed && index_exists ==> r == AssetChoice::Index,
        !requested_exists && (hashed || !index_exists) ==> r == AssetChoice::NotFound,
{
    if requested_exists {
        AssetChoice::Requested
    } else if !hashed && index_exists {
        AssetChoice::Index
    } else {
        AssetChoice::NotFound
    }
}

/// The `ETag` of a file with SHA-256 `hash`: its lowercase hex, quoted.
pub fn etag(hash: [u8; 32]) -> (r: String)
    ensures
        r@ == seq!['"'] + hex_spec(hash@) + seq!['"'],
{
    let mut s = "\"".to_owned();
    proof {
        reveal_strlit("\"");
        assert("\""@ =~= seq!['"']);
    }
    let hex = hex_encode(hash);
    s.append(hex.as_str());
    s.append("\"");
    s
}

/// The client's copy is current when its `If-None-Match` is exactly the
/// `ETag`: answer 304.
pub fn not_modified(if_none_match: Option<&str>, etag: &str) -> (r: bool)
    ensures
        r == (if_none_match is Some && if_none_match->0@ == etag@),
{
    match if_none_match {
        Some(v) => same_text(v, etag),
        None => false,
    }
}

/// `assets/*` is content-hashed, so it's cached forever; everything else is
/// unhashed and revalidated via `ETag` on every load.
pub fn cache_control(hashed: bool) -> (r: &'static str)
    ensures
        hashed ==> r@ == "public, max-age=31536000, immutable"@,
        !hashed ==> r@ == "no-cache"@,
{
    if hashed {
        "public, max-age=31536000, immutable"
    } else {
        "no-cache"
    }
}

} // verus!
