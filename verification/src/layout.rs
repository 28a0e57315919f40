//! Where things live under a data directory. Paths are Unix paths held as
//! strings and joined the way `std::path::Path::join` joins them there.

use vstd::prelude::*;

use crate::text::{chars_of};

verus! {

/// `part` appended to `base` as a path: an absolute `part` replaces `base`;
/// otherwise a `/` separates them unless `base` is empty or already ends in
/// one - `Path::join` on Unix.
pub open spec fn join_spec(base: Seq<char>, part: Seq<char>) -> Seq<char> {
    if part.len() > 0 && part[0] == '/' {
        part
    } else if base.len() == 0 || base.last() == '/' {
        base + part
    } else {
        base + seq!['/'] + part
    }
}

/// `part` appended to `base` as a path.
pub fn path_join(base: &str, part: &str) -> (r: String)
    ensures
        r@ == join_spec(base@, part@),
{
    let p = chars_of(part);
    if p.len() > 0 && p[0] == '/' {
        return part.to_owned();
    }
    let b = chars_of(base);
    let mut s = base.to_owned();
    if !(b.len() == 0 || b[b.len() - 1] == '/') {
        s.append("/");
        proof {
            reveal_strlit("/");
            assert("/"@ =~= seq!['/']);
        }
    }
    s.append(part);
    s
}

/// Flat by `deployment_id` alone - an agent only ever owns content for
/// run-mode deployments, and `deployment_id` (a `UUIDv7`) is already
/// globally unique.
pub fn deployments_dir(data_dir: &str) -> (r: String)
    ensures
        r@ == join_spec(data_dir@, "deployments"@),
{
    path_join(data_dir, "deployments")
}

/// The directory of one deployment.
pub fn deployment_dir(data_dir: &str, deployment_id: &str) -> (r: String)
    ensures
        r@ == join_spec(join_spec(data_dir@, "deployments"@), deployment_id@),
{
    let d = deployments_dir(data_dir);
    path_join(d.as_str(), deployment_id)
}

/// The servable content of one deployment.
pub fn deployment_files_dir(data_dir: &str, deployment_id: &str) -> (r: String)
    ensures
        r@ == join_spec(join_spec(join_spec(data_dir@, "deployments"@), deployment_id@), "files"@),
{
    let d = deployment_dir(data_dir, deployment_id);
    path_join(d.as_str(), "files")
}

/// Scratch space, wiped on startup.
pub fn tmp_dir(data_dir: &str) -> (r: String)
    ensures
        r@ == join_spec(data_dir@, "tmp"@),
{
    path_join(data_dir, "tmp")
}

/// Scratch path for extracting an uploaded zip before it's renamed into
/// place - scoped by `deployment_id`, which is already unique, so no
/// further uniqueness scheme is needed.
pub fn upload_staging_dir(data_dir: &str, deployment_id: &str) -> (r: String)
    ensures
        r@ == join_spec(join_spec(data_dir@, "tmp"@), "upload-"@ + deployment_id@),
{
    let t = tmp_dir(data_dir);
    let mut name = "upload-".to_owned();
    name.append(deployment_id);
    path_join(t.as_str(), name.as_str())
}

/// Where a deployment's directory is moved to before it is removed, so a
/// delete interrupted half-way is finished by the startup sweep of `tmp/`
/// rather than leaving a half-deleted deployment in place.
pub fn deleted_deployment_staging(data_dir: &str, deployment_id: &str) -> (r: String)
    ensures
        r@ == join_spec(join_spec(data_dir@, "tmp"@), "deleted-deployment-"@ + deployment_id@),
{
    let t = tmp_dir(data_dir);
    let mut name = "deleted-deployment-".to_owned();
    name.append(deployment_id);
    path_join(t.as_str(), name.as_str())
}

/// Where a received zip upload is written before extraction.
pub fn upload_zip_path(data_dir: &str, deployment_id: &str) -> (r: String)
    ensures
        r@ == join_spec(join_spec(data_dir@, "tmp"@), "upload-"@ + deployment_id@ + ".zip"@),
{
    let t = tmp_dir(data_dir);
    let mut name = "upload-".to_owned();
    name.append(deployment_id);
    name.append(".zip");
    path_join(t.as_str(), name.as_str())
}

/// Where an agent keeps the hub certificate fingerprint it trusted on first
/// connect.
pub fn pin_path(data_dir: &str) -> (r: String)
    ensures
        r@ == join_spec(data_dir@, "hub-tls-fingerprint.txt"@),
{
    path_join(data_dir, "hub-tls-fingerprint.txt")
}

/// Where the secrets key is kept.
pub fn secrets_key_path(data_dir: &str) -> (r: String)
    ensures
        r@ == join_spec(data_dir@, "secrets.key"@),
{
    path_join(data_dir, "secrets.key")
}

/// The files of the hub<->agent TLS identity.
#[derive(Debug, PartialEq, Eq)]
pub struct Paths {
    pub cert: String,
    pub key: String,
    pub fingerprint: String,
}

impl Paths {
    /// `cert.pem`, `key.pem` and `fingerprint.txt` under `dir`.
    pub fn new(dir: &str) -> (r: Paths)
        ensures
            r.cert@ == join_spec(dir@, "cert.pem"@),
            r.key@ == join_spec(dir@, "key.pem"@),
            r.fingerprint@ == join_spec(dir@, "fingerprint.txt"@),
    {
        Paths {
            cert: path_join(dir, "cert.pem"),
            key: path_join(dir, "key.pem"),
            fingerprint: path_join(dir, "fingerprint.txt"),
        }
    }
}

/// The directory the hub<->agent TLS identity lives in.
pub fn agent_tls_dir(data_dir: &str) -> (r: String)
    ensures
        r@ == join_spec(data_dir@, "agent-tls"@),
{
    path_join(data_dir, "agent-tls")
}

/// Joining relative names below a directory keeps the directory as a
/// prefix: every path above lies under the data directory it was built
/// from (for a data directory given without a trailing `/`).
pub proof fn lemma_join_stays_below(base: Seq<char>, part: Seq<char>)
    requires
        !(part.len() > 0 && part[0] == '/'),
    ensures
        join_spec(base, part).len() >= base.len(),
        join_spec(base, part).subrange(0, base.len() as int) == base,
{
    let r = join_spec(base, part);
    if base.len() == 0 || base.last() == '/' {
        assert(r.subrange(0, base.len() as int) =~= base);
    } else {
        assert(r.subrange(0, base.len() as int) =~= base);
    }
}

} // verus!
