//! Guards around git deploys: the repo host must resolve only to publicly
//! routable addresses (no SSRF into internal services), and a publish
//! directory must stay inside the checkout.

use vstd::prelude::*;

use crate::error::AppError;
use crate::layout::{join_spec, path_join};
use crate::text::{nat_decimal, u64_decimal};

verus! {

/// An IP address as plain values: four octets, or eight 16-bit segments.
#[derive(Clone, Copy, Debug, PartialEq, Eq, Hash)]
pub enum IpAddress {
    V4([u8; 4]),
    V6([u16; 8]),
}

/// 10.0.0.0/8, 172.16.0.0/12, 192.168.0.0/16.
pub open spec fn v4_private(o: Seq<u8>) -> bool {
    o[0] == 10 || (o[0] == 172 && 16 <= o[1] <= 31) || (o[0] == 192 && o[1] == 168)
}

/// 192.0.2.0/24, 198.51.100.0/24, 203.0.113.0/24.
pub open spec fn v4_documentation(o: Seq<u8>) -> bool {
    (o[0] == 192 && o[1] == 0 && o[2] == 2) || (o[0] == 198 && o[1] == 51 && o[2] == 100) || (
    o[0] == 203 && o[1] == 0 && o[2] == 113)
}

/// Not private, loopback (127/8), link-local (169.254/16), broadcast,
/// documentation, multicast (224/4), unspecified, "this network" (0/8),
/// CGNAT (100.64/10), benchmarking (198.18/15) or reserved (240/4).
pub open spec fn v4_public(o: Seq<u8>) -> bool {
    !(v4_private(o) || o[0] == 127 || (o[0] == 169 && o[1] == 254) || (o[0] == 255 && o[1] == 255
        && o[2] == 255 && o[3] == 255) || v4_documentation(o) || (224 <= o[0] <= 239) || (o[0]
        == 0 && o[1] == 0 && o[2] == 0 && o[3] == 0) || o[0] == 0 || (o[0] == 100 && 64 <= o[1]
        <= 127) || (o[0] == 198 && 18 <= o[1] <= 19) || o[0] >= 240)
}

/// `::ffff:a.b.c.d`.
pub open spec fn v6_is_v4_mapped(s: Seq<u16>) -> bool {
    s[0] == 0 && s[1] == 0 && s[2] == 0 && s[3] == 0 && s[4] == 0 && s[5] == 0xffff
}

/// The IPv4 address embedded in an IPv4-mapped IPv6 address.
pub open spec fn v6_mapped_octets(s: Seq<u16>) -> Seq<u8> {
    seq![(s[6] / 256) as u8, (s[6] % 256) as u8, (s[7] / 256) as u8, (s[7] % 256) as u8]
}

/// Not loopback (::1), multicast (ff00::/8), unspecified (::), unique
/// local (fc00::/7) or unicast link-local (fe80::/10); an IPv4-mapped
/// address is judged as the IPv4 address it carries.
pub open spec fn v6_public(s: Seq<u16>) -> bool {
    if v6_is_v4_mapped(s) {
        v4_public(v6_mapped_octets(s))
    } else {
        let zero_prefix = s[0] == 0 && s[1] == 0 && s[2] == 0 && s[3] == 0 && s[4] == 0 && s[5]
            == 0 && s[6] == 0;
        !((zero_prefix && s[7] == 1) || s[0] >= 0xff00 || (zero_prefix && s[7] == 0) || (0xfc00
            <= s[0] < 0xfe00) || (0xfe80 <= s[0] < 0xfec0))
    }
}

/// Whether an address is publicly routable.
pub open spec fn ip_public(ip: IpAddress) -> bool {
    match ip {
        IpAddress::V4(o) => v4_public(o@),
        IpAddress::V6(s) => v6_public(s@),
    }
}

/// Whether an IPv4 address (as octets) is publicly routable.
pub fn is_public_ipv4(octets: [u8; 4]) -> (r: bool)
    ensures
        r == v4_public(octets@),
{
    let a = octets[0];
    let b = octets[1];
    let c = octets[2];
    let d = octets[3];
    let private = a == 10 || (a == 172 && 16 <= b && b <= 31) || (a == 192 && b == 168);
    let loopback = a == 127;
    let link_local = a == 169 && b == 254;
    let broadcast = a == 255 && b == 255 && c == 255 && d == 255;
    let documentation = (a == 192 && b == 0 && c == 2) || (a == 198 && b == 51 && c == 100) || (
    a == 203 && b == 0 && c == 113);
    let multicast = 224 <= a && a <= 239;
    let unspecified = a == 0 && b == 0 && c == 0 && d == 0;
    !(private || loopback || link_local || broadcast || documentation || multicast || unspecified
        || a == 0 || (a == 100 && 64 <= b && b <= 127) || (a == 198 && 18 <= b && b <= 19) || a
        >= 240)
}

/// Whether an IPv6 address (as segments) is publicly routable.
pub fn is_public_ipv6(segments: [u16; 8]) -> (r: bool)
    ensures
        r == v6_public(segments@),
{
    let s = segments;
    if s[0] == 0 && s[1] == 0 && s[2] == 0 && s[3] == 0 && s[4] == 0 && s[5] == 0xffff {
        let mapped: [u8; 4] = [
            (s[6] / 256) as u8,
            (s[6] % 256) as u8,
            (s[7] / 256) as u8,
            (s[7] % 256) as u8,
        ];
        assert(mapped@ =~= v6_mapped_octets(s@));
        return is_public_ipv4(mapped);
    }
    let zero_prefix = s[0] == 0 && s[1] == 0 && s[2] == 0 && s[3] == 0 && s[4] == 0 && s[5] == 0
        && s[6] == 0;
    let loopback = zero_prefix && s[7] == 1;
    let multicast = s[0] >= 0xff00;
    let unspecified = zero_prefix && s[7] == 0;
    let unique_local = 0xfc00 <= s[0] && s[0] < 0xfe00;
    let link_local = 0xfe80 <= s[0] && s[0] < 0xfec0;
    !(loopback || multicast || unspecified || unique_local || link_local)
}

/// Whether an address is publicly routable.
pub fn is_public_ip(ip: IpAddress) -> (r: bool)
    ensures
        r == ip_public(ip),
{
    match ip {
        IpAddress::V4(o) => is_public_ipv4(o),
        IpAddress::V6(s) => is_public_ipv6(s),
    }
}

/// Judges the addresses `host` resolved to: rejected unless there is at
/// least one and every one is publicly routable - blocks git deploys from
/// reaching internal services or cloud metadata endpoints.
pub fn check_resolved_addresses(host: &str, addrs: &[IpAddress]) -> (r: Result<(), AppError>)
    ensures
        r is Ok <==> addrs@.len() > 0 && forall|i: int| 0 <= i < addrs@.len() ==> ip_public(
            #[trigger] addrs@[i],
        ),
        r matches Err(e) ==> (e matches AppError::Git(m) && (if addrs@.len() == 0 {
            m@ == "repo host "@ + host@ + " did not resolve to any address"@
        } else {
            m@ == "repo host "@ + host@ + " resolves to a non-public address"@
        })),
{
    let mut i: usize = 0;
    while i < addrs.len()
        invariant
            0 <= i <= addrs@.len(),
            forall|j: int| 0 <= j < i ==> ip_public(#[trigger] addrs@[j]),
        decreases addrs@.len() - i,
    {
        if !is_public_ip(addrs[i]) {
            let mut m = "repo host ".to_owned();
            m.append(host);
            m.append(" resolves to a non-public address");
            return Err(AppError::Git(m));
        }
        i = i + 1;
    }
    if addrs.len() == 0 {
        let mut m = "repo host ".to_owned();
        m.append(host);
        m.append(" did not resolve to any address");
        return Err(AppError::Git(m));
    }
    Ok(())
}

/// One component of a path, as `std::path::Path::components` yields it.
#[derive(Clone, Copy, Debug, PartialEq, Eq, Structural)]
pub enum PathPart {
    Prefix,
    RootDir,
    CurDir,
    ParentDir,
    Normal,
}

/// Name for the kinds of the components `std::path::Path::components`
/// yields for a path, in order.
pub uninterp spec fn spec_path_components(p: Seq<char>) -> Seq<PathPart>;

/// Calls `Path::components` and reports each component's kind.
#[verifier::external_body]
fn path_components(p: &str) -> (r: Vec<PathPart>)
    ensures
        r@ == spec_path_components(p@),
{
    std::path::Path::new(p).components().map(|c| match c {
        std::path::Component::Prefix(_) => PathPart::Prefix,
        std::path::Component::RootDir => PathPart::RootDir,
        std::path::Component::CurDir => PathPart::CurDir,
        std::path::Component::ParentDir => PathPart::ParentDir,
        std::path::Component::Normal(_) => PathPart::Normal,
    }).collect()
}

/// A component that leaves the directory it is joined onto.
pub open spec fn escaping_part(c: PathPart) -> bool {
    c == PathPart::ParentDir || c == PathPart::RootDir || c == PathPart::Prefix
}

/// Some component of `p` would leave the directory `p` is joined onto.
pub open spec fn path_escapes(p: Seq<char>) -> bool {
    exists|i: int|
        0 <= i < spec_path_components(p).len() && escaping_part(
            #[trigger] spec_path_components(p)[i],
        )
}

/// Calls `Path::is_dir` on `path`: whether it names an existing directory
/// (following symbolic links). That depends on the disk at the moment of
/// the call, so nothing is claimed of the result.
#[verifier::external_body]
fn path_is_dir(path: &str) -> bool {
    std::path::Path::new(path).is_dir()
}

/// What a publish directory comes to once its joined path `resolved` has
/// been looked up on disk: served when it is a directory, else refused as
/// an invalid publish directory naming `publish_dir`.
pub fn publish_dir_verdict(publish_dir: &str, resolved: String, resolved_is_dir: bool) -> (r: Result<
    String,
    AppError,
>)
    ensures
        resolved_is_dir ==> r == Ok::<String, AppError>(resolved),
        !resolved_is_dir ==> (r matches Err(AppError::InvalidPublishDir(s)) && s@ == publish_dir@),
{
    if resolved_is_dir {
        Ok(resolved)
    } else {
        Err(AppError::InvalidPublishDir(publish_dir.to_owned()))
    }
}

/// Resolves `publish_dir` (a path relative to `checkout_dir`, or `None`
/// for the repo root) to the directory to serve, rejecting anything that
/// would escape `checkout_dir` - any parent-dir, root or prefix component -
/// and anything that is not an existing directory there. Whether the path
/// is a directory is read from the disk: `publish_dir_verdict` says what
/// each answer gives.
pub fn resolve_publish_dir(checkout_dir: &str, publish_dir: Option<&str>) -> (r: Result<
    String,
    AppError,
>)
    ensures
        publish_dir is None ==> (r matches Ok(s) && s@ == checkout_dir@),
        publish_dir is Some && path_escapes(publish_dir->0@) ==> (r matches Err(
            AppError::InvalidPublishDir(s),
        ) && s@ == publish_dir->0@),
        publish_dir is Some && r is Ok ==> !path_escapes(publish_dir->0@) && r->Ok_0@ == join_spec(
            checkout_dir@,
            publish_dir->0@,
        ),
        publish_dir is Some && r is Err ==> (r matches Err(AppError::InvalidPublishDir(s)) && s@
            == publish_dir->0@),
{
    match publish_dir {
        None => Ok(checkout_dir.to_owned()),
        Some(p) => {
            let parts = path_components(p);
            let mut i: usize = 0;
            while i < parts.len()
                invariant
                    0 <= i <= parts@.len(),
                    parts@ == spec_path_components(p@),
                    publish_dir == Some(p),
                    forall|j: int| 0 <= j < i ==> !escaping_part(#[trigger] parts@[j]),
                decreases parts@.len() - i,
            {
                let c = parts[i];
                if c == PathPart::ParentDir || c == PathPart::RootDir || c == PathPart::Prefix {
                    assert(escaping_part(spec_path_components(p@)[i as int]));
                    return Err(AppError::InvalidPublishDir(p.to_owned()));
                }
                i = i + 1;
            }
            assert(!path_escapes(p@));
            let resolved = path_join(checkout_dir, p);
            let is_dir = path_is_dir(resolved.as_str());
            publish_dir_verdict(p, resolved, is_dir)
        },
    }
}

/// The progress line for a named counter at `step` of `max`: with a known
/// non-zero total, the percentage done (rounded down, the product
/// saturating at `u64::MAX`).
pub open spec fn progress_line_spec(name: Seq<char>, step: u64, max: Option<u64>) -> Seq<char> {
    match max {
        Some(m) if m > 0 => name + ": "@ + nat_decimal(step as nat) + "/"@ + nat_decimal(m as nat)
            + " ("@ + nat_decimal(
            (if step * 100 > u64::MAX {
                u64::MAX as int
            } else {
                step * 100
            }) as nat / m as nat,
        ) + "%)"@,
        _ => name + ": "@ + nat_decimal(step as nat),
    }
}

/// The line a clone-progress counter logs at `step`; unnamed progress (the
/// root) logs nothing - a bare number isn't useful.
pub fn progress_line(name: &str, step: u64, max: Option<u64>) -> (r: Option<String>)
    ensures
        name@.len() == 0 ==> r is None,
        name@.len() > 0 ==> (r matches Some(line) && line@ == progress_line_spec(name@, step, max)),
{
    if name.is_empty() {
        return None;
    }
    let mut line = name.to_owned();
    line.append(": ");
    let s = u64_decimal(step);
    line.append(s.as_str());
    match max {
        Some(m) => {
            if m > 0 {
                line.append("/");
                let ms = u64_decimal(m);
                line.append(ms.as_str());
                line.append(" (");
                let product: u64 = if step <= u64::MAX / 100 {
                    step * 100
                } else {
                    u64::MAX
                };
                let pct = product / m;
                let ps = u64_decimal(pct);
                line.append(ps.as_str());
                line.append("%)");
            }
        },
        None => {},
    }
    Some(line)
}

/// Minimum gap between progress lines from one counter, in milliseconds -
/// gix reports progress far more often than is useful to log.
pub const PROGRESS_EMIT_INTERVAL_MS: u64 = 500;

/// A counter logs again only once the interval has passed since its last
/// line.
pub fn progress_due(elapsed_ms: u64) -> (r: bool)
    ensures
        r == (elapsed_ms >= PROGRESS_EMIT_INTERVAL_MS),
{
    elapsed_ms >= PROGRESS_EMIT_INTERVAL_MS
}

} // verus!
